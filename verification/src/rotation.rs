//! The rotation engine: turns the classified run length into a layout
//! permutation update and yields the layout to activate.

use vstd::prelude::*;

use vstd::arithmetic::div_mod::lemma_add_mod_noop;
use vstd::arithmetic::div_mod::lemma_small_mod;

use crate::state::is_permutation;
use crate::state::Data;
use crate::state::StateModel;

verus! {

/// Where the rotation cursor lands for one press of a confirmed run.
///
/// The second press of a run plants the cursor on slot 2, the first slot
/// outside the two fast-access slots; every later press advances it by
/// one, wrapping at the end.  A cursor that lands on the active slot
/// probes one slot further; when that probe steps past the last slot it
/// wraps to slot 0, which keeps the cursor in range (the active slot is
/// below 2, so slot 0 is then free).
pub open spec fn rotation_cursor(s: StateModel) -> int {
    let n = s.layouts.len() as int;
    let stepped = if s.counter > 2 { s.cur_all + 1 } else { 2 };
    let wrapped = stepped % n;
    if wrapped == s.cur_freq {
        if wrapped + 1 == n {
            0
        } else {
            wrapped + 1
        }
    } else {
        wrapped
    }
}

/// What one press does to the permutation and the two slots.
///
/// A lone tap (`counter <= 1`) toggles the active slot between the two
/// fast-access slots and touches nothing else.  A confirmed run moves the
/// rotation cursor as [`rotation_cursor`] says and swaps the layout under
/// the cursor with the active one, promoting the visited layout into the
/// fast-access slot.
pub open spec fn rotate_step(s: StateModel) -> StateModel {
    if s.counter <= 1 {
        StateModel { cur_freq: (s.cur_freq + 1) % 2, ..s }
    } else {
        let cursor = rotation_cursor(s);
        StateModel {
            cur_all: cursor,
            layouts: s.layouts.update(cursor, s.layouts[s.cur_freq]).update(
                s.cur_freq,
                s.layouts[cursor],
            ),
            ..s
        }
    }
}

impl Data {
    /// Applies one classified press to the permutation and the two slots,
    /// exactly as [`rotate_step`] says, and returns the layout now under
    /// the active slot: the layout to apply to every registered device.
    pub fn handle_press(&mut self) -> (target: usize)
        requires
            old(self)@.wf(),
            old(self).layouts.len() >= 2,
        ensures
            final(self)@ == rotate_step(old(self)@),
            final(self)@.wf(),
            target == final(self)@.layouts[final(self)@.cur_freq],
            old(self)@.counter <= 1 ==> final(self)@.layouts == old(self)@.layouts
                && final(self)@.cur_all == old(self)@.cur_all,
            old(self)@.counter >= 2 ==> final(self)@.cur_freq == old(self)@.cur_freq,
    {
        if self.counter <= 1 {
            self.cur_freq = (self.cur_freq + 1) % 2;
            proof {
                assert(self@ =~= rotate_step(old(self)@));
            }
        } else {
            let n = self.layouts.len();
            let stepped: usize = if self.counter > 2 {
                (self.cur_all % n) + 1
            } else {
                2
            };
            let wrapped: usize = stepped % n;
            proof {
                if self.counter > 2 {
                    lemma_small_mod(1, n as nat);
                    lemma_add_mod_noop(self.cur_all as int, 1, n as int);
                }
                assert(wrapped as int == {
                    let st = if self@.counter > 2 {
                        self@.cur_all + 1
                    } else {
                        2
                    };
                    st % (n as int)
                });
            }
            let cursor: usize = if wrapped == self.cur_freq {
                if wrapped + 1 == n {
                    0
                } else {
                    wrapped + 1
                }
            } else {
                wrapped
            };
            proof {
                assert(cursor as int == rotation_cursor(self@));
            }
            let active = self.layouts[self.cur_freq];
            let visited = self.layouts[cursor];
            self.layouts[cursor] = active;
            self.layouts[self.cur_freq] = visited;
            self.cur_all = cursor;
            proof {
                assert(self@.layouts =~= rotate_step(old(self)@).layouts);
                assert(self@ =~= rotate_step(old(self)@));
                lemma_swap_preserves_permutation(
                    old(self)@.layouts,
                    cursor as int,
                    old(self)@.cur_freq,
                );
            }
        }
        self.layouts[self.cur_freq]
    }
}

/// Swapping two entries of a permutation of `0..len` leaves a permutation
/// of `0..len`.
pub proof fn lemma_swap_preserves_permutation(s: Seq<int>, i: int, j: int)
    requires
        is_permutation(s),
        0 <= i < s.len(),
        0 <= j < s.len(),
    ensures
        is_permutation(s.update(i, s[j]).update(j, s[i])),
{
    let t = s.update(i, s[j]).update(j, s[i]);
    assert forall|k: int| 0 <= k < t.len() implies 0 <= #[trigger] t[k] < t.len() by {
        assert(t[k] == s[k] || t[k] == s[i] || t[k] == s[j]);
    }
    assert forall|k: int, l: int| 0 <= k < l < t.len() implies t[k] != t[l] by {
        assert(t[k] == (if k == j {
            s[i]
        } else if k == i {
            s[j]
        } else {
            s[k]
        }));
        assert(t[l] == (if l == j {
            s[i]
        } else if l == i {
            s[j]
        } else {
            s[l]
        }));
    }
}

} // verus!
