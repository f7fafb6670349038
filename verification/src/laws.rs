//! The laws of the engine, stated over the state model and proved once
//! and for all.

use vstd::prelude::*;

use vstd::arithmetic::div_mod::lemma_add_mod_noop_right;
use vstd::arithmetic::div_mod::lemma_mod_bound;
use vstd::arithmetic::div_mod::lemma_mod_equivalence;
use vstd::arithmetic::div_mod::lemma_mod_self_0;
use vstd::arithmetic::div_mod::lemma_small_mod;

use crate::classifier::classify_step;
use crate::rotation::lemma_swap_preserves_permutation;
use crate::rotation::rotate_step;
use crate::state::is_permutation;
use crate::state::StateModel;

verus! {

/// One rotation step keeps the permutation a permutation of the same
/// values, and keeps the two slots apart.
///
/// The law holds for every confirmed-run step.  A lone tap toggles the
/// active slot blindly between 0 and 1, so it keeps the slots apart only
/// when the cursor does not sit on the toggle's landing slot; that case
/// is excluded here.
pub proof fn lemma_rotation_preserves_permutation(s: StateModel)
    requires
        is_permutation(s.layouts),
        s.layouts.len() >= 2,
        0 <= s.cur_freq < s.layouts.len(),
        0 <= s.cur_all,
        s.cur_freq != s.cur_all,
        s.counter <= 1 ==> s.cur_all != (s.cur_freq + 1) % 2,
    ensures
        is_permutation(rotate_step(s).layouts),
        rotate_step(s).layouts.len() == s.layouts.len(),
        forall|v: int| rotate_step(s).layouts.contains(v) <==> s.layouts.contains(v),
        rotate_step(s).cur_freq != rotate_step(s).cur_all,
{
    let t = rotate_step(s).layouts;
    let u = s.layouts;
    if s.counter <= 1 {
        assert(t =~= u);
    } else {
        let f = s.cur_freq;
        let c = rotate_step(s).cur_all;
        assert(t == u.update(c, u[f]).update(f, u[c]));
        lemma_swap_preserves_permutation(u, c, f);
        assert forall|v: int| t.contains(v) implies u.contains(v) by {
            let k = choose|k: int| 0 <= k < t.len() && t[k] == v;
            if k == f {
                assert(u[c] == v);
            } else if k == c {
                assert(u[f] == v);
            } else {
                assert(u[k] == v);
            }
        }
        assert forall|v: int| u.contains(v) implies t.contains(v) by {
            let k = choose|k: int| 0 <= k < u.len() && u[k] == v;
            if k == f {
                assert(t[c] == v);
            } else if k == c {
                assert(t[f] == v);
            } else {
                assert(t[k] == v);
            }
        }
    }
}

/// A lone tap (`counter <= 1`) never touches the permutation, the cursor,
/// the devices or the timing fields; it only toggles the active slot
/// between 0 and 1, and toggling twice restores it.
pub proof fn lemma_lone_tap_toggles(s: StateModel)
    requires
        s.counter <= 1,
        0 <= s.cur_freq < 2,
    ensures
        rotate_step(s) == (StateModel {
            cur_freq: if s.cur_freq == 0 {
                1
            } else {
                0
            },
            ..s
        }),
        rotate_step(rotate_step(s)).cur_freq == s.cur_freq,
{
    assert(rotate_step(s) =~= (StateModel {
        cur_freq: if s.cur_freq == 0 {
            1
        } else {
            0
        },
        ..s
    }));
}

/// Storing the burst window that is already stored leaves the whole
/// state unchanged (the setter never touches any other field, so with an
/// unchanged window nothing changes at all).
pub proof fn lemma_set_duration_idempotent(s: StateModel, micros: u64)
    requires
        micros as int == s.max_duration,
    ensures
        (StateModel { max_duration: micros as int, ..s }) == s,
{
    assert((StateModel { max_duration: micros as int, ..s }) =~= s);
}

/// A press that arrives after a gap of at least the burst window breaks
/// any run: the classifier restarts the run at length one with a cleared
/// accumulator, and the following rotation step treats the press as a
/// lone tap, toggling the active slot only.
pub proof fn lemma_long_pause_breaks_run(s: StateModel, t: int)
    requires
        s.wf(),
        s.counter >= 2,
        t - s.last_time >= s.max_duration,
    ensures
        classify_step(s, t).counter == 1,
        classify_step(s, t).sum_time == 0,
        rotate_step(classify_step(s, t)) == (StateModel {
            last_time: t,
            sum_time: 0,
            counter: 1,
            cur_freq: (s.cur_freq + 1) % 2,
            ..s
        }),
{
    assert(rotate_step(classify_step(s, t)) =~= (StateModel {
        last_time: t,
        sum_time: 0,
        counter: 1,
        cur_freq: (s.cur_freq + 1) % 2,
        ..s
    }));
}

/// One press of a sustained zero-gap run: the next press arrives at the
/// very time of the previous one.
pub open spec fn burst_press(s: StateModel) -> StateModel {
    rotate_step(classify_step(s, s.last_time))
}

/// The state after `k` presses of a sustained zero-gap run.
pub open spec fn burst_run(s: StateModel, k: nat) -> StateModel
    decreases k,
{
    if k == 0 {
        s
    } else {
        burst_press(burst_run(s, (k - 1) as nat))
    }
}

/// Where the cursor lands after one press of a confirmed run: advance by
/// one, wrap at the end, skip the active slot (wrapping once more when
/// the skip steps past the last slot).
pub open spec fn next_cursor(c: int, f: int, n: int) -> int {
    let w = (c + 1) % n;
    if w == f {
        if w + 1 == n {
            0
        } else {
            w + 1
        }
    } else {
        w
    }
}

/// The cursor after `k` presses of a confirmed run.
pub open spec fn cursor_after(c: int, f: int, n: int, k: nat) -> int
    decreases k,
{
    if k == 0 {
        c
    } else {
        next_cursor(cursor_after(c, f, n, (k - 1) as nat), f, n)
    }
}

/// The position of slot `x` in the cyclic order of the slots other than
/// `f`: the cursor's walk, seen through this map, advances by exactly one
/// modulo `n - 1` per press.
pub open spec fn slot_rank(x: int, f: int) -> int {
    if x < f {
        x
    } else {
        x - 1
    }
}

/// One press of a zero-gap run on a confirmed-run state: the run grows by
/// one, the accumulator stays cleared, the active slot stays put, and the
/// cursor moves to [`next_cursor`].
pub proof fn lemma_burst_press_step(s: StateModel)
    requires
        s.wf(),
        s.layouts.len() >= 2,
        s.counter >= 2,
        0 <= s.cur_all < s.layouts.len(),
        s.cur_all != s.cur_freq,
    ensures
        burst_press(s).wf(),
        burst_press(s).counter == s.counter + 1,
        burst_press(s).sum_time == 0,
        burst_press(s).last_time == s.last_time,
        burst_press(s).cur_freq == s.cur_freq,
        burst_press(s).devices == s.devices,
        burst_press(s).max_duration == s.max_duration,
        burst_press(s).layouts.len() == s.layouts.len(),
        burst_press(s).cur_all == next_cursor(
            s.cur_all,
            s.cur_freq,
            s.layouts.len() as int,
        ),
        0 <= burst_press(s).cur_all < s.layouts.len(),
        burst_press(s).cur_all != s.cur_freq,
{
    let n = s.layouts.len() as int;
    let mid = classify_step(s, s.last_time);
    assert(mid.counter == s.counter + 1);
    assert(mid.sum_time == 0);
    let cursor = next_cursor(s.cur_all, s.cur_freq, n);
    lemma_mod_bound(s.cur_all + 1, n);
    assert(0 <= cursor < n && cursor != s.cur_freq);
    assert(burst_press(s).cur_all == cursor);
    lemma_swap_preserves_permutation(s.layouts, cursor, s.cur_freq);
}

/// Where the cursor's rank moves in one press: forward by one, modulo the
/// number of slots other than the active one.
proof fn lemma_next_cursor_rank(c: int, f: int, n: int)
    requires
        n >= 3,
        0 <= f < n,
        0 <= c < n,
        c != f,
    ensures
        0 <= next_cursor(c, f, n) < n,
        next_cursor(c, f, n) != f,
        slot_rank(next_cursor(c, f, n), f) == (slot_rank(c, f) + 1) % (n - 1),
{
    let m = n - 1;
    let w = (c + 1) % n;
    if c + 1 < n {
        lemma_small_mod((c + 1) as nat, n as nat);
        assert(w == c + 1);
    } else {
        lemma_mod_self_0(n);
        assert(w == 0);
    }
    let r = slot_rank(c, f);
    if r + 1 < m {
        lemma_small_mod((r + 1) as nat, m as nat);
    } else {
        lemma_mod_self_0(m);
    }
}

/// The cursor's rank after `k` presses: forward by `k`, modulo the number
/// of slots other than the active one.
proof fn lemma_cursor_after_rank(c: int, f: int, n: int, k: nat)
    requires
        n >= 3,
        0 <= f < n,
        0 <= c < n,
        c != f,
    ensures
        0 <= cursor_after(c, f, n, k) < n,
        cursor_after(c, f, n, k) != f,
        slot_rank(cursor_after(c, f, n, k), f) == (slot_rank(c, f) + k) % (n - 1),
    decreases k,
{
    let m = n - 1;
    if k == 0 {
        lemma_small_mod(slot_rank(c, f) as nat, m as nat);
    } else {
        lemma_cursor_after_rank(c, f, n, (k - 1) as nat);
        let prev = cursor_after(c, f, n, (k - 1) as nat);
        lemma_next_cursor_rank(prev, f, n);
        lemma_add_mod_noop_right(1, slot_rank(c, f) + k - 1, m);
    }
}

/// What `k` presses of a sustained zero-gap run do, starting from any
/// well-formed confirmed-run state: the run length grows by exactly `k`
/// (without bound), the accumulator stays cleared, the active slot and
/// the timing stay put, and the cursor walks as [`cursor_after`] says.
pub proof fn lemma_burst_run_fields(s: StateModel, k: nat)
    requires
        s.wf(),
        s.layouts.len() >= 2,
        s.counter >= 2,
        0 <= s.cur_all < s.layouts.len(),
        s.cur_all != s.cur_freq,
    ensures
        burst_run(s, k).wf(),
        burst_run(s, k).counter == s.counter + k,
        burst_run(s, k).sum_time == 0,
        burst_run(s, k).last_time == s.last_time,
        burst_run(s, k).cur_freq == s.cur_freq,
        burst_run(s, k).devices == s.devices,
        burst_run(s, k).max_duration == s.max_duration,
        burst_run(s, k).layouts.len() == s.layouts.len(),
        0 <= burst_run(s, k).cur_all < s.layouts.len(),
        burst_run(s, k).cur_all != s.cur_freq,
        burst_run(s, k).cur_all == cursor_after(
            s.cur_all,
            s.cur_freq,
            s.layouts.len() as int,
            k,
        ),
    decreases k,
{
    if k > 0 {
        lemma_burst_run_fields(s, (k - 1) as nat);
        lemma_burst_press_step(burst_run(s, (k - 1) as nat));
    }
}

/// Within one sweep of a sustained zero-gap run on three or more layouts,
/// no two presses find the cursor on the same slot: the cursors of the
/// first `n - 1` presses are pairwise distinct.
pub proof fn lemma_burst_cursors_distinct(s: StateModel, j: nat, k: nat)
    requires
        s.wf(),
        s.layouts.len() >= 3,
        s.counter >= 2,
        0 <= s.cur_all < s.layouts.len(),
        s.cur_all != s.cur_freq,
        1 <= j < k <= s.layouts.len() - 1,
    ensures
        burst_run(s, j).cur_all != burst_run(s, k).cur_all,
{
    let n = s.layouts.len() as int;
    let m = n - 1;
    let c = s.cur_all;
    let f = s.cur_freq;
    let r0 = slot_rank(c, f);
    lemma_burst_run_fields(s, j);
    lemma_burst_run_fields(s, k);
    lemma_cursor_after_rank(c, f, n, j);
    lemma_cursor_after_rank(c, f, n, k);
    if burst_run(s, j).cur_all == burst_run(s, k).cur_all {
        assert((r0 + j) % m == (r0 + k) % m);
        lemma_mod_equivalence(r0 + k, r0 + j, m);
        assert((k - j) % m == 0);
        lemma_small_mod((k - j) as nat, m as nat);
        assert(false);
    }
}

/// A sustained zero-gap run on three or more layouts reaches every slot
/// other than the active one within its first `n - 1` presses.
pub proof fn lemma_burst_reaches_slot(s: StateModel, v: int)
    requires
        s.wf(),
        s.layouts.len() >= 3,
        s.counter >= 2,
        0 <= s.cur_all < s.layouts.len(),
        s.cur_all != s.cur_freq,
        0 <= v < s.layouts.len(),
        v != s.cur_freq,
    ensures
        exists|k: nat| 1 <= k <= s.layouts.len() - 1 && burst_run(s, k).cur_all == v,
{
    let n = s.layouts.len() as int;
    let m = n - 1;
    let c = s.cur_all;
    let f = s.cur_freq;
    let r0 = slot_rank(c, f);
    let r = slot_rank(v, f);
    assert(0 <= r0 < m);
    assert(0 <= r < m);
    lemma_mod_bound(r - r0, m);
    let k0 = (r - r0) % m;
    let k: nat = if k0 == 0 {
        m as nat
    } else {
        k0 as nat
    };
    lemma_burst_run_fields(s, k);
    lemma_cursor_after_rank(c, f, n, k);
    if k0 == 0 {
        lemma_mod_equivalence(r, r0, m);
        lemma_small_mod(r as nat, m as nat);
        lemma_small_mod(r0 as nat, m as nat);
        assert(r == r0);
        lemma_mod_self_0(m);
        lemma_add_mod_noop_right(r0, m, m);
        assert((r0 + m) % m == r0);
    } else {
        lemma_add_mod_noop_right(r0, r - r0, m);
        lemma_small_mod(r as nat, m as nat);
    }
    assert(slot_rank(burst_run(s, k).cur_all, f) == r);
    assert(burst_run(s, k).cur_all == v);
    assert(1 <= k <= s.layouts.len() - 1 && burst_run(s, k).cur_all == v);
}

/// After a full sweep of `n - 1` zero-gap presses the cursor is back on
/// the slot it started from: only then does the walk repeat a slot.
pub proof fn lemma_burst_full_sweep_returns(s: StateModel)
    requires
        s.wf(),
        s.layouts.len() >= 3,
        s.counter >= 2,
        0 <= s.cur_all < s.layouts.len(),
        s.cur_all != s.cur_freq,
    ensures
        burst_run(s, (s.layouts.len() - 1) as nat).cur_all == s.cur_all,
{
    let n = s.layouts.len() as int;
    let m = n - 1;
    let c = s.cur_all;
    let f = s.cur_freq;
    let r0 = slot_rank(c, f);
    lemma_burst_run_fields(s, m as nat);
    lemma_cursor_after_rank(c, f, n, m as nat);
    lemma_mod_self_0(m);
    lemma_add_mod_noop_right(r0, m, m);
    lemma_small_mod(r0 as nat, m as nat);
    assert(slot_rank(burst_run(s, m as nat).cur_all, f) == r0);
    assert(burst_run(s, m as nat).cur_all == c);
}

} // verus!
