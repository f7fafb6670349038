//! Reading the number of configured layouts out of the compositor's
//! layout option, a comma-separated list of layout names.

use vstd::prelude::*;
use vstd::string::StrSliceExecFns;

verus! {

/// How many commas `s` holds.
pub open spec fn comma_count(s: Seq<char>) -> nat
    decreases s.len(),
{
    if s.len() == 0 {
        0
    } else {
        comma_count(s.drop_last()) + if s.last() == ',' {
            1nat
        } else {
            0nat
        }
    }
}

/// How many fields a split of `s` on commas yields: one more than the
/// number of commas (empty fields count, as the compositor's own parsing
/// does).
pub open spec fn field_count(s: Seq<char>) -> nat {
    comma_count(s) + 1
}

/// Counts the layouts named in the compositor's comma-separated layout
/// option.
pub fn layout_count(kb_layout: &str) -> (n: usize)
    requires
        kb_layout@.len() < usize::MAX,
    ensures
        n == field_count(kb_layout@),
{
    let len = kb_layout.unicode_len();
    let mut commas: usize = 0;
    let mut i: usize = 0;
    while i < len
        invariant
            i <= len,
            len == kb_layout@.len(),
            commas == comma_count(kb_layout@.take(i as int)),
            commas <= i,
        decreases len - i,
    {
        if kb_layout.get_char(i) == ',' {
            commas = commas + 1;
        }
        i = i + 1;
        proof {
            assert(kb_layout@.take(i as int).drop_last() =~= kb_layout@.take(i - 1));
            assert(kb_layout@.take(i as int).last() == kb_layout@[i - 1]);
        }
    }
    proof {
        assert(kb_layout@.take(len as int) =~= kb_layout@);
    }
    commas + 1
}

} // verus!
