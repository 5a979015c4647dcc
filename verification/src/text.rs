//! Line-terminator handling: an emitted item is the line's text with its
//! trailing newline removed; no other transformation.

use vstd::prelude::*;
use vstd::string::StrSliceExecFns;

verus! {

/// The line's characters with every trailing newline removed.
pub open spec fn strip_newlines_spec(s: Seq<char>) -> Seq<char>
    decreases s.len(),
{
    if s.len() > 0 && s.last() == '\n' {
        strip_newlines_spec(s.drop_last())
    } else {
        s
    }
}

/// If everything from index `keep` on is a newline and the character just
/// before `keep` (if any) is not, then stripping trailing newlines keeps
/// exactly the first `keep` characters.
proof fn lemma_strip_is_take(s: Seq<char>, keep: int)
    requires
        0 <= keep <= s.len(),
        forall|j: int| keep <= j < s.len() ==> s[j] == '\n',
        keep > 0 ==> s[keep - 1] != '\n',
    ensures
        strip_newlines_spec(s) == s.take(keep),
    decreases s.len(),
{
    if keep == s.len() {
        assert(s.take(keep) =~= s);
    } else {
        let t = s.drop_last();
        lemma_strip_is_take(t, keep);
        assert(s.take(keep) =~= t.take(keep));
    }
}

/// The line's text with its trailing newline(s) removed.
pub fn strip_trailing_newlines(s: &str) -> (r: String)
    ensures
        r@ == strip_newlines_spec(s@),
{
    let n = s.unicode_len();
    let mut keep = n;
    while keep > 0 && s.get_char(keep - 1) == '\n'
        invariant
            keep <= n,
            n == s@.len(),
            forall|j: int| keep <= j < n ==> s@[j] == '\n',
        decreases keep,
    {
        keep = keep - 1;
    }
    proof {
        lemma_strip_is_take(s@, keep as int);
    }
    s.substring_char(0, keep).to_owned()
}

} // verus!
