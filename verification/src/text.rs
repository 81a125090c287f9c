//! Small string helpers shared by the annotation parser and the field
//! binding generator.

use vstd::prelude::*;
use vstd::string::StrSliceExecFns;

verus! {

/// True when `n` begins with the marker that names a phantom field, a field
/// that exists only to satisfy generic-parameter variance and carries no
/// runtime data.
pub open spec fn is_phantom_name(n: Seq<char>) -> bool {
    n.len() >= "_phantom"@.len() && n.subrange(0, "_phantom"@.len() as int) == "_phantom"@
}

/// Exact equality of a `String` against a literal keyword.
pub fn str_is(s: &String, lit: &str) -> (r: bool)
    ensures
        r == (s@ == lit@),
{
    let l: String = <String as vstd::string::StringExecFns>::from_str(lit);
    *s == l
}

/// Whether the pattern's characters are a prefix of the string.
pub fn str_starts_with(s: &String, prefix: &str) -> (r: bool)
    ensures
        r == (s@.len() >= prefix@.len() && s@.subrange(0, prefix@.len() as int) == prefix@),
{
    let sl: usize = s.as_str().unicode_len();
    let pl: usize = prefix.unicode_len();
    if sl < pl {
        return false;
    }
    let mut i: usize = 0;
    while i < pl
        invariant
            0 <= i <= pl,
            pl == prefix@.len(),
            sl == s@.len(),
            sl >= pl,
            forall|j: int| 0 <= j < i ==> s@[j] == prefix@[j],
        decreases pl - i,
    {
        let c1 = s.as_str().get_char(i);
        let c2 = prefix.get_char(i);
        if c1 != c2 {
            assert(s@.subrange(0, pl as int)[i as int] != prefix@[i as int]);
            return false;
        }
        i = i + 1;
    }
    assert(s@.subrange(0, pl as int) =~= prefix@);
    true
}

} // verus!
