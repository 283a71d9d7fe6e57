//! Modules compiled by Wasmtime.

use vstd::prelude::*;
use vstd::string::StrSliceExecFns;

verus! {

/// Whether a name begins with `_trampoline`.
pub open spec fn is_trampoline_name(name: Seq<char>) -> bool {
    name.len() >= 11 && name.subrange(0, 11) == "_trampoline"@
}

/// Whether a function of the module is to be verified. The trampolines are
/// written by hand and are not: their names begin with `_trampoline`.
pub fn is_valid_wasmtime_func_name(name: &String) -> (r: bool)
    ensures
        r == !is_trampoline_name(name@),
{
    let prefix = "_trampoline";
    proof {
        reveal_strlit("_trampoline");
    }
    let s = name.as_str();
    let n: usize = s.unicode_len();
    if n < 11 {
        return true;
    }
    let mut i: usize = 0;
    while i < 11
        invariant
            i <= 11,
            n == s@.len(),
            n >= 11,
            prefix@.len() == 11,
            prefix@ == "_trampoline"@,
            s@ == name@,
            forall|j: int| 0 <= j < i ==> s@[j] == prefix@[j],
        decreases 11 - i,
    {
        if s.get_char(i) != prefix.get_char(i) {
            assert(s@.subrange(0, 11)[i as int] == s@[i as int]);
            return true;
        }
        i = i + 1;
    }
    assert(s@.subrange(0, 11) =~= prefix@);
    false
}

} // verus!
