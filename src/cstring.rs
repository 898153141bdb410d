//! Text that is handed to the runtime as a null-terminated string must not
//! hold a null character of its own.
use vstd::prelude::*;
use vstd::string::*;

verus! {

/// `s` holds the null character somewhere.
pub open spec fn has_nul(s: Seq<char>) -> bool {
    exists|j: int| 0 <= j < s.len() && s[j] == '\0'
}

/// Some element of `args` holds the null character.
pub open spec fn any_has_nul(args: Seq<&str>) -> bool {
    exists|i: int| 0 <= i < args.len() && has_nul(#[trigger] args[i]@)
}

/// Whether `s` holds the null character.
pub fn contains_nul(s: &str) -> (r: bool)
    ensures
        r == has_nul(s@),
{
    let n = s.unicode_len();
    let mut j: usize = 0;
    while j < n
        invariant
            n == s@.len(),
            j <= n,
            forall|k: int| 0 <= k < j ==> s@[k] != '\0',
        decreases n - j,
    {
        if s.get_char(j) == '\0' {
            return true;
        }
        j = j + 1;
    }
    false
}

/// Whether some element of `args` holds the null character.
pub fn any_contains_nul(args: &Vec<&str>) -> (r: bool)
    ensures
        r == any_has_nul(args@),
{
    let mut i: usize = 0;
    while i < args.len()
        invariant
            i <= args@.len(),
            forall|k: int| 0 <= k < i ==> !has_nul(#[trigger] args@[k]@),
        decreases args@.len() - i,
    {
        if contains_nul(args[i]) {
            return true;
        }
        i = i + 1;
    }
    false
}

} // verus!
