use vstd::prelude::*;

verus! {

/// A name can cross into the host only if it holds no terminator character.
pub open spec fn terminator_free(s: Seq<char>) -> bool {
    forall|i: int| 0 <= i < s.len() ==> s[i] != '\0'
}

/// Whether `s` can be handed to the host as a terminated string.
pub fn is_terminator_free(s: &str) -> (r: bool)
    ensures
        r == terminator_free(s@),
{
    let n = s.unicode_len();
    let mut i: usize = 0;
    while i < n
        invariant
            n == s@.len(),
            i <= n,
            forall|j: int| 0 <= j < i ==> s@[j] != '\0',
        decreases n - i,
    {
        if s.get_char(i) == '\0' {
            return false;
        }
        i = i + 1;
    }
    true
}

} // verus!
