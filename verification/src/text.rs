//! Text comparison on string slices, and the order of texts.
use vstd::prelude::*;

verus! {

/// `a` comes strictly before `b` in code-point order (a proper prefix first).
pub open spec fn text_precedes(a: Seq<char>, b: Seq<char>) -> bool
    decreases a.len(),
{
    if a.len() == 0 {
        b.len() > 0
    } else if b.len() == 0 {
        false
    } else if a[0] != b[0] {
        (a[0] as int) < (b[0] as int)
    } else {
        text_precedes(a.drop_first(), b.drop_first())
    }
}

/// Whether two pieces of text are equal, character for character.
pub fn same_text(a: &str, b: &str) -> (r: bool)
    ensures
        r == (a@ == b@),
{
    let x = a.to_owned();
    let y = b.to_owned();
    x == y
}

} // verus!
