use vstd::prelude::*;

verus! {

/// True exactly when the two string slices hold the same characters.
pub fn str_eq(a: &str, b: &str) -> (r: bool)
    ensures
        r == (a@ == b@),
{
    let owned_a = a.to_owned();
    let owned_b = b.to_owned();
    owned_a == owned_b
}

/// The prompt loop goes on for every answer except a bare "n" or "N".
pub open spec fn continue_answer(ans: Seq<char>) -> bool {
    ans != "n"@ && ans != "N"@
}

/// Decides whether the user asked for another lookup.
pub fn wants_another(ans: &str) -> (r: bool)
    ensures
        r == continue_answer(ans@),
{
    !(str_eq(ans, "n") || str_eq(ans, "N"))
}

} // verus!
