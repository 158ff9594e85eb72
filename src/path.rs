use vstd::prelude::*;

verus! {

/// The text of `b` adjoined to the directory `a`, as the standard library's
/// path joining renders it.
pub uninterp spec fn joined(a: Seq<char>, b: Seq<char>) -> Seq<char>;

/// Relies on `std::path::Path::join`, rendered back to text with `display`:
/// the result depends on the two texts alone.
#[verifier::external_body]
fn join_paths(a: &str, b: &str) -> (r: String)
    ensures
        r@ == joined(a@, b@),
{
    std::path::Path::new(a).join(b).display().to_string()
}

/// The path `b` placed under the directory `a`.
pub fn string_path(a: &str, b: &str) -> (r: String)
    ensures
        r@ == joined(a@, b@),
{
    join_paths(a, b)
}

} // verus!
