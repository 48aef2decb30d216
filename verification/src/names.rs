//! Name resolution helpers: snake-case conversion for default accessor names
//! and plain string comparison.

use vstd::prelude::*;

verus! {

/// The snake-case form of an identifier, as the conversion crate computes it.
/// The result depends on the input characters alone.
pub uninterp spec fn snake_of(s: Seq<char>) -> Seq<char>;

/// Relies on heck's `to_snake_case`: a pure function of the input characters,
/// folding capitalized and acronym boundaries into underscore-separated
/// lower-case words.
#[verifier::external_body]
pub fn snakify(input: &str) -> (r: String)
    ensures
        r@ == snake_of(input@),
{
    heck::ToSnakeCase::to_snake_case(input)
}

/// String comparison by characters, built on vstd's `String` specifications.
pub fn str_eq(a: &str, b: &str) -> (r: bool)
    ensures
        r == (a@ == b@),
{
    let sa = a.to_owned();
    let sb = b.to_owned();
    sa == sb
}

} // verus!
