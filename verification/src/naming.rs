//! Identifier casing, delegated to the `inflector` crate.

use vstd::prelude::*;

verus! {

/// The snake-case form that `inflector` gives a piece of text.
pub uninterp spec fn snake_case_of(s: Seq<char>) -> Seq<char>;

/// The Pascal-case form that `inflector` gives a piece of text.
pub uninterp spec fn pascal_case_of(s: Seq<char>) -> Seq<char>;

/// `inflector::cases::snakecase::to_snake_case`: the result is a function of
/// the characters handed in, and nothing more is claimed of it.
#[verifier::external_body]
pub(crate) fn snake_case(s: &str) -> (r: String)
    ensures
        r@ == snake_case_of(s@),
{
    inflector::cases::snakecase::to_snake_case(s)
}

/// `inflector::cases::pascalcase::to_pascal_case`: the result is a function
/// of the characters handed in, and nothing more is claimed of it.
#[verifier::external_body]
pub(crate) fn pascal_case(s: &str) -> (r: String)
    ensures
        r@ == pascal_case_of(s@),
{
    inflector::cases::pascalcase::to_pascal_case(s)
}

} // verus!
