//! Rendering of role-name lists with the standard library's `Debug` formatter.

use crate::text::texts;
use vstd::prelude::*;

verus! {

/// The one-line `Debug` rendering (`{:?}`) of a list of strings.
pub uninterp spec fn debug_text(items: Seq<Seq<char>>) -> Seq<char>;

/// The multi-line `Debug` rendering (`{:#?}`) of a list of strings.
pub uninterp spec fn pretty_debug_text(items: Seq<Seq<char>>) -> Seq<char>;

/// Formats `items` with `{:?}`.
///
/// Trusted: the text produced by `std`'s formatter is taken to be a function
/// of the strings alone, named [`debug_text`].
#[verifier::external_body]
pub(crate) fn debug_list(items: &Vec<String>) -> (text: String)
    ensures
        text@ == debug_text(texts(items@)),
{
    format!("{:?}", items)
}

/// Formats `items` with `{:#?}`.
///
/// Trusted: the text produced by `std`'s formatter is taken to be a function
/// of the strings alone, named [`pretty_debug_text`].
#[verifier::external_body]
pub(crate) fn pretty_debug_list(items: &Vec<String>) -> (text: String)
    ensures
        text@ == pretty_debug_text(texts(items@)),
{
    format!("{:#?}", items)
}

} // verus!
