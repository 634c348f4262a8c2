//! Splitting of a command's argument text, delegated to the argument parser of
//! the chat framework so that the bot splits exactly as the framework does.

use crate::text::texts;
use serenity::framework::standard::{Args, Delimiter};
use vstd::prelude::*;

verus! {

/// Whether no delimiter in the list is the empty string.
pub open spec fn delimiters_usable(delimiters: Seq<Seq<char>>) -> bool {
    forall|i: int| 0 <= i < delimiters.len() ==> (#[trigger] delimiters[i]).len() > 0
}

/// The arguments that the framework's parser finds in `text` when it splits
/// at `delimiters`: what iterating a freshly built `Args` yields, each item
/// read as a plain string (quotes kept, nothing trimmed).
pub uninterp spec fn parsed_arguments(text: Seq<char>, delimiters: Seq<Seq<char>>) -> Seq<
    Seq<char>,
>;

/// The part of `text` that the framework's parser reports as remaining before
/// any argument has been consumed: `Args::rest` on a freshly built `Args`.
pub uninterp spec fn remaining_arguments(text: Seq<char>, delimiters: Seq<Seq<char>>) -> Seq<
    char,
>;

/// Runs `serenity::framework::standard::Args::new` on `text` and collects
/// `Args::iter::<String>`.
///
/// Trusted: the result is taken to be a function of the text and the
/// delimiters alone, named [`parsed_arguments`]. Empty delimiters are excluded
/// because the parser does not terminate on them.
#[verifier::external_body]
pub(crate) fn argument_list(text: &str, delimiters: &Vec<String>) -> (items: Vec<String>)
    requires
        delimiters_usable(texts(delimiters@)),
    ensures
        texts(items@) == parsed_arguments(text@, texts(delimiters@)),
{
    let delimiters: Vec<Delimiter> = delimiters.iter().map(|d| Delimiter::Multiple(d.clone())).collect();
    let mut args = Args::new(text, &delimiters);
    args.iter::<String>().map(|item| item.unwrap_or_default()).collect()
}

/// Runs `serenity::framework::standard::Args::new` on `text` and returns
/// `Args::rest`.
///
/// Trusted: the result is taken to be a function of the text and the
/// delimiters alone, named [`remaining_arguments`]. Empty delimiters are
/// excluded because the parser does not terminate on them.
#[verifier::external_body]
pub(crate) fn argument_rest(text: &str, delimiters: &Vec<String>) -> (rest: String)
    requires
        delimiters_usable(texts(delimiters@)),
    ensures
        rest@ == remaining_arguments(text@, texts(delimiters@)),
{
    let delimiters: Vec<Delimiter> = delimiters.iter().map(|d| Delimiter::Multiple(d.clone())).collect();
    let args = Args::new(text, &delimiters);
    args.rest().to_string()
}

} // verus!
