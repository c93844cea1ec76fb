//! The address of the search page of a word.

use vstd::prelude::*;
use vstd::string::StringExecFns;

verus! {

/// The address of a search page up to the word searched for.
pub const SEARCH_PREFIX: &'static str =
    "https://www.oxfordlearnersdictionaries.com/search/english/?q=";

/// The address of the search page of `word`: the word is appended as it is.
pub fn search_link(word: &str) -> (link: String)
    ensures
        link@ == SEARCH_PREFIX@ + word@,
{
    let mut link = String::new();
    link.append(SEARCH_PREFIX);
    link.append(word);
    link
}

} // verus!
