//! Cleaning of a post's text: short links are taken out, then whitespace is
//! normalised.

use crate::text::{
    lemma_normalized_idempotent, normalize_whitespace, normalized, single_spaced, words,
};
use regex::Regex;
use vstd::prelude::*;

verus! {

/// The short links that the posting service puts into a post's text.
pub const LINK_PATTERN: &'static str = r"https://t\.co/\w+";

/// What `regex::Regex::replace_all` returns, on the regex that
/// `regex::Regex::new` compiles from `pattern`, for `haystack` and
/// `replacement`; `None` where `Regex::new` refuses `pattern`.
pub uninterp spec fn regex_replace_all(
    pattern: Seq<char>,
    haystack: Seq<char>,
    replacement: Seq<char>,
) -> Option<Seq<char>>;

/// Compiles `pattern` with `regex::Regex::new` and replaces every match in
/// `haystack` with `Regex::replace_all`. Nothing is claimed of the result
/// but that it is the one `regex_replace_all` names.
#[verifier::external_body]
fn replace_all(pattern: &str, haystack: &str, replacement: &str) -> (r: Option<String>)
    ensures
        r.deep_view() == regex_replace_all(pattern@, haystack@, replacement@),
{
    match Regex::new(pattern) {
        Ok(re) => Some(re.replace_all(haystack, replacement).into_owned()),
        Err(_) => None,
    }
}

/// `text` with every short link taken out. Where the link pattern cannot
/// be compiled, nothing is taken out.
pub open spec fn without_links(text: Seq<char>) -> Seq<char> {
    match regex_replace_all(LINK_PATTERN@, text, Seq::empty()) {
        Some(rest) => rest,
        None => text,
    }
}

/// `text` holds no short link: taking the links out leaves it as it is.
pub open spec fn link_free(text: Seq<char>) -> bool {
    without_links(text) == text
}

/// The cleaned form of a post's text.
pub open spec fn cleaned(text: Seq<char>) -> Seq<char> {
    normalized(without_links(text))
}

/// Takes every short link out of `text`.
pub fn strip_links(text: &str) -> (r: String)
    ensures
        r@ == without_links(text@),
{
    proof {
        reveal_strlit("");
        assert(""@ =~= Seq::<char>::empty());
    }
    match replace_all(LINK_PATTERN, text, "") {
        Some(rest) => rest,
        None => text.to_string(),
    }
}

/// Cleans a post's text: short links are removed, every run of whitespace
/// becomes one space, and the whitespace at both ends is dropped. What is
/// left are the words that stand in the text once the links are out, one
/// space between each and the next. A text without links is only
/// normalised.
pub fn clean_tweet_text(text: &str) -> (r: String)
    ensures
        r@ == cleaned(text@),
        words(r@) == words(without_links(text@)),
        single_spaced(r@),
        link_free(text@) ==> r@ == normalized(text@),
{
    let without_urls = strip_links(text);
    normalize_whitespace(without_urls.as_str())
}

/// Cleaning a cleaned text again changes nothing, provided that taking
/// the links out has not joined the text around them into a new link.
pub proof fn lemma_clean_idempotent(text: Seq<char>)
    requires
        link_free(cleaned(text)),
    ensures
        cleaned(cleaned(text)) == cleaned(text),
{
    lemma_normalized_idempotent(without_links(text));
}

} // verus!
