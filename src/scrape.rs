//! Text extraction from an HTML page: the text nodes under the first element
//! that a CSS selector picks out.
use crate::authenticator::FailReason;
use crate::matching::texts;
use vstd::prelude::*;

verus! {

/// Whether `query` is a CSS selector list that scraper accepts.
pub uninterp spec fn selector_accepts(query: Seq<char>) -> bool;

/// For a selector list `query` that scraper accepts: the text nodes, in
/// document order, under the first element of the HTML page `page` that
/// `query` matches, elements taken in the order in which the parser created
/// them; `None` where no element matches.
pub uninterp spec fn first_match_texts(page: Seq<char>, query: Seq<char>) -> Option<
    Seq<Seq<char>>,
>;

/// The texts that an optional list of strings holds.
pub open spec fn option_texts(r: Option<Vec<String>>) -> Option<Seq<Seq<char>>> {
    match r {
        Some(v) => Some(texts(v@)),
        None => None,
    }
}

/// Relies on `scraper::Selector::parse` (whether a selector list parses
/// depends on its text alone), `scraper::Html::parse_document` (which takes
/// any text), `scraper::Html::select` and `scraper::ElementRef::text`: `None`
/// where the selector does not parse, else the text nodes under the first
/// matching element, `None` inside where no element matches.
#[verifier::external_body]
fn select_first_text(page: &str, query: &str) -> (r: Option<Option<Vec<String>>>)
    ensures
        r is Some == selector_accepts(query@),
        r matches Some(t) ==> option_texts(t) == first_match_texts(page@, query@),
{
    scraper::Selector::parse(query).ok().map(
        |s|
            scraper::Html::parse_document(page).select(&s).next().map(
                |e| e.text().map(String::from).collect(),
            ),
    )
}

/// What extracting the text of `query`'s first match from `page` gives:
/// `Selector` where `query` is not a selector list, else `NoMatch` where no
/// element matches, else the text nodes under the first match (an empty
/// list for an element without text).
pub open spec fn scraped(page: Seq<char>, query: Seq<char>) -> Result<Seq<Seq<char>>, FailReason> {
    if !selector_accepts(query) {
        Err(FailReason::Selector)
    } else {
        match first_match_texts(page, query) {
            None => Err(FailReason::NoMatch),
            Some(t) => Ok(t),
        }
    }
}

/// The texts that a result of `scrap_helper` holds.
pub open spec fn result_texts(r: Result<Vec<String>, FailReason>) -> Result<Seq<Seq<char>>, FailReason> {
    match r {
        Ok(v) => Ok(texts(v@)),
        Err(e) => Err(e),
    }
}

/// The text nodes, in document order, under the first element of the page
/// `page` that `query` picks out.
pub fn scrap_helper(page: &str, query: &str) -> (r: Result<Vec<String>, FailReason>)
    ensures
        result_texts(r) == scraped(page@, query@),
{
    match select_first_text(page, query) {
        None => Err(FailReason::Selector),
        Some(None) => Err(FailReason::NoMatch),
        Some(Some(t)) => Ok(t),
    }
}

} // verus!
