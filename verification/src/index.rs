//! The index page: the links to issues that it holds, in document order.

use crate::engine::link_texts;
use scraper::{Html, Selector};
use vstd::prelude::*;

verus! {

/// The selector of the anchors that lead to an issue: those whose target
/// ends in the file extension.
pub const LINK_SELECTOR: &'static str = "a[href$=epub]";

/// The attribute that holds an anchor's target.
pub const LINK_ATTRIBUTE: &'static str = "href";

/// What the `scraper` crate hands out for a page: for each element that
/// matches `selector`, in the order in which it yields them, the value of
/// the attribute `attr`, if the element has it. `None` where `selector` is
/// refused.
pub uninterp spec fn selected_attrs(html: Seq<char>, selector: Seq<char>, attr: Seq<char>) -> Option<
    Seq<Option<Seq<char>>>,
>;

/// Calls `scraper::Selector::parse`, `Html::parse_document` and
/// `Html::select`, and reads each element with `ElementRef::attr`. Nothing
/// is proved of it: the contract gives the result its name,
/// `selected_attrs`.
#[verifier::external_body]
pub(crate) fn select_attrs(html: &str, selector: &str, attr: &str) -> (result: Option<
    Vec<Option<String>>,
>)
    ensures
        match result {
            Some(v) => selected_attrs(html@, selector@, attr@) == Some(link_texts(v@)),
            None => selected_attrs(html@, selector@, attr@) is None,
        },
{
    match Selector::parse(selector) {
        Ok(sel) => Some(
            Html::parse_document(html).select(&sel).map(|e| e.attr(attr).map(String::from)).collect(),
        ),
        Err(_) => None,
    }
}

/// The candidate links of an index page: the target of each anchor that
/// `LINK_SELECTOR` selects, in the page's order. `None` only where the
/// selector is refused.
pub fn epub_links(html: &str) -> (result: Option<Vec<Option<String>>>)
    ensures
        match result {
            Some(v) => selected_attrs(html@, LINK_SELECTOR@, LINK_ATTRIBUTE@) == Some(link_texts(v@)),
            None => selected_attrs(html@, LINK_SELECTOR@, LINK_ATTRIBUTE@) is None,
        },
{
    select_attrs(html, LINK_SELECTOR, LINK_ATTRIBUTE)
}

} // verus!
