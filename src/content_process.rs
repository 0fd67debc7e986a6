//! Turning a raw HTML page into a queryable document.

use scraper::error::SelectorErrorKind;
use scraper::{ElementRef, Html, Selector};
use vstd::prelude::*;

verus! {

#[verifier::external_type_specification]
#[verifier::external_body]
pub struct ExHtml(Html);

#[verifier::external_type_specification]
#[verifier::external_body]
pub struct ExElementRef<'a>(ElementRef<'a>);

#[verifier::external_type_specification]
#[verifier::external_body]
pub struct ExSelectorErrorKind<'a>(SelectorErrorKind<'a>);

/// Whether a text is a well-formed CSS selector group.
pub uninterp spec fn is_valid_selector(s: Seq<char>) -> bool;

/// The elements that a selector picks out of the tree parsed from a page, in
/// the order the tree walk yields them: for each, its first text fragment, if
/// it has one.
pub uninterp spec fn selected(html: Seq<char>, selector: Seq<char>) -> Seq<Option<Seq<char>>>;

/// Relies on scraper::Html::parse_document, which builds a tree from any text
/// (malformed markup is repaired, never refused).
#[verifier::external_body]
fn parse_document(html: &str) -> Html {
    Html::parse_document(html)
}

/// Relies on scraper::Selector::parse, whose success depends on the selector
/// text alone, and on scraper::Html::select, whose matches depend on the tree
/// and the selector alone. The tree is the one `from_html` parsed from the
/// document's text.
#[verifier::external_body]
fn select_in<'a>(doc: &'a Deserializer, selector: &'a str) -> (r: Result<Vec<ElementRef<'a>>, SelectorErrorKind<'a>>)
    ensures
        r is Ok <==> is_valid_selector(selector@),
        r is Ok ==> r->Ok_0@.len() == selected(doc@, selector@).len(),
{
    match Selector::parse(selector) {
        Ok(parsed) => Ok(doc.dom.select(&parsed).collect()),
        Err(e) => Err(e),
    }
}

/// Relies on scraper::Selector::parse, scraper::Html::select and
/// scraper::ElementRef::text: the first text fragment of the first element the
/// selector matches in the document's tree.
#[verifier::external_body]
pub(crate) fn first_match_text(doc: &Deserializer, selector: &str) -> (r: Option<String>)
    ensures
        opt_text(r) == first_selected(doc@, selector@),
{
    match Selector::parse(selector) {
        Ok(parsed) => match doc.dom.select(&parsed).next() {
            Some(element) => element.text().next().map(String::from),
            None => None,
        },
        Err(_) => None,
    }
}

/// An optional text seen as characters.
pub open spec fn opt_text(t: Option<String>) -> Option<Seq<char>> {
    match t {
        Some(s) => Some(s@),
        None => None,
    }
}

/// The first text fragment of the first element a selector matches in a
/// page; `None` when the selector is malformed, matches nothing, or its first
/// match holds no text.
pub open spec fn first_selected(html: Seq<char>, selector: Seq<char>) -> Option<Seq<char>> {
    if is_valid_selector(selector) && selected(html, selector).len() > 0 {
        selected(html, selector)[0]
    } else {
        None
    }
}

/// What a search on a page comes to: the number of matches, or `None` for a
/// malformed selector.
pub open spec fn search_outcome(html: Seq<char>, selector: Seq<char>) -> Option<nat> {
    if is_valid_selector(selector) {
        Some(selected(html, selector).len())
    } else {
        None
    }
}

/// Why a query on a document failed.
#[derive(Clone, Copy, Debug, PartialEq, Eq, Structural)]
pub enum SearchError {
    /// The selector text is not a well-formed CSS selector.
    InvalidSelector,
}

/// A parsed HTML page that keeps the text it was built from.
pub struct Deserializer {
    /// The text the page was built from, kept verbatim.
    page_html: String,
    /// The parsed tree.
    dom: Html,
}

impl View for Deserializer {
    type V = Seq<char>;

    /// A document is seen as the text it was built from.
    closed spec fn view(&self) -> Seq<char> {
        self.page_html@
    }
}

impl Deserializer {
    /// Constructs the document from an HTML page; malformed markup is accepted.
    pub fn from_html(html: String) -> (r: Self)
        ensures
            r@ == html@,
    {
        let parsed = parse_document(html.as_str());
        Deserializer { page_html: html, dom: parsed }
    }

    /// The text the document was built from, unchanged.
    pub fn get_raw_html(&self) -> (r: String)
        ensures
            r@ == self@,
    {
        self.page_html.clone()
    }

    /// All elements matching a CSS selector, in the order the tree walk
    /// yields them; empty when nothing matches.
    pub fn search<'a>(&'a self, selector: &'a str) -> (r: Result<Vec<ElementRef<'a>>, SearchError>)
        ensures
            r is Ok <==> is_valid_selector(selector@),
            r is Ok ==> r->Ok_0@.len() == selected(self@, selector@).len(),
            r is Err ==> r->Err_0 == SearchError::InvalidSelector,
            search_outcome(self@, selector@) == match r {
                Ok(found) => Some(found@.len()),
                Err(_) => None::<nat>,
            },
    {
        match select_in(self, selector) {
            Ok(found) => Ok(found),
            Err(_) => Err(SearchError::InvalidSelector),
        }
    }
}

/// A document hands back exactly the text it was built from, however
/// malformed; and two documents built from one text, or two searches on one
/// document, agree on every selector: both fail, or both find as many
/// elements, with the same first texts.
pub proof fn law_document_of_page(html: Seq<char>, d1: Deserializer, d2: Deserializer, selector: Seq<char>)
    requires
        d1@ == html,
        d2@ == html,
    ensures
        d1@ == html,
        search_outcome(d1@, selector) == search_outcome(d2@, selector),
        selected(d1@, selector) == selected(d2@, selector),
        first_selected(d1@, selector) == first_selected(d2@, selector),
{
}

} // verus!
