//! HTML documents.
//!
//! Pages are parsed by `scraper`, and their elements are found with CSS
//! selectors.  A parsed document and the handles of its elements are opaque
//! to the verifier; what the crate's calls return is given a name here, and
//! the extraction of a listing is verified over those names.

use vstd::prelude::*;

verus! {

/// `scraper::Html`, a parsed page.  Nothing is known of a page but what the
/// functions below say of it.
#[verifier::external_type_specification]
#[verifier::external_body]
pub struct ExHtml(scraper::Html);

/// `scraper::ElementRef`, the handle of one element of a parsed page.
/// Nothing is known of an element but what the functions below say of it.
#[verifier::external_type_specification]
#[verifier::external_body]
pub struct ExElementRef<'a>(scraper::ElementRef<'a>);

/// The document that `scraper::Html::parse_document` builds from a text.
pub uninterp spec fn html_document(text: Seq<char>) -> scraper::Html;

/// The elements of a document that match a CSS selector, in the order in
/// which `scraper::Html::select` yields them; none where the text is no
/// selector.
pub uninterp spec fn document_matches(document: scraper::Html, css: Seq<char>) -> Seq<
    scraper::ElementRef<'static>,
>;

/// The descendants of an element that match a CSS selector, in the order in
/// which `scraper::ElementRef::select` yields them; none where the text is
/// no selector.
pub uninterp spec fn element_matches(element: scraper::ElementRef<'static>, css: Seq<char>)
    -> Seq<scraper::ElementRef<'static>>;

/// The value of an attribute of an element, as `scraper::ElementRef::attr`
/// returns it; `None` where the element has no such attribute.
pub uninterp spec fn element_attribute(element: scraper::ElementRef<'static>, name: Seq<char>)
    -> Option<Seq<char>>;

/// The markup inside an element, as `scraper::ElementRef::inner_html`
/// writes it.
pub uninterp spec fn element_inner_html(element: scraper::ElementRef<'static>) -> Seq<char>;

/// Parses a page with `scraper::Html::parse_document`.  The result is the
/// document named [`html_document`].
#[verifier::external_body]
pub(crate) fn parse_html(body: &str) -> (document: scraper::Html)
    ensures
        document == html_document(body@),
{
    scraper::Html::parse_document(body)
}

/// Parses a selector with `scraper::Selector::parse` and collects what
/// `Html::select` yields for it.  The result is the sequence named
/// [`document_matches`].
#[verifier::external_body]
pub(crate) fn select_in_document<'a>(document: &'a scraper::Html, css: &str) -> (found: Vec<
    scraper::ElementRef<'a>,
>)
    ensures
        found@ == document_matches(*document, css@),
{
    match scraper::Selector::parse(css) {
        Ok(selector) => document.select(&selector).collect(),
        Err(_) => Vec::new(),
    }
}

/// Parses a selector with `scraper::Selector::parse` and collects what
/// `ElementRef::select` yields for it.  The result is the sequence named
/// [`element_matches`].
#[verifier::external_body]
pub(crate) fn select_in_element<'a>(element: &scraper::ElementRef<'a>, css: &str) -> (found: Vec<
    scraper::ElementRef<'a>,
>)
    ensures
        found@ == element_matches(*element, css@),
{
    match scraper::Selector::parse(css) {
        Ok(selector) => element.select(&selector).collect(),
        Err(_) => Vec::new(),
    }
}

/// Reads an attribute with `scraper::ElementRef::attr`.  The result is the
/// value named [`element_attribute`].
#[verifier::external_body]
pub(crate) fn attribute_of(element: &scraper::ElementRef<'_>, name: &str) -> (value: Option<String>)
    ensures
        value.deep_view() == element_attribute(*element, name@),
{
    element.attr(name).map(|value| value.to_owned())
}

/// Writes the markup inside an element with
/// `scraper::ElementRef::inner_html`.  The result is the text named
/// [`element_inner_html`].
#[verifier::external_body]
pub(crate) fn inner_html_of(element: &scraper::ElementRef<'_>) -> (html: String)
    ensures
        html@ == element_inner_html(*element),
{
    element.inner_html()
}

} // verus!
