//! Parsing fetched markup and querying it with structural locators.
//!
//! The document tree and the compiled selector are values of the `scraper`
//! crate, carried through opaquely; the locator-to-selector translation is the
//! `xcss` crate's. Each outside call stands behind a trusted declaration whose
//! contract states what the call's source shows, and the extraction logic
//! around the calls is verified against those contracts.
use vstd::prelude::*;

use crate::record::opt_text;

verus! {

#[verifier::external_type_specification]
#[verifier::external_body]
pub struct ExHtml(scraper::Html);

#[verifier::external_type_specification]
#[verifier::external_body]
pub struct ExSelector(scraper::Selector);

/// The text a parsed document was built from. Parsing is deterministic, so
/// this models a `scraper::Html` value, which Verus otherwise cannot see into.
pub uninterp spec fn doc_source(doc: scraper::Html) -> Seq<char>;

/// The selector text a compiled selector was parsed from. Parsing is
/// deterministic, so this models a `scraper::Selector` value.
pub uninterp spec fn selector_source(sel: scraper::Selector) -> Seq<char>;

/// What the locator-to-selector translation returns for a locator text: the
/// translation rewrites path steps textually and depends on its argument alone.
pub uninterp spec fn css_of(xpath: Seq<char>) -> Seq<char>;

/// Whether a selector text is a well-formed selector group, as selector
/// parsing decides it; deterministic in the text alone.
pub uninterp spec fn css_ok(css: Seq<char>) -> bool;

/// The concatenated text content of the first node of the document matching
/// the selector, in the parser's node order, or nothing when no node matches;
/// deterministic in the document and the selector alone.
pub uninterp spec fn selected_text(markup: Seq<char>, css: Seq<char>) -> Option<Seq<char>>;

/// Relies on scraper's Html::parse_document: it parses deterministically and
/// never fails; input it cannot parse yields a degenerate tree.
#[verifier::external_body]
fn parse_markup(text: &str) -> (doc: scraper::Html)
    ensures
        doc_source(doc) == text@,
{
    scraper::Html::parse_document(text)
}

/// Relies on xcss's xcss: a pure textual rewrite of a locator path into a
/// selector group, deterministic in the locator text alone.
#[verifier::external_body]
fn xpath_to_css(xpath: &str) -> (css: String)
    ensures
        css@ == css_of(xpath@),
{
    xcss::xcss::xcss(xpath)
}

/// Relies on scraper's Selector::parse: deterministic in the selector text;
/// it returns its error exactly when the text is not a valid selector group.
#[verifier::external_body]
fn parse_selector(css: &str) -> (r: Option<scraper::Selector>)
    ensures
        r is Some <==> css_ok(css@),
        r matches Some(sel) ==> selector_source(sel) == css@,
{
    match scraper::Selector::parse(css) {
        Ok(sel) => Some(sel),
        Err(_) => None,
    }
}

/// Relies on scraper's Html::select and ElementRef::text: the matching nodes
/// come in node-creation order (document order for well-nested markup), and a
/// node's text pieces concatenate to its text content; both walks are
/// deterministic in the document and selector alone.
#[verifier::external_body]
fn first_match_text(doc: &scraper::Html, sel: &scraper::Selector) -> (r: Option<String>)
    ensures
        opt_text(r) == selected_text(doc_source(*doc), selector_source(*sel)),
{
    doc.select(sel).next().map(|node| node.text().collect::<Vec<_>>().join(""))
}

/// Parses fetched markup into a queryable document tree. Parsing never fails:
/// text that yields no tree yields a degenerate one, which simply matches no
/// locator.
pub fn parse_document(text: &str) -> (doc: scraper::Html)
    ensures
        doc_source(doc) == text@,
{
    parse_markup(text)
}

/// The outcome of querying one locator against a document.
pub enum ExtractOutcome {
    /// The first matching node's text content.
    Found(String),
    /// The locator was translated and parsed, but matched no node.
    NoMatch,
    /// The locator did not translate into a well-formed selector.
    BadLocator,
}

/// The text an extraction outcome carries, if any.
pub open spec fn outcome_text(o: ExtractOutcome) -> Option<Seq<char>> {
    match o {
        ExtractOutcome::Found(t) => Option::Some(t@),
        ExtractOutcome::NoMatch => Option::None,
        ExtractOutcome::BadLocator => Option::None,
    }
}

/// What extracting one locator from a document yields: the first matching
/// node's text under the translated locator, or nothing when the translation
/// is not a well-formed selector or no node matches.
pub open spec fn extract_spec(markup: Seq<char>, xpath: Seq<char>) -> Option<Seq<char>> {
    if css_ok(css_of(xpath)) {
        selected_text(markup, css_of(xpath))
    } else {
        Option::None
    }
}

impl ExtractOutcome {
    /// Returns the extracted text, dropping the distinction between a missing
    /// node and a malformed locator: both degrade to an absent field.
    pub fn into_text(self) -> (r: Option<String>)
        ensures
            opt_text(r) == outcome_text(self),
    {
        match self {
            ExtractOutcome::Found(t) => Some(t),
            ExtractOutcome::NoMatch => None,
            ExtractOutcome::BadLocator => None,
        }
    }
}

/// Translates the locator into a structural selector, queries the document,
/// and returns the first matching node's text content in document order. A
/// locator that does not translate is reported as such rather than silently
/// matching nothing for the same reason as a missing node.
pub fn extract_field(doc: &scraper::Html, xpath: &str) -> (r: ExtractOutcome)
    ensures
        outcome_text(r) == extract_spec(doc_source(*doc), xpath@),
        r is BadLocator <==> !css_ok(css_of(xpath@)),
{
    let css = xpath_to_css(xpath);
    match parse_selector(css.as_str()) {
        None => ExtractOutcome::BadLocator,
        Some(sel) => match first_match_text(doc, &sel) {
            Some(t) => ExtractOutcome::Found(t),
            None => ExtractOutcome::NoMatch,
        },
    }
}

} // verus!
