//! The HTML engine behind the extraction.
//!
//! Parsing a page and matching its elements is the work of the `scraper`
//! crate. Nothing in this module is proved: each item states what is taken
//! on trust about one function of that crate. A tree, a selector and an
//! element are opaque here. What each function returns depends on its
//! arguments alone, so each result is given a name, and the rest of the
//! library reasons with the names.
//!
//! Nothing is claimed about which elements a selector matches, nor about the
//! order in which matches and text nodes come: the names stand for whatever
//! the engine yields.
//!
//! The engine measures its buffers in 32 bits and may replace one byte of
//! the text by three. A text is therefore handed to it only where its length
//! in bytes is at most [`MAX_DOCUMENT_BYTES`].

use vstd::prelude::*;
use vstd::utf8::encode_utf8;
use crate::text::slice_views;

verus! {

/// The greatest length in bytes of a text that is handed to the parser:
/// 256 MiB. Three times as much still fits a buffer of the parser, which
/// holds less than 4 GiB.
pub const MAX_DOCUMENT_BYTES: usize = 0x1000_0000;

/// `scraper::Html`: a parsed page.
#[verifier::external_type_specification]
#[verifier::external_body]
pub struct ExHtml(scraper::Html);

/// `scraper::Selector`: a compiled CSS selector.
#[verifier::external_type_specification]
#[verifier::external_body]
pub struct ExSelector(scraper::Selector);

/// `scraper::ElementRef`: one element of a parsed page.
#[verifier::external_type_specification]
#[verifier::external_body]
pub struct ExElementRef<'a>(scraper::ElementRef<'a>);

/// `scraper::error::SelectorErrorKind`: why a selector did not compile.
#[verifier::external_type_specification]
#[verifier::external_body]
pub struct ExSelectorErrorKind(scraper::error::SelectorErrorKind);

/// The tree that `scraper::Html::parse_document` builds from a page's text.
pub uninterp spec fn parsed_document(html: Seq<char>) -> scraper::Html;

/// The selector that `scraper::Selector::parse` compiles from a CSS
/// expression, or `None` where it rejects the expression.
pub uninterp spec fn compiled_selector(css: Seq<char>) -> Option<scraper::Selector>;

/// The elements of a tree that `scraper::Html::select` yields for a
/// selector, in the order in which it yields them.
pub uninterp spec fn document_matches(doc: &scraper::Html, selector: scraper::Selector) -> Seq<
    scraper::ElementRef,
>;

/// The elements below an element that `scraper::ElementRef::select` yields
/// for a selector, in the order in which it yields them.
pub uninterp spec fn element_matches(
    element: scraper::ElementRef,
    selector: scraper::Selector,
) -> Seq<scraper::ElementRef>;

/// The text nodes below an element that `scraper::ElementRef::text`
/// yields, in the order in which it yields them.
pub uninterp spec fn element_text(element: scraper::ElementRef) -> Seq<Seq<char>>;

/// `scraper::Html::parse_document` returns a tree for every text of at
/// most `MAX_DOCUMENT_BYTES` bytes, and the tree depends on the text alone.
/// The parser recovers from malformed input. On a longer text a buffer of
/// the parser may overflow, which ends in a panic: such a text is left out.
pub assume_specification[ scraper::Html::parse_document ](document: &str) -> (doc: scraper::Html)
    requires
        encode_utf8(document@).len() <= MAX_DOCUMENT_BYTES,
    ensures
        doc == parsed_document(document@),
;

/// `scraper::Selector::parse` compiles an expression or rejects it. Which
/// of the two, and the selector that comes of it, depends on the
/// expression alone. Nothing is claimed about which expressions compile.
pub assume_specification[ scraper::Selector::parse ](selectors: &str) -> (compiled: Result<
    scraper::Selector,
    scraper::error::SelectorErrorKind,
>)
    ensures
        match compiled {
            Ok(selector) => compiled_selector(selectors@) == Some(selector),
            Err(_) => compiled_selector(selectors@) is None,
        },
;

/// `scraper::Html::select`, its matches collected as its iterator yields
/// them. The matches depend on the tree and the selector alone.
#[verifier::external_body]
pub(crate) fn select_in_document<'a>(
    doc: &'a scraper::Html,
    selector: &scraper::Selector,
) -> (found: Vec<scraper::ElementRef<'a>>)
    ensures
        found@ == document_matches(doc, *selector),
{
    doc.select(selector).collect()
}

/// `scraper::ElementRef::select`, its matches collected as its iterator
/// yields them. The matches depend on the element and the selector alone.
#[verifier::external_body]
pub(crate) fn select_in_element<'a>(
    element: &scraper::ElementRef<'a>,
    selector: &scraper::Selector,
) -> (found: Vec<scraper::ElementRef<'a>>)
    ensures
        found@ == element_matches(*element, *selector),
{
    element.select(selector).collect()
}

/// `scraper::ElementRef::text`, its text nodes collected as its iterator
/// yields them. The text nodes depend on the element alone.
#[verifier::external_body]
pub(crate) fn text_in_element<'a>(element: &scraper::ElementRef<'a>) -> (parts: Vec<&'a str>)
    ensures
        slice_views(parts@) == element_text(*element),
{
    element.text().collect()
}

} // verus!
