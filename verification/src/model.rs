//! The mathematical model of selector queries.
//!
//! Parsing and CSS matching are done by an outside HTML engine. What that
//! engine computes is a function of the document text, the fragment flag and
//! the selector text alone, so the results are given names here (uninterpreted
//! spec functions), and every contract of the facade is stated over those
//! names.

use vstd::prelude::*;

use crate::error::ScrapingErrorKind;

verus! {

/// Whether the CSS engine accepts `sel` as syntactically valid CSS selector
/// group syntax. Names the outcome of `scraper::Selector::parse`, which
/// depends on the selector text alone.
pub uninterp spec fn selector_valid(sel: Seq<char>) -> bool;

/// How many elements of the tree parsed from `doc` (as a fragment when
/// `fragment` is true, as a full document otherwise) match `sel`. Names the
/// result of `scraper::Html::select`, which depends on these inputs alone.
pub uninterp spec fn match_count(doc: Seq<char>, fragment: bool, sel: Seq<char>) -> nat;

/// The serialized inner HTML of the `idx`-th element (in document order,
/// counting from zero) of the tree parsed from `doc` that matches `sel`.
/// Names the result of `scraper::ElementRef::inner_html`.
pub uninterp spec fn match_html(doc: Seq<char>, fragment: bool, sel: Seq<char>, idx: int) -> Seq<char>;

/// The value of attribute `attr` on the `idx`-th element (in document order)
/// of the tree parsed from `doc` that matches `sel`, or `None` when the
/// element has no such attribute. Names the result of
/// `scraper::ElementRef::attr`.
pub uninterp spec fn match_attr(
    doc: Seq<char>,
    fragment: bool,
    sel: Seq<char>,
    idx: int,
    attr: Seq<char>,
) -> Option<Seq<char>>;

/// Identifies one query match: which document text the element lives in, how
/// that text was parsed, which selector produced the match, and its position
/// in the match set (document order, counting from zero).
pub ghost struct ElementModel {
    pub doc: Seq<char>,
    pub fragment: bool,
    pub sel: Seq<char>,
    pub idx: int,
}

/// What querying all matches of `sel` returns: every matching element in
/// document order, or `InvalidSelector` when `sel` does not parse. An empty
/// match set is a valid, non-error outcome.
pub open spec fn query_all_spec(doc: Seq<char>, fragment: bool, sel: Seq<char>) -> Result<
    Seq<ElementModel>,
    ScrapingErrorKind,
> {
    if selector_valid(sel) {
        Ok(
            Seq::new(
                match_count(doc, fragment, sel),
                |i: int| (ElementModel { doc: doc, fragment: fragment, sel: sel, idx: i }),
            ),
        )
    } else {
        Err(ScrapingErrorKind::InvalidSelector)
    }
}

/// What querying a single match returns: the first entry of the match set,
/// `NotFound` when the match set is empty, or `InvalidSelector` when `sel`
/// does not parse.
pub open spec fn query_one_spec(doc: Seq<char>, fragment: bool, sel: Seq<char>) -> Result<
    ElementModel,
    ScrapingErrorKind,
> {
    match query_all_spec(doc, fragment, sel) {
        Ok(v) => if v.len() > 0 {
            Ok(v[0])
        } else {
            Err(ScrapingErrorKind::NotFound)
        },
        Err(e) => Err(e),
    }
}

/// The inner HTML of the single-result query: the first match's inner HTML,
/// with the failures of `query_one_spec`.
pub open spec fn text_once_spec(doc: Seq<char>, fragment: bool, sel: Seq<char>) -> Result<
    Seq<char>,
    ScrapingErrorKind,
> {
    match query_one_spec(doc, fragment, sel) {
        Ok(m) => Ok(match_html(doc, fragment, sel, m.idx)),
        Err(e) => Err(e),
    }
}

/// The inner HTML of every match, in document order; empty when nothing
/// matches (not an error), `InvalidSelector` when `sel` does not parse.
pub open spec fn all_text_spec(doc: Seq<char>, fragment: bool, sel: Seq<char>) -> Result<
    Seq<Seq<char>>,
    ScrapingErrorKind,
> {
    match query_all_spec(doc, fragment, sel) {
        Ok(v) => Ok(Seq::new(v.len(), |i: int| match_html(doc, fragment, sel, i))),
        Err(e) => Err(e),
    }
}

/// The value of attribute `attr` on the first match: `NotFound` when the
/// match set is empty or the first match lacks the attribute,
/// `InvalidSelector` when `sel` does not parse.
pub open spec fn attr_once_spec(
    doc: Seq<char>,
    fragment: bool,
    sel: Seq<char>,
    attr: Seq<char>,
) -> Result<Seq<char>, ScrapingErrorKind> {
    match query_one_spec(doc, fragment, sel) {
        Ok(m) => match match_attr(doc, fragment, sel, m.idx, attr) {
            Some(v) => Ok(v),
            None => Err(ScrapingErrorKind::NotFound),
        },
        Err(e) => Err(e),
    }
}

/// The value of attribute `attr` on every match, in document order. The
/// projection is all-or-nothing: one element lacking the attribute fails the
/// whole call with `NotFound`.
pub open spec fn all_attr_spec(
    doc: Seq<char>,
    fragment: bool,
    sel: Seq<char>,
    attr: Seq<char>,
) -> Result<Seq<Seq<char>>, ScrapingErrorKind> {
    match query_all_spec(doc, fragment, sel) {
        Ok(v) => if forall|i: int| 0 <= i < v.len() ==> match_attr(doc, fragment, sel, i, attr) is Some {
            Ok(Seq::new(v.len(), |i: int| match_attr(doc, fragment, sel, i, attr)->Some_0))
        } else {
            Err(ScrapingErrorKind::NotFound)
        },
        Err(e) => Err(e),
    }
}

} // verus!
