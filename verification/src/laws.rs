//! The laws of the query facade, stated and proved over the model that
//! every contract of [`crate::scraping`] is written against.

use vstd::prelude::*;

use crate::error::ScrapingErrorKind;
use crate::model::ElementModel;
use crate::model::all_text_spec;
use crate::model::match_count;
use crate::model::query_all_spec;
use crate::model::query_one_spec;
use crate::model::selector_valid;
use crate::model::text_once_spec;

verus! {

/// Whenever querying all matches succeeds, the matches come back in
/// document (pre-order, depth-first) order: the entry at position `i` is the
/// `i`-th match, for every position.
pub proof fn lemma_query_all_document_order(
    doc: Seq<char>,
    fragment: bool,
    sel: Seq<char>,
    v: Seq<ElementModel>,
)
    requires
        query_all_spec(doc, fragment, sel) == Ok::<Seq<ElementModel>, ScrapingErrorKind>(v),
    ensures
        v.len() == match_count(doc, fragment, sel),
        forall|i: int|
            0 <= i < v.len() ==> (#[trigger] v[i]) == (ElementModel {
                doc: doc,
                fragment: fragment,
                sel: sel,
                idx: i,
            }),
{
}

/// Whenever querying all matches yields a non-empty match set, the
/// single-result query returns exactly its first entry.
pub proof fn lemma_query_one_is_first(
    doc: Seq<char>,
    fragment: bool,
    sel: Seq<char>,
    v: Seq<ElementModel>,
)
    requires
        query_all_spec(doc, fragment, sel) == Ok::<Seq<ElementModel>, ScrapingErrorKind>(v),
        v.len() > 0,
    ensures
        query_one_spec(doc, fragment, sel) == Ok::<ElementModel, ScrapingErrorKind>(v[0]),
{
}

/// Whenever querying all matches yields an empty match set, the
/// single-result query fails with `NotFound`.
pub proof fn lemma_query_one_empty(
    doc: Seq<char>,
    fragment: bool,
    sel: Seq<char>,
    v: Seq<ElementModel>,
)
    requires
        query_all_spec(doc, fragment, sel) == Ok::<Seq<ElementModel>, ScrapingErrorKind>(v),
        v.len() == 0,
    ensures
        query_one_spec(doc, fragment, sel) == Err::<ElementModel, ScrapingErrorKind>(
            ScrapingErrorKind::NotFound,
        ),
{
}

/// A syntactically invalid selector fails both the all-result and the
/// single-result query with `InvalidSelector`, whatever the document holds.
pub proof fn lemma_invalid_selector(doc: Seq<char>, fragment: bool, sel: Seq<char>)
    requires
        !selector_valid(sel),
    ensures
        query_all_spec(doc, fragment, sel) == Err::<Seq<ElementModel>, ScrapingErrorKind>(
            ScrapingErrorKind::InvalidSelector,
        ),
        query_one_spec(doc, fragment, sel) == Err::<ElementModel, ScrapingErrorKind>(
            ScrapingErrorKind::InvalidSelector,
        ),
{
}

/// The strictness asymmetry between all-result and single-result queries: a
/// valid selector that matches nothing is a valid, empty outcome for the
/// all-result queries, and a `NotFound` failure for the single-result ones.
pub proof fn lemma_empty_match_set(doc: Seq<char>, fragment: bool, sel: Seq<char>)
    requires
        selector_valid(sel),
        match_count(doc, fragment, sel) == 0,
    ensures
        query_all_spec(doc, fragment, sel) == Ok::<Seq<ElementModel>, ScrapingErrorKind>(
            Seq::<ElementModel>::empty(),
        ),
        all_text_spec(doc, fragment, sel) == Ok::<Seq<Seq<char>>, ScrapingErrorKind>(
            Seq::<Seq<char>>::empty(),
        ),
        query_one_spec(doc, fragment, sel) == Err::<ElementModel, ScrapingErrorKind>(
            ScrapingErrorKind::NotFound,
        ),
        text_once_spec(doc, fragment, sel) == Err::<Seq<char>, ScrapingErrorKind>(
            ScrapingErrorKind::NotFound,
        ),
{
    assert(query_all_spec(doc, fragment, sel)->Ok_0 =~= Seq::<ElementModel>::empty());
    assert(all_text_spec(doc, fragment, sel)->Ok_0 =~= Seq::<Seq<char>>::empty());
}

} // verus!
