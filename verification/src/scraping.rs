//! The selector-query facade: a parsed document and the queries over it.
//!
//! The HTML parsing and CSS matching themselves are done by the `scraper`
//! crate behind a small set of trusted wrappers; everything these wrappers
//! promise is stated over the names of [`crate::model`], and all the logic
//! around them is verified.

pub mod ways;

use vstd::prelude::*;

use crate::error::ScrapingErrorKind;
use crate::error::ScrapingHttpErrorKind;
use crate::model::ElementModel;
use crate::model::all_attr_spec;
use crate::model::all_text_spec;
use crate::model::attr_once_spec;
use crate::model::match_attr;
use crate::model::match_count;
use crate::model::match_html;
use crate::model::query_all_spec;
use crate::model::query_one_spec;
use crate::model::selector_valid;
use crate::model::text_once_spec;

verus! {

#[verifier::external_type_specification]
#[verifier::external_body]
pub struct ExHtml(scraper::Html);

#[verifier::external_type_specification]
#[verifier::external_body]
pub struct ExSelector(scraper::Selector);

#[verifier::external_type_specification]
#[verifier::external_body]
pub struct ExElementRef<'a>(scraper::ElementRef<'a>);

/// How many values a combined query considers: only the first match, or
/// every match.
#[derive(Clone, Copy, Debug, PartialEq, Eq)]
pub enum ItemNum {
    Once,
    All,
}

/// What `get_text` returns: the inner HTML of the first match alone
/// (`Once`), or of every match in document order (`All`).
pub open spec fn get_text_spec(
    doc: Seq<char>,
    fragment: bool,
    sel: Seq<char>,
    num: ItemNum,
) -> Result<Seq<Seq<char>>, ScrapingErrorKind> {
    match num {
        ItemNum::Once => match text_once_spec(doc, fragment, sel) {
            Ok(t) => Ok(seq![t]),
            Err(e) => Err(e),
        },
        ItemNum::All => all_text_spec(doc, fragment, sel),
    }
}

/// What `get_attr` returns: the value of the attribute on the first match
/// alone (`Once`), or on every match in document order (`All`).
pub open spec fn get_attr_spec(
    doc: Seq<char>,
    fragment: bool,
    sel: Seq<char>,
    attr: Seq<char>,
    num: ItemNum,
) -> Result<Seq<Seq<char>>, ScrapingErrorKind> {
    match num {
        ItemNum::Once => match attr_once_spec(doc, fragment, sel, attr) {
            Ok(t) => Ok(seq![t]),
            Err(e) => Err(e),
        },
        ItemNum::All => all_attr_spec(doc, fragment, sel, attr),
    }
}

/// A compiled CSS selector, paired with the text it was compiled from. Only
/// [`parse_selector_trusted`] builds one, so `selector` is always the result
/// of compiling `text`.
struct CompiledSelector {
    selector: scraper::Selector,
    text: String,
}

impl CompiledSelector {
    /// The selector text this value was compiled from.
    spec fn text(&self) -> Seq<char> {
        self.text@
    }
}

/// A parsed, immutable HTML document or fragment. Built once, never mutated;
/// all queries are read-only. The tree lives in `document`; `source` and
/// `fragment` record which text it was parsed from and how, so that
/// contracts can speak of the document as a value.
#[derive(Debug)]
pub struct Scraper {
    document: scraper::Html,
    source: String,
    fragment: bool,
}

/// A borrowed handle to one element of a document's tree, produced by a
/// query. It does not own the tree and cannot outlive the [`Scraper`] it was
/// obtained from. Only [`Scraper::get_els`] builds one, pairing the engine's
/// handle for the `idx`-th match of `sel` with that position.
#[derive(Clone, Copy, Debug)]
pub struct Element<'a> {
    el: scraper::ElementRef<'a>,
    owner: &'a Scraper,
    sel: &'a str,
    idx: usize,
}

/// Relies on `scraper::Selector::parse`: it succeeds exactly on
/// syntactically valid CSS selector group syntax, and its outcome depends on
/// the selector text alone.
#[verifier::external_body]
fn parse_selector_trusted(sel: &str) -> (r: Option<CompiledSelector>)
    ensures
        r is Some <==> selector_valid(sel@),
        r matches Some(c) ==> c.text() == sel@,
{
    match scraper::Selector::parse(sel) {
        Ok(selector) => Some(CompiledSelector { selector, text: sel.to_string() }),
        Err(_) => None,
    }
}

/// Relies on `scraper::Html::parse_document`: it parses any string into a
/// document tree with HTML5 error recovery, never fails, and is determined
/// by the text alone.
#[verifier::external_body]
fn parse_document_trusted(text: &str) -> (s: Scraper)
    ensures
        s.text() == text@,
        !s.is_fragment(),
{
    Scraper { document: scraper::Html::parse_document(text), source: text.to_string(), fragment: false }
}

/// Relies on `scraper::Html::parse_fragment`: as `parse_document`, but the
/// string is parsed as a fragment (no surrounding document structure
/// required).
#[verifier::external_body]
fn parse_fragment_trusted(fragment: &str) -> (s: Scraper)
    ensures
        s.text() == fragment@,
        s.is_fragment(),
{
    Scraper {
        document: scraper::Html::parse_fragment(fragment),
        source: fragment.to_string(),
        fragment: true,
    }
}

/// Relies on `scraper::Html::select`: it yields exactly the elements of the
/// tree that match the selector, in document (pre-order, depth-first) order,
/// so the sequence returned here holds the engine's handle for match 0, then
/// match 1, and so on.
#[verifier::external_body]
fn select_trusted<'a>(s: &'a Scraper, c: &CompiledSelector) -> (v: Vec<scraper::ElementRef<'a>>)
    ensures
        v@.len() == match_count(s.text(), s.is_fragment(), c.text()),
{
    s.document.select(&c.selector).collect()
}

/// Relies on `scraper::ElementRef::inner_html`: it serializes the element's
/// children and is a function of the element alone. The element handle held
/// by `e` is the `idx`-th match of `sel` (see [`Element`]), so the result is
/// the inner HTML of that match.
#[verifier::external_body]
fn inner_html_trusted(e: &Element<'_>) -> (r: String)
    ensures
        r@ == match_html(e.model().doc, e.model().fragment, e.model().sel, e.model().idx),
{
    e.el.inner_html()
}

/// Relies on `scraper::ElementRef::attr`: it returns the value of the named
/// attribute on the element's tag, or `None` when the attribute is absent,
/// and is a function of the element and the name alone. As for
/// [`inner_html_trusted`], the handle held by `e` is the `idx`-th match of
/// `sel`.
#[verifier::external_body]
fn attr_trusted(e: &Element<'_>, name: &str) -> (r: Option<String>)
    ensures
        r is Some <==> match_attr(
            e.model().doc,
            e.model().fragment,
            e.model().sel,
            e.model().idx,
            name@,
        ) is Some,
        r matches Some(v) ==> match_attr(
            e.model().doc,
            e.model().fragment,
            e.model().sel,
            e.model().idx,
            name@,
        ) == Some(v@),
{
    e.el.attr(name).map(|v| v.to_string())
}

/// The inner HTML of each element, preserving order.
fn texts_of(els: &Vec<Element<'_>>) -> (out: Vec<String>)
    ensures
        out@.len() == els@.len(),
        forall|i: int|
            0 <= i < els@.len() ==> (#[trigger] out@[i]@) == match_html(
                els@[i].model().doc,
                els@[i].model().fragment,
                els@[i].model().sel,
                els@[i].model().idx,
            ),
{
    let mut out: Vec<String> = Vec::new();
    let mut i: usize = 0;
    while i < els.len()
        invariant
            i <= els@.len(),
            out@.len() == i,
            forall|j: int|
                0 <= j < i ==> (#[trigger] out@[j]@) == match_html(
                    els@[j].model().doc,
                    els@[j].model().fragment,
                    els@[j].model().sel,
                    els@[j].model().idx,
                ),
        decreases els@.len() - i,
    {
        out.push(els[i].inner_html());
        i += 1;
    }
    out
}

/// The value of `attr` on each element, preserving order; fails with
/// `NotFound` as soon as one element lacks the attribute.
fn attrs_of(els: &Vec<Element<'_>>, attr: &str) -> (r: Result<Vec<String>, ScrapingErrorKind>)
    ensures
        match r {
            Ok(out) => {
                &&& out@.len() == els@.len()
                &&& forall|i: int|
                    0 <= i < els@.len() ==> (#[trigger] match_attr(
                        els@[i].model().doc,
                        els@[i].model().fragment,
                        els@[i].model().sel,
                        els@[i].model().idx,
                        attr@,
                    )) is Some
                &&& forall|i: int|
                    0 <= i < els@.len() ==> (#[trigger] out@[i]@) == match_attr(
                        els@[i].model().doc,
                        els@[i].model().fragment,
                        els@[i].model().sel,
                        els@[i].model().idx,
                        attr@,
                    )->Some_0
            },
            Err(k) => {
                &&& k == ScrapingErrorKind::NotFound
                &&& exists|i: int|
                    0 <= i < els@.len() && (#[trigger] match_attr(
                        els@[i].model().doc,
                        els@[i].model().fragment,
                        els@[i].model().sel,
                        els@[i].model().idx,
                        attr@,
                    )) is None
            },
        },
{
    let mut out: Vec<String> = Vec::new();
    let mut i: usize = 0;
    while i < els.len()
        invariant
            i <= els@.len(),
            out@.len() == i,
            forall|j: int|
                0 <= j < i ==> (#[trigger] match_attr(
                    els@[j].model().doc,
                    els@[j].model().fragment,
                    els@[j].model().sel,
                    els@[j].model().idx,
                    attr@,
                )) is Some,
            forall|j: int|
                0 <= j < i ==> (#[trigger] out@[j]@) == match_attr(
                    els@[j].model().doc,
                    els@[j].model().fragment,
                    els@[j].model().sel,
                    els@[j].model().idx,
                    attr@,
                )->Some_0,
        decreases els@.len() - i,
    {
        match els[i].attr(attr) {
            Some(v) => {
                out.push(v);
            },
            None => {
                return Err(ScrapingErrorKind::NotFound);
            },
        }
        i += 1;
    }
    Ok(out)
}

impl<'a> Element<'a> {
    /// Which match this handle stands for.
    pub closed spec fn model(&self) -> ElementModel {
        ElementModel {
            doc: self.owner.text(),
            fragment: self.owner.is_fragment(),
            sel: self.sel@,
            idx: self.idx as int,
        }
    }

    /// The serialized inner HTML of this element (nested tags preserved, not
    /// collapsed to plain text).
    pub fn inner_html(&self) -> (r: String)
        ensures
            r@ == match_html(
                self.model().doc,
                self.model().fragment,
                self.model().sel,
                self.model().idx,
            ),
    {
        inner_html_trusted(self)
    }

    /// The value of the named attribute on this element's tag, or `None`
    /// when the attribute is absent.
    pub fn attr(&self, name: &str) -> (r: Option<String>)
        ensures
            r is Some <==> match_attr(
                self.model().doc,
                self.model().fragment,
                self.model().sel,
                self.model().idx,
                name@,
            ) is Some,
            r matches Some(v) ==> match_attr(
                self.model().doc,
                self.model().fragment,
                self.model().sel,
                self.model().idx,
                name@,
            ) == Some(v@),
    {
        attr_trusted(self, name)
    }
}

impl Scraper {
    /// The text this document was parsed from.
    pub closed spec fn text(&self) -> Seq<char> {
        self.source@
    }

    /// Whether the text was parsed as a fragment rather than as a full
    /// document.
    pub closed spec fn is_fragment(&self) -> bool {
        self.fragment
    }

    /// Parses `text` as a full HTML document. Parsing is permissive
    /// (malformed markup is repaired, not rejected) and never fails.
    pub fn from_document(text: &str) -> (s: Scraper)
        ensures
            s.text() == text@,
            !s.is_fragment(),
    {
        parse_document_trusted(text)
    }

    /// Parses `fragment` as an HTML fragment. No I/O is performed and
    /// parsing never fails, for any input string.
    pub fn from_fragment(fragment: &str) -> (s: Scraper)
        ensures
            s.text() == fragment@,
            s.is_fragment(),
    {
        parse_fragment_trusted(fragment)
    }

    /// Builds a scraper from the outcome of a transport fetch: the response
    /// body when the fetch completed, `None` for any transport or decoding
    /// failure. Exactly the failures become `GettingDataError`.
    pub fn from_response(body: Option<String>) -> (r: Result<Scraper, ScrapingHttpErrorKind>)
        ensures
            body matches Some(t) ==> (r matches Ok(s) && s.text() == t@ && !s.is_fragment()),
            body is None ==> (r matches Err(k) && k == ScrapingHttpErrorKind::GettingDataError),
    {
        match body {
            Some(t) => Ok(Self::from_document(t.as_str())),
            None => Err(ScrapingHttpErrorKind::GettingDataError),
        }
    }

    /// All elements matching `sel`, in document order (possibly none).
    /// Fails with `InvalidSelector` exactly when `sel` is not valid CSS
    /// selector syntax.
    pub fn get_els<'a>(&'a self, sel: &'a str) -> (r: Result<Vec<Element<'a>>, ScrapingErrorKind>)
        ensures
            ({
                let q = query_all_spec(self.text(), self.is_fragment(), sel@);
                match r {
                    Ok(v) => {
                        &&& q matches Ok(m)
                        &&& v@.len() == m.len()
                        &&& forall|i: int| 0 <= i < v@.len() ==> (#[trigger] v@[i].model()) == m[i]
                    },
                    Err(k) => q == Err::<Seq<ElementModel>, ScrapingErrorKind>(k),
                }
            }),
    {
        let compiled = match parse_selector_trusted(sel) {
            Some(c) => c,
            None => {
                return Err(ScrapingErrorKind::InvalidSelector);
            },
        };
        let raw = select_trusted(self, &compiled);
        let ghost m = query_all_spec(self.text(), self.is_fragment(), sel@)->Ok_0;
        let mut v: Vec<Element<'a>> = Vec::new();
        let mut i: usize = 0;
        while i < raw.len()
            invariant
                i <= raw@.len(),
                raw@.len() == m.len(),
                m == query_all_spec(self.text(), self.is_fragment(), sel@)->Ok_0,
                selector_valid(sel@),
                v@.len() == i,
                forall|j: int| 0 <= j < i ==> (#[trigger] v@[j].model()) == m[j],
            decreases raw@.len() - i,
        {
            v.push(Element { el: raw[i], owner: self, sel: sel, idx: i });
            i += 1;
        }
        Ok(v)
    }

    /// The first element matching `sel` in document order. Fails with
    /// `InvalidSelector` exactly when `sel` does not parse, and with
    /// `NotFound` exactly when the selector is valid but matches nothing.
    pub fn get_el<'a>(&'a self, sel: &'a str) -> (r: Result<Element<'a>, ScrapingErrorKind>)
        ensures
            ({
                let q = query_one_spec(self.text(), self.is_fragment(), sel@);
                match r {
                    Ok(e) => q == Ok::<ElementModel, ScrapingErrorKind>(e.model()),
                    Err(k) => q == Err::<ElementModel, ScrapingErrorKind>(k),
                }
            }),
    {
        let v = match self.get_els(sel) {
            Ok(v) => v,
            Err(k) => {
                return Err(k);
            },
        };
        if v.len() > 0 {
            Ok(v[0])
        } else {
            Err(ScrapingErrorKind::NotFound)
        }
    }

    /// The inner HTML of the first element matching `sel`. Fails with
    /// `InvalidSelector` exactly when `sel` does not parse, and with
    /// `NotFound` exactly when the selector is valid but matches nothing.
    pub fn get_text_once(&self, sel: &str) -> (r: Result<String, ScrapingErrorKind>)
        ensures
            ({
                let q = text_once_spec(self.text(), self.is_fragment(), sel@);
                match r {
                    Ok(t) => q == Ok::<Seq<char>, ScrapingErrorKind>(t@),
                    Err(k) => q == Err::<Seq<char>, ScrapingErrorKind>(k),
                }
            }),
    {
        let e = match self.get_el(sel) {
            Ok(e) => e,
            Err(k) => {
                return Err(k);
            },
        };
        Ok(e.inner_html())
    }

    /// The inner HTML of every element matching `sel`, in document order.
    /// An empty result is a valid, non-error outcome; the only failure is
    /// `InvalidSelector`, exactly when `sel` does not parse.
    pub fn get_all_text(self, sel: &str) -> (r: Result<Vec<String>, ScrapingErrorKind>)
        ensures
            ({
                let q = all_text_spec(self.text(), self.is_fragment(), sel@);
                match r {
                    Ok(v) => {
                        &&& q matches Ok(m)
                        &&& v@.len() == m.len()
                        &&& forall|i: int| 0 <= i < v@.len() ==> (#[trigger] v@[i]@) == m[i]
                    },
                    Err(k) => q == Err::<Seq<Seq<char>>, ScrapingErrorKind>(k),
                }
            }),
    {
        let els = match self.get_els(sel) {
            Ok(v) => v,
            Err(k) => {
                return Err(k);
            },
        };
        Ok(texts_of(&els))
    }

    /// The value of attribute `attr` on the first element matching `sel`.
    /// Fails with `InvalidSelector` exactly when `sel` does not parse, and
    /// with `NotFound` exactly when nothing matches or the first match lacks
    /// the attribute.
    pub fn get_attr_once(&self, sel: &str, attr: &str) -> (r: Result<String, ScrapingErrorKind>)
        ensures
            ({
                let q = attr_once_spec(self.text(), self.is_fragment(), sel@, attr@);
                match r {
                    Ok(a) => q == Ok::<Seq<char>, ScrapingErrorKind>(a@),
                    Err(k) => q == Err::<Seq<char>, ScrapingErrorKind>(k),
                }
            }),
    {
        let e = match self.get_el(sel) {
            Ok(e) => e,
            Err(k) => {
                return Err(k);
            },
        };
        match e.attr(attr) {
            Some(v) => Ok(v),
            None => Err(ScrapingErrorKind::NotFound),
        }
    }

    /// The value of attribute `attr` on every element matching `sel`, in
    /// document order. The projection is all-or-nothing: one element lacking
    /// the attribute fails the whole call with `NotFound` rather than being
    /// skipped.
    pub fn get_all_attr(&self, sel: &str, attr: &str) -> (r: Result<Vec<String>, ScrapingErrorKind>)
        ensures
            ({
                let q = all_attr_spec(self.text(), self.is_fragment(), sel@, attr@);
                match r {
                    Ok(v) => {
                        &&& q matches Ok(m)
                        &&& v@.len() == m.len()
                        &&& forall|i: int| 0 <= i < v@.len() ==> (#[trigger] v@[i]@) == m[i]
                    },
                    Err(k) => q == Err::<Seq<Seq<char>>, ScrapingErrorKind>(k),
                }
            }),
    {
        let els = match self.get_els(sel) {
            Ok(v) => v,
            Err(k) => {
                return Err(k);
            },
        };
        let r = attrs_of(&els, attr);
        proof {
            assert forall|i: int| 0 <= i < els@.len() implies (#[trigger] els@[i].model())
                == (ElementModel {
                doc: self.text(),
                fragment: self.is_fragment(),
                sel: sel@,
                idx: i,
            }) by {}
            if r is Ok {
                assert forall|i: int|
                    0 <= i < els@.len() implies match_attr(
                    self.text(),
                    self.is_fragment(),
                    sel@,
                    i,
                    attr@,
                ) is Some by {
                    assert(match_attr(
                        els@[i].model().doc,
                        els@[i].model().fragment,
                        els@[i].model().sel,
                        els@[i].model().idx,
                        attr@,
                    ) is Some);
                }
            }
            if r is Err {
                let w = choose|i: int|
                    0 <= i < els@.len() && (#[trigger] match_attr(
                        els@[i].model().doc,
                        els@[i].model().fragment,
                        els@[i].model().sel,
                        els@[i].model().idx,
                        attr@,
                    )) is None;
                assert(match_attr(self.text(), self.is_fragment(), sel@, w, attr@) is None);
            }
        }
        r
    }

    /// The inner HTML of the first match (`Once`) or of every match
    /// (`All`), in document order.
    pub fn get_text(&self, sel: &str, num: ItemNum) -> (r: Result<Vec<String>, ScrapingErrorKind>)
        ensures
            ({
                let q = get_text_spec(self.text(), self.is_fragment(), sel@, num);
                match r {
                    Ok(v) => {
                        &&& q matches Ok(m)
                        &&& v@.len() == m.len()
                        &&& forall|i: int| 0 <= i < v@.len() ==> (#[trigger] v@[i]@) == m[i]
                    },
                    Err(k) => q == Err::<Seq<Seq<char>>, ScrapingErrorKind>(k),
                }
            }),
    {
        match num {
            ItemNum::Once => {
                let t = match self.get_text_once(sel) {
                    Ok(t) => t,
                    Err(k) => {
                        return Err(k);
                    },
                };
                let mut out: Vec<String> = Vec::new();
                out.push(t);
                Ok(out)
            },
            ItemNum::All => {
                let els = match self.get_els(sel) {
                    Ok(v) => v,
                    Err(k) => {
                        return Err(k);
                    },
                };
                Ok(texts_of(&els))
            },
        }
    }

    /// The value of attribute `attr` on the first match (`Once`) or on
    /// every match (`All`), in document order.
    pub fn get_attr(&self, sel: &str, attr: &str, num: ItemNum) -> (r: Result<
        Vec<String>,
        ScrapingErrorKind,
    >)
        ensures
            ({
                let q = get_attr_spec(self.text(), self.is_fragment(), sel@, attr@, num);
                match r {
                    Ok(v) => {
                        &&& q matches Ok(m)
                        &&& v@.len() == m.len()
                        &&& forall|i: int| 0 <= i < v@.len() ==> (#[trigger] v@[i]@) == m[i]
                    },
                    Err(k) => q == Err::<Seq<Seq<char>>, ScrapingErrorKind>(k),
                }
            }),
    {
        match num {
            ItemNum::Once => {
                let a = match self.get_attr_once(sel, attr) {
                    Ok(a) => a,
                    Err(k) => {
                        return Err(k);
                    },
                };
                let mut out: Vec<String> = Vec::new();
                out.push(a);
                Ok(out)
            },
            ItemNum::All => self.get_all_attr(sel, attr),
        }
    }
}

} // verus!
