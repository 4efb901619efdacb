use vstd::prelude::*;

verus! {

/// Failures raised by selector queries against a parsed document.
///
/// Callers commonly branch on "the selector is broken" versus "the page shape
/// changed", so the two kinds are kept distinct.
#[derive(Clone, Copy, Debug, PartialEq, Eq)]
pub enum ScrapingErrorKind {
    /// A single-result query matched nothing, or a requested attribute is
    /// absent on the resolved element.
    NotFound,
    /// The selector string is not syntactically valid CSS selector syntax.
    InvalidSelector,
}

/// Failures raised while acquiring a document over HTTP.
#[derive(Clone, Copy, Debug, PartialEq, Eq)]
pub enum ScrapingHttpErrorKind {
    /// The network fetch could not complete, or the response body could not
    /// be decoded as text. All transport failures are reported uniformly.
    GettingDataError,
}

} // verus!
