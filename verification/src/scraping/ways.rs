//! Free-function ways of creating a [`Scraper`].

use vstd::prelude::*;

use crate::scraping::Scraper;

verus! {

/// Builds a `Scraper` from a fragment of site markup.
pub fn from_fragment(fragment: &str) -> (s: Scraper)
    ensures
        s.text() == fragment@,
        s.is_fragment(),
{
    Scraper::from_fragment(fragment)
}

} // verus!
