//! A small scraping facade: parse an HTML document or fragment, query it with
//! CSS selectors, and extract inner HTML or attribute values; plus a sibling
//! utility that plans the download of a remote file to a local path.
//!
//! Network transport is deliberately kept outside this crate: callers fetch a
//! page themselves and hand the outcome to [`Scraper::from_response`].

pub mod error;
pub mod fileloader;
pub mod laws;
pub mod loading;
pub mod model;
pub mod scraping;
pub mod url;

pub use error::ScrapingErrorKind;
pub use error::ScrapingHttpErrorKind;
pub use fileloader::FileLoader;
pub use fileloader::FileType;
pub use scraping::Element;
pub use scraping::ItemNum;
pub use scraping::Scraper;
