//! Scraper library for the Mod Archive website: turns fetched page bodies
//! into typed module-metadata records and search matches.

use vstd::prelude::*;

mod clock;
pub mod detail;
pub mod link;
mod page;
pub mod search;
pub mod text;

pub use detail::ModInfo;
pub use search::ModSearch;
pub use link::download_link_of;
pub use page::anchor_list_of;
pub use page::class_text_of;
pub use page::html_decoded_of;
pub use page::selector_text_of;

verus! {

/// Errors returned by the extractors.
#[derive(Debug, Clone, Copy, PartialEq, Eq, Structural)]
pub enum Error {
    /// The page does not have the expected top-level shape (wrong page type,
    /// or the requested entity does not exist upstream).
    NotFound,
    /// The page has the expected top-level shape, but an individual field's
    /// fragment is missing or fails to parse as its declared type.
    MalformedInput,
}

} // verus!
