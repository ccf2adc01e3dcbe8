//! Scraper core for article pages of m.qqaiqin.com.
//!
//! The library holds the verified logic of the scraper: building request
//! URLs from an article identifier, decoding the legacy-encoded response
//! body, extracting paragraph text from a page, and discovering pagination
//! links. Network and file I/O live outside the library.

pub mod encoding;
pub mod extract;
pub mod html;
pub mod link;
pub mod ordering;
pub mod pagination;
pub mod pipeline;

pub use encoding::decode_page;
pub use extract::extract_content;
pub use link::Link;
pub use pagination::discover_links;
pub use pipeline::page_links;
pub use pipeline::page_text;
