//! Messages: what is read from them, and what is sent in answer.
pub mod captions;
pub mod links;
pub mod requests;
pub mod select;
pub mod send;
pub mod signin;

pub use captions::caption;
pub use links::{extract_urls, strip_url_flags, UrlFlags};
pub use select::{media_group_sizes, media_has_spoiler, select_media_items};
