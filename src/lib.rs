//! Extraction and normalisation of medical-transcription sample pages into
//! flat records, and the walk over the site's links that leads to those
//! pages.

pub mod crawl;
pub mod dom;
pub mod record;
pub mod text;
pub mod walk;

pub use dom::get_node_content;
pub use record::{convert_to_header, Header};
