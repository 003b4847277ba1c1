//! Verified core of the music importer: URL admission, text normalisation,
//! metadata extraction from song pages and the decisions of the HTTP API.

pub mod external;
pub mod models;
pub mod text;
pub mod importer;
pub mod metadata;
pub mod api;
