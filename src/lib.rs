//! Catalog extraction for a template-driven manga site: listings, series
//! details, chapter lists with inferred numbering, page images, a home
//! dashboard and deep links, all over plain-value snapshots of documents.

pub mod text;
pub mod model;
pub mod node;
pub mod links;
pub mod listing;
pub mod chapter_number;
pub mod detail;
pub mod pages;
pub mod sort;
pub mod home;
