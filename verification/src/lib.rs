//! A layout engine for a terminal system summary: it measures text in
//! terminal cells, wraps long values, fits an ASCII-art logo, plans a
//! side-by-side or stacked arrangement and draws the bordered box, and it
//! shapes the facts that the summary shows into label and value pairs.

pub mod alignment;
pub mod art;
pub mod capture;
pub mod facts;
pub mod layout;
pub mod metrics;
pub mod modules;
pub mod painting;
pub mod render;
pub mod scan;
pub mod settings;
pub mod summary;
pub mod text;
pub mod version;
pub mod wrap;
