//! Extraction engine for fixed-layout chemical-substance dossier pages.
//!
//! The library classifies an ordered list of document nodes into sections,
//! extracts key/value fields from each block, builds canonical [`Record`]s
//! (with an `"N/A"` sentinel for absent fields), caches the result per
//! [`Section`], and renders records as tab-separated rows.

pub mod dom;
pub mod engine;
pub mod fields;
pub mod model;
pub mod record;
pub mod session;
pub mod text;
pub mod tsv;

pub use engine::EchaError;
pub use fields::RawFields;
pub use model::{Block, Document, Node};
pub use record::{Record, Section, Subsection};
pub use session::EchaSite;
pub use tsv::{record_to_tsv, split_tsv};
