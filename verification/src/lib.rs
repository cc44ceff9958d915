//! Curation of samples from multilingual web-text corpora: directory tags are
//! resolved to language identifiers, documents are filtered and sampled in two
//! strata, and the accepted rows are laid out in columns.

pub mod batch;
pub mod cli;
pub mod columns;
pub mod errors;
pub mod filter;
pub mod hosts;
pub mod language;
pub mod layout;
pub mod order;
pub mod pipeline;
pub mod sampler;
pub mod schemas;
pub mod tag;
pub mod text;
pub mod unicode;
pub mod writer;
