//! Feed-to-social relay core: deduplication of posted links, content-warning
//! detection, hashtag rewriting, text normalisation and post preparation.
pub mod config;
pub mod text;
pub mod pattern;
pub mod scanner;
pub mod hashtag;
pub mod dedup;
pub mod pipeline;
