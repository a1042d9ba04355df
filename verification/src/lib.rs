//! Infers a clang-format configuration from a hand-written reference source
//! file.  A rule engine scans the reference text line by line and fills a
//! versioned settings model; a version-gated writer then renders the model as
//! an ordered sequence of configuration lines for a target clang-format
//! version.

pub mod clang_format_lib;
pub mod generator;
pub mod laws;
pub mod parser;
pub mod text;
pub mod write_cfg;
