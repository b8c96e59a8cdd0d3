//! A verified core for a source-based package build tool.
//!
//! Given a declarative package descriptor, the pipeline resolves sources
//! (version control or HTTP), verifies their integrity, runs build and
//! packaging scripts, records a manifest of the resulting file tree, and
//! assembles a distributable archive with embedded metadata.
//!
//! The library owns every decision the pipeline makes; the surrounding
//! program performs the input/output actions the pipeline asks for and
//! reports each outcome back.

pub mod archive;
pub mod desc;
pub mod digest;
pub mod error;
pub mod ext;
pub mod manifest;
pub mod pipeline;
pub mod progress;
pub mod render;
pub mod script;
pub mod source;
pub mod text;

pub use error::BuildError;
