//! Configuration resolution and variable merging for a source-file header
//! generator.
//!
//! The library decides everything a run of the tool has to decide: which
//! configuration and template file to use out of a fixed two-tier fallback
//! chain, which language table entry applies, how predefined and user-defined
//! template variables merge, and whether a shebang line is prepended.
//! Reading files, parsing command-line arguments and writing the output file
//! are left to the thin binary around the library.

pub mod assoc;
pub mod cli;
pub mod compose;
pub mod config;
pub mod errors;
pub mod paths;
pub mod shebang;
pub mod vars;

pub use errors::HgenError;
