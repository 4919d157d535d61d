//! Resolves, creates, or loads the small database-connection configuration
//! document that lives beside the running executable.
//!
//! `config::Config` is the single stateful component: it decides, on first
//! use, whether a default configuration file must be written or an existing
//! one parsed, and guards against being initialized twice. `paths` resolves
//! file names against the executable's directory, and `ini_doc` carries the
//! contracts for the ini document library that reads and writes the file.

pub mod config;
pub mod ini_doc;
pub mod paths;
