//! Codebase audit and remediation engine.
//!
//! The crate walks a set of scanned source files, builds a symbol registry,
//! detects rule-based findings, and applies an annotate-and-replace rewrite
//! ("purge") to the files named by those findings, aggregating a yield score
//! from the results.  All file enumeration and raw I/O happens outside this
//! library; the library itself works on plain paths and decoded contents.

pub mod assimilation;
pub mod audit;
pub mod digest;
pub mod jobs;
pub mod scribe;
pub mod server;
pub mod store;
pub mod text;
pub mod ukame;
pub mod veritas;
pub mod wealth;
