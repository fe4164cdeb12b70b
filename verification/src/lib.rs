//! Line dispatcher for the diagnostic trace of an SMT solver.
//!
//! A line of the trace starts with a bracketed tag that names the kind of
//! event; the fields that follow, separated by single spaces, are its
//! arguments. The dispatcher recognises the tag and hands the fields to the
//! one operation of a [`Z3LogParser`] that the tag stands for.

pub mod text;
pub mod tokens;
pub mod opcode;
pub mod handler;
pub mod dispatch;
pub mod version;

pub use dispatch::process_line;
pub use handler::Z3LogParser;
pub use opcode::{LineCase, Operation};
pub use tokens::TokenStream;
pub use version::{VersionInfo, Z3Fingerprint};
