//! Verified core of a command-line plugin and software installer.
//!
//! The library covers the install pipeline: manifest parsing and entry
//! resolution, download-progress accounting, archive-extraction planning,
//! entry-point discovery, and ledger registration.  All file, network and
//! process I/O is left to the surrounding application, which drives the
//! pipeline state machines defined here.

pub mod errors;
pub mod extract;
pub mod fold;
pub mod json;
pub mod lines;
pub mod locate;
pub mod manifest;
pub mod paths;
pub mod pipeline;
pub mod progress;

pub use errors::InstallError;
