//! A small persistence subsystem for a desktop application's single JSON
//! history document.
//!
//! The library locates a writable data directory among ordered candidates,
//! initializes it with a starter document, caches the chosen directory for
//! the life of the process, and plans crash-safe reads and writes of the
//! document (write to a temporary sibling, sync, back up, rename).
//!
//! The library itself performs no I/O. Every filesystem or environment step
//! is expressed as an action that the caller carries out, reporting the
//! outcome back as an event; the decisions between those steps are verified
//! here.

pub mod candidates;
pub mod doc;
pub mod error;
pub mod init;
pub mod locator;
pub mod path;
pub mod state;
pub mod store;
