//! Core of a client for a locally running generative-model service: a keyed
//! download-progress store, the orchestration rules that feed it from an
//! upstream pull stream, a read-only polling surface with a fallback against
//! the installed-model list, and a relay that reframes an upstream
//! newline-delimited generation stream into push events with a terminal
//! sentinel.
//!
//! Network and process I/O live in the host program; this crate holds the
//! decisions and data transformations, each with a verified contract. The
//! only trusted boundary is the small set of JSON parsing wrappers in
//! [`upstream`].

pub mod fmt;
pub mod frame;
pub mod hostname;
pub mod poll;
pub mod pull;
pub mod record;
pub mod relay;
pub mod status;
pub mod store;
pub mod text;
pub mod upstream;
