//! Native messaging host library for copying a GIF image to the system
//! clipboard.
//!
//! The host receives one length-prefixed JSON request on its standard input,
//! fetches the named image over HTTP, validates its magic signature, stages it
//! in a temporary file and hands that file to a platform clipboard tool, then
//! writes one length-prefixed JSON response and exits.  This crate holds the
//! verified logic of that pipeline: the framing codec, the JSON codec for the
//! two message shapes, URL normalization, signature validation, the status
//! check on the HTTP reply, and the decisions of the platform clipboard
//! dispatcher.  The unverified binary around it performs the raw stream,
//! file and process I/O.

pub mod clipboard;
pub mod errors;
pub mod fetch;
pub mod frame;
pub mod gif;
pub mod host;
pub mod json;
pub mod message;
pub mod strings;
pub mod url;

pub use gif::validate_gif;
