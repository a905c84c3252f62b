//! Library behind a `cargo show`-style tool: it decodes a package registry's
//! JSON payloads into typed records, derives the display-only fields, and
//! renders the records as a deterministic text block, with the per-package
//! sequencing decisions needed by a command-line front end.

pub mod decode;
pub mod json;
pub mod model;
pub mod plan;
pub mod render;
pub mod text;
