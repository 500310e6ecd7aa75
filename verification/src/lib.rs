//! A custom URI scheme handler: parses `ush://` URIs, decodes their
//! compressed argument payload, resolves the named application in a small
//! registry of name-to-path entries, and prepares the process launch.

pub mod codec;
pub mod control;
pub mod registry;
pub mod setup;
pub mod text;
pub mod uri;
