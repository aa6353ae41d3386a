//! Prepares a remote-controlled browser session so that automated browsing
//! is harder to tell apart from a person's: a fixed, ordered catalog of
//! evasions, each rendered from a script template or issued as a protocol
//! override, driven one reply at a time.

pub mod activation;
pub mod catalog;
pub mod render;
pub mod request;
pub mod text;
