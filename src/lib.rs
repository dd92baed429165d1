//! One-shot secure capture of an unencrypted password-manager export.
//!
//! A producer drops the export on a rendezvous path; the library decides how
//! the capture proceeds, checks the document against a fixed JSON schema, and
//! makes sure that the plaintext is erased on disk and in memory on every path.
pub mod fault;
pub mod schema;
pub mod eraser;
pub mod channel;
pub mod session;
pub mod lifecycle;
