//! Verified core of a small file-synchronisation service.
//!
//! A client pushes a file's bytes to a server, which reconciles them with
//! whatever already exists at the target path: a *safe* write skips the
//! update when the content is unchanged and snapshots the prior version
//! into a hidden backup directory before overwriting, while a *force*
//! write overwrites unconditionally.  A companion path serves a file's
//! bytes back to the caller.
//!
//! The write policies, path validation, backup naming, multipart field
//! folding and the retrieval responder are all specified and proved here
//! against an in-memory model of the directory tree ([`fs_model`]).  The
//! surrounding HTTP server and client are ordinary unverified glue that
//! drive these functions against the real filesystem.

pub mod client;
pub mod clock;
pub mod engine;
pub mod errors;
pub mod fingerprint;
pub mod fs_model;
pub mod ingest;
pub mod laws;
pub mod paths;
pub mod schema;
pub mod text;
pub mod validate;
