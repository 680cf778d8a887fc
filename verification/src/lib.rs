//! A TODO list behind a small set of request handlers.
//!
//! The crate holds the rules of the service: what a stored record is, which
//! request payloads are accepted, how a repository changes under each
//! operation, and which status a handler answers with. Everything here is
//! verified; sockets, JSON and the database driver live with the caller.
//!
//! - [`validation`]: the rules on the fields of a payload, and the report of
//!   the rules that a payload broke.
//! - [`repositories`]: the records, the repository of each kind of record
//!   with its in-memory implementation, and the statements and decisions of
//!   the repositories that keep their records in a database.
//! - [`handlers`]: the payload that has passed its rules, and the answer to
//!   each request.

pub mod handlers;
pub mod repositories;
pub mod validation;
