//! A verified core for a small "register a name, read it back" service.
//!
//! One HTTP route accepts a name, generates a fresh identifier, stores the
//! pair as a row in a table, reads the name back under that identifier, and
//! answers with the stored name.  This crate holds the verified logic of that
//! sequence: the flat error taxonomy and its mapping to a transport response,
//! a model of the backing table with its primary-key invariant, a model of
//! the bounded connection pool's lease discipline, and the request handler as
//! a step machine that an unverified shell drives against the real
//! collaborators (HTTP server, connection pool, storage engine).

pub mod handler;
pub mod machine;
pub mod pool;
pub mod response;
pub mod store;
