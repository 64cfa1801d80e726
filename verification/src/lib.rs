//! Core of a small message board: parsing a multipart submission into a
//! draft record, deciding which media attachments to materialize, and
//! keeping a consistent record store that serves a reverse-chronological
//! feed. All I/O (transport, blob writes, the remote avatar fetch, durable
//! storage) lives outside this crate; what is here is the logic that
//! decides, with its contracts.

pub mod errors;
pub mod laws;
pub mod order;
pub mod parser;
pub mod pipeline;
pub mod post;
pub mod store;
