//! A generic document-collection service core: the JSON model of request and
//! response bodies, the codec that turns the store's structured record
//! identifiers into plain strings, the replies of the collection endpoints,
//! and the statements of a transaction batch.
pub mod json;
pub mod laws;
pub mod record_id;
pub mod replies;
pub mod txs;
