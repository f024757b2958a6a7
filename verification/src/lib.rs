//! Message store, read index and live fan-out of a chat service.
//!
//! The store keeps every message of every conversation in one append-only
//! log ordered by identifier; the read index remembers, per user and
//! conversation, how far that user has read; the hub offers each new message
//! to the sessions that are connected at that moment, and a bridge decides
//! for each session what goes onto its stream. Around them stand the rules
//! on who may send what to whom, and how a failure is answered.

pub mod auth;
pub mod by_time;
pub mod datetime;
pub mod dgraph;
pub mod envelope;
pub mod err;
pub mod error;
pub mod event;
pub mod friend;
pub mod group;
pub mod index_laws;
pub mod message;
pub mod read_index;
pub mod sorting;
pub mod store;
pub mod store_laws;
pub mod text;
pub mod user;
