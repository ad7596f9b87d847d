//! The mailbox subsystem of a distributed actor runtime: typed ports inside
//! per-actor mailboxes, hierarchical routing of serialized envelopes, and
//! the return path that hands every undeliverable envelope back to its sender.
//!
//! All state is explicit and owned: a [`mailbox::Mailbox`] holds its port
//! table and the queues behind its ports, handles and receivers are tokens
//! that name a port, and every operation takes the mailbox it works on.

pub mod order;
pub mod text;
pub mod reference;
pub mod data;
pub mod attrs;
pub mod error;
pub mod envelope;
pub mod accum;
pub mod port;
pub mod portref;
pub mod sender;
pub mod mailbox;
pub mod handle;
pub mod muxer;
pub mod router;
pub mod client;
pub mod server;
pub mod dial;
pub mod portsink;
pub mod multicast;
pub mod laws;
