//! Transport and session layer of a small RPC server: admission of
//! connections against a limit, framing of the byte stream, negotiation of
//! message kind, codec and compression through metadata, the per-connection
//! session that correlates requests and responses by id, and the bookkeeping
//! that lets shutdown wait for every session to finish.

pub mod acceptor;
pub mod connection;
pub mod frame;
pub mod metadata;
pub mod request;
pub mod response;
pub mod server;
pub mod session;
pub mod shutdown;
