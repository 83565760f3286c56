//! A minimal TCP protocol engine for one connection: the sequence-number
//! spaces of both sides, the circular ordering of sequence numbers, the
//! acceptance test for inbound segments, the connection state machine and
//! the construction of outgoing frames.
//!
//! The engine performs no I/O. Every frame that it wants transmitted is
//! appended to an outbox supplied by the caller, which hands the frames to
//! the raw frame device.
pub mod seqnum;
pub mod space;
pub mod segment;
pub mod wire;
pub mod connection;
pub mod lemmas;
