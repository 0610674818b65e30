//! A unified transport abstraction: one tagged type over a plain and an
//! encrypted byte-stream endpoint, exposing a single read/write/shutdown
//! surface so that callers never branch on which transport is active.
//!
//! The transports are modelled as in-memory endpoints whose state (delivered
//! bytes, send room, wakeup registrations, shutdown progress) is plain data,
//! so that every operation of the unified surface carries a proved contract.
//! The surrounding application wires the same surface to real sockets.
//!
//! Convention: end-of-stream and "not ready" are distinct outcomes. A read
//! at end-of-stream is a zero-byte success (`Ok(0)`, or `Ready` with zero
//! bytes), while a read that must wait answers the would-block error from
//! the blocking-style operation and `NotReady` from the cooperative one —
//! a zero-byte success never means "try again".

pub mod buffer;
pub mod laws;
pub mod outcome;
pub mod stream_type;
pub mod tcp;
pub mod tls;
