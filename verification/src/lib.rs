//! Core logic of a plain TCP tunnel: the topology state machine that pairs
//! two transport endpoints (accepted or dialed), the retry policy on dial
//! failure, the lazy-dial gate that delays the downstream dial until the
//! upstream peer shows data, and the byte-fidelity model of the duplex relay.
//!
//! All network I/O is performed by the surrounding binary; this crate decides,
//! step by step, what that binary must do next, and proves the properties the
//! tunnel is supposed to have.

pub mod controller;
pub mod options;
pub mod relay;
