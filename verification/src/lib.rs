//! A latency-instrumented TCP relay core.
//!
//! The crate holds the verified heart of a single-threaded proxy that sits
//! between a client and a fixed backend, forwards a request/response protocol
//! byte-for-byte, and measures how much of each round trip is spent on either
//! side of the conversation.  All socket, clock and logging work is performed
//! by the surrounding program; the functions here take the outcome of each
//! non-blocking operation as a plain value and return, with a proved contract,
//! the next state together with instructions for what to re-arm and which
//! latency samples to record.

pub mod metrics;

pub mod connection;

pub mod server;

pub mod proxy;

pub mod client;
