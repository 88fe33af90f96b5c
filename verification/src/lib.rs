//! A client library for the Tibber live-measurement feed.
//!
//! The feed is a GraphQL subscription carried over a WebSocket. This crate
//! holds everything about it that can be decided without touching the
//! network: which messages to send, how an inbound frame is read, which
//! points go to the time-series sink, and when a session ends. Each of these
//! is executable code whose behaviour is stated in a contract and proved.

pub mod v1;
