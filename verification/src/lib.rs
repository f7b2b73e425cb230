//! Core logic of a scoreboard network controller.
//!
//! The device joins a wireless network, serves a small HTTP control surface
//! for driving the scoreboard console's output lines, and decodes a serial
//! telemetry stream to keep an in-memory clock current.  This crate holds the
//! decisions that behaviour rests on — frame decoding, route matching,
//! the join retry policy, the output-pulse plan and the connection-pool
//! policy — as verified functions on plain values.  The hardware drivers,
//! the network stack and the cooperative scheduler sit outside and feed
//! these functions their bytes and events.

pub mod config;
pub mod form;
pub mod handlers;
pub mod join;
pub mod latch;
pub mod parse;
pub mod pool;
pub mod radio;
pub mod routes;
pub mod telemetry;
