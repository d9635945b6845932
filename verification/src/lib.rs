//! A bridge between a datagram network and a half-duplex serial line.
//!
//! The library holds the decisions of the bridge as state machines: each one
//! takes what the outside world reported and answers with the next thing to
//! do. The program around it performs those things on the hardware and the
//! network and reports back.

pub mod codec;
pub mod controller;
pub mod handler;
pub mod message;
pub mod server;
pub mod config;
pub mod supervisor;
