//! A clipboard bridge between a phone and a PC on one local network.
//!
//! The phone pushes text to the PC through a small HTTP listener; the PC
//! offers text that the phone pulls. This crate holds the logic of that
//! bridge: the bounded buffers of the consumer, the outbound slot, the
//! decisions of the listener and the event channels between the two sides.

pub mod bridge;
pub mod buffers;
pub mod cert;
pub mod consumer;
pub mod logger;
pub mod qr;
pub mod server;
pub mod slot;
pub mod text;
