//! Modbus protocol engine: value types, request validation, bit-exact
//! encoding and decoding of protocol data units, MBAP and RTU framing, the
//! dispatcher of a server, and the task of a client channel as a machine
//! that a runner drives. Every executable function carries a contract over
//! a mathematical model of the bytes on the wire and of the state held.

pub mod client;
pub mod common;
pub mod constants;
pub mod error;
pub mod serial;
pub mod server;
pub mod service;
pub mod tcp;
pub mod types;
pub mod util;
