//! Framing over serial lines.

pub mod crc;
pub mod frame;
