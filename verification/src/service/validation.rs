//! Checks made on a request before any byte is sent.

pub mod range;
