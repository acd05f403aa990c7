//! The services of the protocol: function codes, validation of requests,
//! and the encoding and decoding of their bodies.

pub mod function;
pub mod serialization;
pub mod traits;
pub mod validation;
