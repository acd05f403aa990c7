//! Framing over TCP and TLS, and what is decided of certificates.

pub mod der;
pub mod frame;
pub mod tls;
