//! Byte-level helpers: bit arithmetic and cursors over byte windows.

pub mod bits;
pub mod cursor;
