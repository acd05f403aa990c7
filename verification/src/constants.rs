//! Numeric constants of the Modbus application protocol.

pub mod coil;
pub mod exceptions;
pub mod frame;
pub mod limits;
