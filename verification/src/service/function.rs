//! Function codes and the function byte of an exception response.

use vstd::prelude::*;

use crate::constants::exceptions::ERROR_DELIMITER;

verus! {

/// The function byte with which a server reports an exception to a
/// request with function byte `function`.
pub open spec fn spec_exception_function(function: u8) -> u8 {
    function | ERROR_DELIMITER
}

/// Whether a function byte marks an exception response.
pub open spec fn spec_is_exception_function(function: u8) -> bool {
    function & ERROR_DELIMITER != 0
}

/// For a function byte from 1 to 127, the exception byte is the function
/// byte with the high bit set: it is marked as an exception, lies 128
/// above the function byte, and gives the function byte back when the
/// mark is cleared; so no two function bytes share an exception byte, and
/// none is its own.
pub proof fn lemma_exception_function(function: u8)
    requires
        1 <= function <= 127,
    ensures
        spec_is_exception_function(spec_exception_function(function)),
        !spec_is_exception_function(function),
        spec_exception_function(function) == function + 128,
        spec_exception_function(function) & 0x7F == function,
        spec_exception_function(function) != function,
{
    assert(1 <= function <= 127 ==> (function | 0x80) & 0x80 != 0 && function & 0x80 == 0 && (
    function | 0x80) == function + 128 && (function | 0x80) & 0x7F == function) by (bit_vector);
}

/// The functions that this library serves.
#[derive(Clone, Copy, Debug, PartialEq, Eq, Structural)]
pub enum FunctionCode {
    ReadCoils,
    ReadDiscreteInputs,
    ReadHoldingRegisters,
    ReadInputRegisters,
    WriteSingleCoil,
    WriteSingleRegister,
    WriteMultipleCoils,
    WriteMultipleRegisters,
}

impl FunctionCode {
    /// The function byte on the wire.
    pub open spec fn spec_value(self) -> u8 {
        match self {
            FunctionCode::ReadCoils => 1,
            FunctionCode::ReadDiscreteInputs => 2,
            FunctionCode::ReadHoldingRegisters => 3,
            FunctionCode::ReadInputRegisters => 4,
            FunctionCode::WriteSingleCoil => 5,
            FunctionCode::WriteSingleRegister => 6,
            FunctionCode::WriteMultipleCoils => 15,
            FunctionCode::WriteMultipleRegisters => 16,
        }
    }

    /// The function that a byte stands for, if any.
    pub open spec fn spec_get(value: u8) -> Option<FunctionCode> {
        if value == 1 {
            Some(FunctionCode::ReadCoils)
        } else if value == 2 {
            Some(FunctionCode::ReadDiscreteInputs)
        } else if value == 3 {
            Some(FunctionCode::ReadHoldingRegisters)
        } else if value == 4 {
            Some(FunctionCode::ReadInputRegisters)
        } else if value == 5 {
            Some(FunctionCode::WriteSingleCoil)
        } else if value == 6 {
            Some(FunctionCode::WriteSingleRegister)
        } else if value == 15 {
            Some(FunctionCode::WriteMultipleCoils)
        } else if value == 16 {
            Some(FunctionCode::WriteMultipleRegisters)
        } else {
            None
        }
    }

    /// The function byte on the wire.
    pub fn get_value(self) -> (value: u8)
        ensures
            value == self.spec_value(),
            1 <= value <= 127,
    {
        match self {
            FunctionCode::ReadCoils => 1,
            FunctionCode::ReadDiscreteInputs => 2,
            FunctionCode::ReadHoldingRegisters => 3,
            FunctionCode::ReadInputRegisters => 4,
            FunctionCode::WriteSingleCoil => 5,
            FunctionCode::WriteSingleRegister => 6,
            FunctionCode::WriteMultipleCoils => 15,
            FunctionCode::WriteMultipleRegisters => 16,
        }
    }

    /// The function that a byte stands for, or `None` for a byte that
    /// stands for none.
    pub fn get(value: u8) -> (r: Option<FunctionCode>)
        ensures
            r == Self::spec_get(value),
    {
        match value {
            1 => Some(FunctionCode::ReadCoils),
            2 => Some(FunctionCode::ReadDiscreteInputs),
            3 => Some(FunctionCode::ReadHoldingRegisters),
            4 => Some(FunctionCode::ReadInputRegisters),
            5 => Some(FunctionCode::WriteSingleCoil),
            6 => Some(FunctionCode::WriteSingleRegister),
            15 => Some(FunctionCode::WriteMultipleCoils),
            16 => Some(FunctionCode::WriteMultipleRegisters),
            _ => None,
        }
    }

    /// The function byte of an exception response to this function.
    pub fn as_error(self) -> (value: u8)
        ensures
            value == spec_exception_function(self.spec_value()),
            value == self.spec_value() + 128,
    {
        let value: u8 = self.get_value();
        proof {
            lemma_exception_function(value);
        }
        exception_function(value)
    }
}

/// The function byte with which a server reports an exception to a
/// request with function byte `function`.
pub fn exception_function(function: u8) -> (value: u8)
    ensures
        value == spec_exception_function(function),
{
    function | ERROR_DELIMITER
}

/// Whether a function byte marks an exception response.
pub fn is_exception_function(function: u8) -> (b: bool)
    ensures
        b == spec_is_exception_function(function),
{
    (function & ERROR_DELIMITER) != 0
}

/// A function byte stands for the function whose byte it is, and for no
/// other.
pub proof fn lemma_function_code_roundtrip(code: FunctionCode)
    ensures
        FunctionCode::spec_get(code.spec_value()) == Some(code),
{
}

/// A byte that stands for a function is the byte of that function.
pub proof fn lemma_function_code_value(value: u8)
    ensures
        FunctionCode::spec_get(value) matches Some(code) ==> code.spec_value() == value,
{
}

} // verus!
