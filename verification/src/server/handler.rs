//! What a server needs from the application behind it.

use vstd::prelude::*;

use crate::error::details::ExceptionCode;
use crate::types::{AddressRange, Indexed, UnitId, WriteCoils, WriteRegisters};

verus! {

/// The application behind a server: one method for each kind of request.
///
/// A method is called with a request that has been decoded and checked:
/// a range is valid and within the limit of its kind, and a write of
/// several points carries one value for each address. A read answers with
/// one value for each address of the range, or with an exception.
///
/// A handler may say of itself what its methods answer, in the relation
/// that goes with each method; a handler that says nothing lets each hold
/// of every answer. What a server states of its replies, it states in
/// these terms.
pub trait ServerHandler {
    /// Whether `read_coils` may answer a read of `range` for `unit` with
    /// `r`.
    open spec fn answers_read_coils(
        &self,
        range: AddressRange,
        unit: UnitId,
        r: Result<Vec<bool>, ExceptionCode>,
    ) -> bool {
        true
    }

    /// Whether `read_discrete_inputs` may answer a read of `range` for
    /// `unit` with `r`.
    open spec fn answers_read_discrete_inputs(
        &self,
        range: AddressRange,
        unit: UnitId,
        r: Result<Vec<bool>, ExceptionCode>,
    ) -> bool {
        true
    }

    /// Whether `read_holding_registers` may answer a read of `range` for
    /// `unit` with `r`.
    open spec fn answers_read_holding_registers(
        &self,
        range: AddressRange,
        unit: UnitId,
        r: Result<Vec<u16>, ExceptionCode>,
    ) -> bool {
        true
    }

    /// Whether `read_input_registers` may answer a read of `range` for
    /// `unit` with `r`.
    open spec fn answers_read_input_registers(
        &self,
        range: AddressRange,
        unit: UnitId,
        r: Result<Vec<u16>, ExceptionCode>,
    ) -> bool {
        true
    }

    /// Whether `write_single_coil` may answer a write of `value` for
    /// `unit` with `r`.
    open spec fn answers_write_single_coil(
        &self,
        value: Indexed<bool>,
        unit: UnitId,
        r: Result<(), ExceptionCode>,
    ) -> bool {
        true
    }

    /// Whether `write_single_register` may answer a write of `value` for
    /// `unit` with `r`.
    open spec fn answers_write_single_register(
        &self,
        value: Indexed<u16>,
        unit: UnitId,
        r: Result<(), ExceptionCode>,
    ) -> bool {
        true
    }

    /// Whether `write_multiple_coils` may answer a write of `values` to
    /// `range` for `unit` with `r`.
    open spec fn answers_write_multiple_coils(
        &self,
        range: AddressRange,
        values: Seq<bool>,
        unit: UnitId,
        r: Result<(), ExceptionCode>,
    ) -> bool {
        true
    }

    /// Whether `write_multiple_registers` may answer a write of `values`
    /// to `range` for `unit` with `r`.
    open spec fn answers_write_multiple_registers(
        &self,
        range: AddressRange,
        values: Seq<u16>,
        unit: UnitId,
        r: Result<(), ExceptionCode>,
    ) -> bool {
        true
    }

    /// Reads the coils of a range.
    fn read_coils(&mut self, range: AddressRange, unit: UnitId) -> (r: Result<
        Vec<bool>,
        ExceptionCode,
    >)
        requires
            range.valid(),
            range.count <= 2000,
        ensures
            old(self).answers_read_coils(range, unit, r),
    ;

    /// Reads the discrete inputs of a range.
    fn read_discrete_inputs(&mut self, range: AddressRange, unit: UnitId) -> (r: Result<
        Vec<bool>,
        ExceptionCode,
    >)
        requires
            range.valid(),
            range.count <= 2000,
        ensures
            old(self).answers_read_discrete_inputs(range, unit, r),
    ;

    /// Reads the holding registers of a range.
    fn read_holding_registers(&mut self, range: AddressRange, unit: UnitId) -> (r: Result<
        Vec<u16>,
        ExceptionCode,
    >)
        requires
            range.valid(),
            range.count <= 125,
        ensures
            old(self).answers_read_holding_registers(range, unit, r),
    ;

    /// Reads the input registers of a range.
    fn read_input_registers(&mut self, range: AddressRange, unit: UnitId) -> (r: Result<
        Vec<u16>,
        ExceptionCode,
    >)
        requires
            range.valid(),
            range.count <= 125,
        ensures
            old(self).answers_read_input_registers(range, unit, r),
    ;

    /// Writes one coil.
    fn write_single_coil(&mut self, value: Indexed<bool>, unit: UnitId) -> (r: Result<
        (),
        ExceptionCode,
    >)
        ensures
            old(self).answers_write_single_coil(value, unit, r),
    ;

    /// Writes one register.
    fn write_single_register(&mut self, value: Indexed<u16>, unit: UnitId) -> (r: Result<
        (),
        ExceptionCode,
    >)
        ensures
            old(self).answers_write_single_register(value, unit, r),
    ;

    /// Writes the coils of a range.
    fn write_multiple_coils<'a>(&mut self, values: WriteCoils<'a>, unit: UnitId) -> (r: Result<
        (),
        ExceptionCode,
    >)
        requires
            values.range.valid(),
            values.range.count <= 1968,
            values.iterator.spec_range() == values.range,
            values.iterator@.len() == values.range.count,
        ensures
            old(self).answers_write_multiple_coils(values.range, values.iterator@, unit, r),
    ;

    /// Writes the registers of a range.
    fn write_multiple_registers<'a>(
        &mut self,
        values: WriteRegisters<'a>,
        unit: UnitId,
    ) -> (r: Result<(), ExceptionCode>)
        requires
            values.range.valid(),
            values.range.count <= 123,
            values.iterator.spec_range() == values.range,
            values.iterator@.len() == values.range.count,
        ensures
            old(self).answers_write_multiple_registers(values.range, values.iterator@, unit, r),
    ;
}

} // verus!
