//! The address of a frame and the counter of transactions.

use vstd::prelude::*;

use crate::error::details::ADUParseError;
use crate::types::UnitId;

verus! {

/// What a frame says beside its protocol data unit.
#[derive(Clone, Copy, Debug, PartialEq, Eq, Structural)]
pub struct FrameHeader {
    /// the unit that the frame is for, or from
    pub unit_id: UnitId,
    /// the transaction that the frame belongs to
    pub tx_id: u16,
}

impl FrameHeader {
    pub fn new(unit_id: UnitId, tx_id: u16) -> (header: Self)
        ensures
            header.unit_id == unit_id,
            header.tx_id == tx_id,
    {
        FrameHeader { unit_id, tx_id }
    }
}

/// Counter of transactions: 16 bits, wrapping from `0xFFFF` to 0.
#[derive(Clone, Copy, Debug, PartialEq, Eq, Structural)]
pub struct TxId {
    value: u16,
}

/// The identifier that follows `value`.
pub open spec fn spec_next_tx_id(value: u16) -> u16 {
    if value == 0xFFFF {
        0
    } else {
        (value + 1) as u16
    }
}

impl TxId {
    /// The identifier that the next transaction gets.
    pub closed spec fn view(&self) -> u16 {
        self.value
    }

    /// A counter that starts at `seed`.
    pub fn new(seed: u16) -> (id: Self)
        ensures
            id@ == seed,
    {
        TxId { value: seed }
    }

    /// Takes the identifier of the next transaction and steps the counter.
    pub fn next(&mut self) -> (id: u16)
        ensures
            id == old(self)@,
            final(self)@ == spec_next_tx_id(old(self)@),
    {
        let id: u16 = self.value;
        if self.value == u16::MAX {
            self.value = 0;
        } else {
            self.value = self.value + 1;
        }
        id
    }
}

/// Holds the transaction of a response against that of its request: a
/// response to another transaction is `BadTransactionId`.
pub fn check_tx_id(expected: u16, actual: u16) -> (r: Result<(), ADUParseError>)
    ensures
        expected == actual ==> r.is_ok(),
        expected != actual ==> r == Err::<(), ADUParseError>(ADUParseError::BadTransactionId),
{
    if expected == actual {
        Ok(())
    } else {
        Err(ADUParseError::BadTransactionId)
    }
}

} // verus!
