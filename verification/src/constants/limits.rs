//! Largest counts that one request may carry, per kind of request.

use vstd::prelude::*;

verus! {

/// Most coils or discrete inputs that one read may ask for.
pub const MAX_READ_COILS_COUNT: u16 = 0x07D0;

/// Most holding or input registers that one read may ask for.
pub const MAX_READ_REGISTERS_COUNT: u16 = 0x007D;

/// Most coils that one write may carry.
pub const MAX_WRITE_COILS_COUNT: u16 = 0x07B0;

/// Most registers that one write may carry.
pub const MAX_WRITE_REGISTERS_COUNT: u16 = 0x007B;

} // verus!
