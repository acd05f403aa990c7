//! Wire values of a single coil.

use vstd::prelude::*;

verus! {

/// Wire value of a coil that is on.
pub const ON: u16 = 0xFF00;

/// Wire value of a coil that is off.
pub const OFF: u16 = 0x0000;

} // verus!
