//! FPGA memory offsets.

use vstd::prelude::*;

verus! {

/// Identity and clock registers.
pub const CONF: u16 = 0x0000;

/// Pin maps and PWM banks.
pub const GPIO: u16 = 0x4000;

} // verus!
