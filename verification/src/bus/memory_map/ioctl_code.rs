//! The ioctl request codes of the register-map device file.

use vstd::prelude::*;

verus! {

/// Writes the payload that follows the header of the buffer.
pub const WRITE: i32 = 1200;

/// Reads into the buffer, behind its header.
pub const READ: i32 = 1201;

} // verus!
