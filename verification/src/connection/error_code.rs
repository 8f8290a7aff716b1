//! The codes a stream error carries.

use vstd::prelude::*;

verus! {

pub const PIPE_CLOSED: u8 = 1;

pub const READ_CORRUPT: u8 = 2;

} // verus!
