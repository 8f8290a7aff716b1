//! The kinds of frame.

use vstd::prelude::*;

verus! {

pub const HANDSHAKE: u32 = 0;

pub const FRAME: u32 = 1;

pub const CLOSE: u32 = 2;

pub const PING: u32 = 3;

pub const PONG: u32 = 4;

} // verus!
