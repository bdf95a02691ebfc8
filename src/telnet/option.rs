//! Option codes negotiated by this server.
use vstd::prelude::*;

verus! {

/// The terminal-type option.
pub const TERMINAL_TYPE: u8 = 24;

/// The negotiate-about-window-size option.
pub const NEGO_WIN_SIZE: u8 = 31;

} // verus!
