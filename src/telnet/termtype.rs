//! Subcommands of the terminal-type option.
use vstd::prelude::*;

verus! {

/// The client reports its terminal type.
pub const IS: u8 = 0;

/// The server asks the client to report its terminal type.
pub const SEND: u8 = 1;

} // verus!
