//! The descriptors that a guest's init process is started with.

use vstd::prelude::*;

verus! {

/// The listener for commands.
pub const EXEC_LISTENER_FD: i32 = 3;

/// The listener for terminals.
pub const PTY_LISTENER_FD: i32 = 4;

/// The log of the init process.
pub const INIT_LOG_FD: i32 = 5;

} // verus!
