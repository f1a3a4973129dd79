//! The three background loops of a connection, as state machines.
//!
//! Each loop of the running client alternates between waiting (for a queue,
//! for the socket) and deciding. The waiting belongs to the runtime. The
//! deciding is here: a step takes the state of the loop and what the wait
//! brought, and returns the next state and what to do.

pub mod callbacks;
pub mod receiver;
pub mod sender;

use vstd::prelude::*;

verus! {

/// Whether a loop still runs. A stopped loop never runs again.
#[derive(Debug, Clone, Copy, PartialEq, Eq, Structural)]
pub enum LoopState {
    Running,
    Stopped,
}

} // verus!
