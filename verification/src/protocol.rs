//! What passes between the controller and the plugin that embeds it.

use vstd::prelude::*;
use crate::config::{Quantity, TickRate};

verus! {

/// Something for the plugin to do to the timer or the host; nothing comes back.
#[derive(Clone, Copy, Debug, PartialEq, Eq, Structural)]
pub enum Command {
    /// Ask the host to tick at this rate from now on.
    SetTickRate(TickRate),
    /// Show the latest sample of a quantity under the quantity's name.
    SetVariable(Quantity, i32),
    /// Set the timer's game time, in milliseconds.
    SetGameTime(i64),
    /// Start the timer.
    Start,
    /// Stop game time from running.
    PauseGameTime,
    /// Let game time run again.
    ResumeGameTime,
}

/// Something for the plugin to find out; the answer is the next event.
#[derive(Clone, Copy, Debug, PartialEq, Eq, Structural)]
pub enum Request {
    /// Look for the game and attach to it.
    Attach,
    /// Ask whether the attached game still runs.
    IsOpen,
    /// Look up where the game's main module is loaded.
    ModuleAddress,
    /// Read a 64-bit pointer at this address of the game.
    ReadPointer(u64),
    /// Read a 32-bit signed value at this address of the game.
    ReadValue(u64),
}

/// What a look into the game's memory gave; `None` where it failed.
#[derive(Clone, Copy, Debug, PartialEq, Eq, Structural)]
pub enum Reading {
    /// Answer to [`Request::ModuleAddress`].
    ModuleAddress(Option<u64>),
    /// Answer to [`Request::ReadPointer`].
    Pointer(Option<u64>),
    /// Answer to [`Request::ReadValue`].
    Value(Option<i32>),
}

/// What the plugin reports to the controller.  `H` is the plugin's handle on
/// the attached game; the controller keeps it and never looks inside.
pub enum Event<H> {
    /// The host ticked.
    Tick,
    /// Answer to [`Request::Attach`]: the handle, if the game was found.
    Attached(Option<H>),
    /// Answer to [`Request::IsOpen`].
    Open(bool),
    /// Answer to one of the requests that look into the game's memory.
    Memory(Reading),
}

/// The controller's answer to an event: commands to carry out in order, then
/// at most one request.  Without a request the tick is over.
pub struct Reaction {
    pub commands: Vec<Command>,
    pub request: Option<Request>,
}

} // verus!
