//! What is fixed about the game: its executable, the tracked quantities and
//! where they live, the two polling rates and the time a run starts at.

use vstd::prelude::*;

verus! {

/// Name of the game's executable, which is also the module the paths start from.
pub const MAIN_MODULE: &'static str = "mdk2Main.exe";

/// Game time, in milliseconds, that the timer is set to when a run starts.
pub const START_TIME_MS: i64 = 1231;

/// Polling rate, in ticks per second, while no game is attached.
pub const SLOW_TICK_RATE: u32 = 10;

/// Polling rate, in ticks per second, while a game is attached.
pub const FAST_TICK_RATE: u32 = 120;

/// Offsets from the main module's base to the loading flag.
pub const LOADING_PATH: [u64; 1] = [0x1D1224];

/// Offsets from the main module's base to the level number.
pub const LEVEL_PATH: [u64; 1] = [0xBB724];

/// Offsets from the main module's base to the sublevel number.
pub const SUBLEVEL_PATH: [u64; 1] = [0xBBA8C];

/// Offsets from the main module's base to the music track.
pub const MUSIC_PATH: [u64; 1] = [0xBC364];

/// How often the host is asked to tick.
#[derive(Clone, Copy, Debug, PartialEq, Eq, Structural)]
pub enum TickRate {
    /// Waiting for the game to launch.
    Slow,
    /// Attached to the game.
    Fast,
}

impl TickRate {
    /// The rate in ticks per second.
    pub open spec fn spec_hertz(self) -> u32 {
        match self {
            TickRate::Slow => SLOW_TICK_RATE,
            TickRate::Fast => FAST_TICK_RATE,
        }
    }

    /// The rate in ticks per second.
    #[verifier::when_used_as_spec(spec_hertz)]
    pub fn hertz(self) -> (hz: u32)
        ensures
            hz == self.spec_hertz(),
    {
        match self {
            TickRate::Slow => SLOW_TICK_RATE,
            TickRate::Fast => FAST_TICK_RATE,
        }
    }
}

/// A value of the game that is sampled every tick.
#[derive(Clone, Copy, Debug, PartialEq, Eq, Structural)]
pub enum Quantity {
    Loading,
    Level,
    Sublevel,
    Music,
}

impl Quantity {
    /// The name the quantity is published under.
    pub open spec fn spec_name(self) -> Seq<char> {
        match self {
            Quantity::Loading => "Loading"@,
            Quantity::Level => "Level"@,
            Quantity::Sublevel => "Sublevel"@,
            Quantity::Music => "Music"@,
        }
    }

    /// The offsets that lead from the main module's base to the quantity.
    pub open spec fn spec_path(self) -> Seq<u64> {
        match self {
            Quantity::Loading => LOADING_PATH@,
            Quantity::Level => LEVEL_PATH@,
            Quantity::Sublevel => SUBLEVEL_PATH@,
            Quantity::Music => MUSIC_PATH@,
        }
    }

    /// The quantity sampled after this one, if any.
    pub open spec fn spec_following(self) -> Option<Quantity> {
        match self {
            Quantity::Loading => Some(Quantity::Level),
            Quantity::Level => Some(Quantity::Sublevel),
            Quantity::Sublevel => Some(Quantity::Music),
            Quantity::Music => None,
        }
    }

    /// The quantity every refresh begins with.
    pub open spec fn spec_first() -> Quantity {
        Quantity::Loading
    }

    /// The name the quantity is published under.
    pub fn name(self) -> (name: &'static str)
        ensures
            name@ == self.spec_name(),
    {
        match self {
            Quantity::Loading => "Loading",
            Quantity::Level => "Level",
            Quantity::Sublevel => "Sublevel",
            Quantity::Music => "Music",
        }
    }

    /// The offsets that lead from the main module's base to the quantity.
    pub fn path(self) -> (path: &'static [u64])
        ensures
            path@ == self.spec_path(),
            path@.len() == 1,
    {
        match self {
            Quantity::Loading => (&LOADING_PATH).as_slice(),
            Quantity::Level => (&LEVEL_PATH).as_slice(),
            Quantity::Sublevel => (&SUBLEVEL_PATH).as_slice(),
            Quantity::Music => (&MUSIC_PATH).as_slice(),
        }
    }

    /// The quantity sampled after this one, if any.
    #[verifier::when_used_as_spec(spec_following)]
    pub fn following(self) -> (next: Option<Quantity>)
        ensures
            next == self.spec_following(),
    {
        match self {
            Quantity::Loading => Some(Quantity::Level),
            Quantity::Level => Some(Quantity::Sublevel),
            Quantity::Sublevel => Some(Quantity::Music),
            Quantity::Music => None,
        }
    }

    /// The quantity every refresh begins with.
    #[verifier::when_used_as_spec(spec_first)]
    pub fn first() -> (first: Quantity)
        ensures
            first == Quantity::spec_first(),
    {
        Quantity::Loading
    }
}

} // verus!
