//! The lifecycle controller and the memory sampler inside it.
//!
//! A tick runs through up to four phases: attach or check that the game still
//! runs, look up the main module, sample the quantities one by one, and
//! finally tell the timer what to do.  Each phase ends with a request to the
//! plugin, and the plugin's answer starts the next.

use vstd::prelude::*;
use crate::config::{Quantity, TickRate, START_TIME_MS};
use crate::protocol::{Command, Event, Reaction, Reading, Request};
use crate::resolver::{ReadKind, Walk};
use crate::watcher::Pair;

verus! {

/// The watchers of the four quantities.
#[derive(Clone, Copy, Debug, PartialEq, Eq, Structural)]
pub struct MemoryValues {
    pub loading: Pair,
    pub level: Pair,
    pub sublevel: Pair,
    pub music: Pair,
}

impl MemoryValues {
    /// The watchers before anything was sampled.
    pub open spec fn zero() -> MemoryValues {
        MemoryValues {
            loading: Pair::zero(),
            level: Pair::zero(),
            sublevel: Pair::zero(),
            music: Pair::zero(),
        }
    }

    /// The watcher of a quantity.
    pub open spec fn spec_get(self, quantity: Quantity) -> Pair {
        match quantity {
            Quantity::Loading => self.loading,
            Quantity::Level => self.level,
            Quantity::Sublevel => self.sublevel,
            Quantity::Music => self.music,
        }
    }

    /// These watchers with the one of `quantity` replaced.
    pub open spec fn with(self, quantity: Quantity, pair: Pair) -> MemoryValues {
        match quantity {
            Quantity::Loading => MemoryValues { loading: pair, ..self },
            Quantity::Level => MemoryValues { level: pair, ..self },
            Quantity::Sublevel => MemoryValues { sublevel: pair, ..self },
            Quantity::Music => MemoryValues { music: pair, ..self },
        }
    }

    /// These watchers after `quantity` was sampled as `value`.
    pub open spec fn sampled(self, quantity: Quantity, value: i32) -> MemoryValues {
        self.with(quantity, self.spec_get(quantity).updated(value))
    }

    /// A run starts while the first level's ninth sublevel is loading.
    pub open spec fn spec_start_condition(self) -> bool {
        self.level.current == 1 && self.sublevel.current == 9 && self.loading.current == 1
    }

    /// Whether the game shows a loading screen.
    pub open spec fn spec_is_loading(self) -> bool {
        self.loading.current == 1
    }

    /// What the timer is told once all quantities were sampled: to start from
    /// the fixed start time where a run starts, and in any case to pause game
    /// time during a loading screen and to let it run otherwise.
    pub open spec fn timer_commands(self) -> Seq<Command> {
        let start = if self.spec_start_condition() {
            seq![Command::SetGameTime(START_TIME_MS), Command::Start]
        } else {
            Seq::empty()
        };
        let pace = if self.spec_is_loading() {
            Command::PauseGameTime
        } else {
            Command::ResumeGameTime
        };
        start.push(pace)
    }

    /// The watchers before anything was sampled.
    pub fn new() -> (values: MemoryValues)
        ensures
            values == MemoryValues::zero(),
    {
        MemoryValues {
            loading: Pair::new(),
            level: Pair::new(),
            sublevel: Pair::new(),
            music: Pair::new(),
        }
    }

    /// The watcher of a quantity.
    #[verifier::when_used_as_spec(spec_get)]
    pub fn get(self, quantity: Quantity) -> (pair: Pair)
        ensures
            pair == self.spec_get(quantity),
    {
        match quantity {
            Quantity::Loading => self.loading,
            Quantity::Level => self.level,
            Quantity::Sublevel => self.sublevel,
            Quantity::Music => self.music,
        }
    }

    /// Whether a run starts: level 1, sublevel 9, loading.
    #[verifier::when_used_as_spec(spec_start_condition)]
    pub fn start_condition(self) -> (start: bool)
        ensures
            start == self.spec_start_condition(),
    {
        self.level.current == 1 && self.sublevel.current == 9 && self.loading.current == 1
    }

    /// Whether the game shows a loading screen.
    #[verifier::when_used_as_spec(spec_is_loading)]
    pub fn is_loading(self) -> (loading: bool)
        ensures
            loading == self.spec_is_loading(),
    {
        self.loading.current == 1
    }

    /// Pushes a successful sample of `quantity` through its watcher and hands
    /// back the command that publishes it.
    pub fn record(&mut self, quantity: Quantity, value: i32) -> (command: Command)
        ensures
            *final(self) == old(self).sampled(quantity, value),
            command == Command::SetVariable(quantity, value),
    {
        match quantity {
            Quantity::Loading => update_pair_i32(quantity, value, &mut self.loading),
            Quantity::Level => update_pair_i32(quantity, value, &mut self.level),
            Quantity::Sublevel => update_pair_i32(quantity, value, &mut self.sublevel),
            Quantity::Music => update_pair_i32(quantity, value, &mut self.music),
        }
    }

    /// Appends the timer's commands for these values to `commands`.
    pub fn decide(self, commands: &mut Vec<Command>)
        ensures
            final(commands)@ == old(commands)@ + self.timer_commands(),
    {
        if self.start_condition() {
            commands.push(Command::SetGameTime(START_TIME_MS));
            commands.push(Command::Start);
        }
        if self.is_loading() {
            commands.push(Command::PauseGameTime);
        } else {
            commands.push(Command::ResumeGameTime);
        }
        assert(commands@ =~= old(commands)@ + self.timer_commands());
    }
}

/// Stores a new sample in `pair`, whose current sample becomes the old one,
/// and hands back the command that publishes the sample under the quantity's
/// name.
pub fn update_pair_i32(quantity: Quantity, new_value: i32, pair: &mut Pair) -> (command: Command)
    ensures
        *final(pair) == old(pair).updated(new_value),
        command == Command::SetVariable(quantity, new_value),
{
    pair.update(new_value);
    Command::SetVariable(quantity, new_value)
}

/// Where in a tick the controller is, that is, which answer it waits for.
#[derive(Clone, Copy, Debug, PartialEq, Eq, Structural)]
pub enum Phase {
    /// Between two ticks.
    Idle,
    /// Waiting for the answer to [`Request::Attach`].
    Attaching,
    /// Waiting for the answer to [`Request::IsOpen`].
    CheckingOpen,
    /// Waiting for the answer to [`Request::ModuleAddress`].
    ResolvingModule,
    /// Waiting for the read that `walk` asked for on the path of `quantity`,
    /// which starts at `base`.
    Sampling { quantity: Quantity, base: u64, walk: Walk },
}

/// How far a refresh of the watchers has come.
#[derive(Clone, Copy, Debug, PartialEq, Eq, Structural)]
pub enum Progress {
    /// A read is outstanding.
    Pending(Request),
    /// Every quantity had its turn.
    Complete,
    /// The refresh is given up.
    Failed(SampleError),
}

/// Why a refresh was given up.  A read that fails on the way to a quantity is
/// no such reason: it only leaves that quantity stale.
#[derive(Clone, Copy, Debug, PartialEq, Eq, Structural)]
pub enum SampleError {
    /// No game is attached.
    ProcessNotInitialized,
    /// The main module's address could not be had.
    ModuleNotFound,
    /// The reading is not the one that was asked for.
    NotAwaited,
}

impl SampleError {
    /// The error in words.
    pub open spec fn spec_message(self) -> Seq<char> {
        match self {
            SampleError::ProcessNotInitialized => "Process info is not initialized."@,
            SampleError::ModuleNotFound =>
                "Could not get module address when refreshing memory values."@,
            SampleError::NotAwaited => "Reading was not asked for."@,
        }
    }

    /// The error in words.
    pub fn message(self) -> (message: &'static str)
        ensures
            message@ == self.spec_message(),
    {
        match self {
            SampleError::ProcessNotInitialized => "Process info is not initialized.",
            SampleError::ModuleNotFound =>
                "Could not get module address when refreshing memory values.",
            SampleError::NotAwaited => "Reading was not asked for.",
        }
    }
}

/// What one step of a refresh hands back.
pub struct Refresh {
    /// The sample to publish, if the step took one.
    pub commands: Vec<Command>,
    pub progress: Progress,
}

/// The controller.  `H` is the plugin's handle on the attached game.
pub struct State<H> {
    /// Whether the controller has ever ticked.
    pub started_up: bool,
    /// The handle on the game, while attached.
    pub main_process: Option<H>,
    pub values: MemoryValues,
    pub phase: Phase,
}

/// One step of the controller, as a value: the state it leaves, the commands
/// it gives and its request.
pub ghost struct Step<H> {
    pub state: State<H>,
    pub commands: Seq<Command>,
    pub request: Option<Request>,
}

/// One step of a refresh, as a value.
pub ghost struct RefreshStep<H> {
    pub state: State<H>,
    pub commands: Seq<Command>,
    pub progress: Progress,
}

/// The request for the read that `walk` stands before.
pub open spec fn read_request(walk: Walk, path: Seq<u64>) -> Request {
    match walk.spec_kind(path) {
        ReadKind::Pointer => Request::ReadPointer(walk.spec_address(path)),
        ReadKind::Value => Request::ReadValue(walk.spec_address(path)),
    }
}

impl<H> State<H> {
    /// The controller before its first tick.
    pub open spec fn initial() -> State<H> {
        State {
            started_up: false,
            main_process: None,
            values: MemoryValues::zero(),
            phase: Phase::Idle,
        }
    }

    /// Whether a game is attached.
    pub open spec fn spec_is_attached(&self) -> bool {
        self.main_process is Some
    }

    /// What holds of every state the controller can reach: it attaches only
    /// once it has started up, it looks into a game only while one is
    /// attached, and a walk in progress is on its quantity's path.
    pub open spec fn well_formed(self) -> bool {
        &&& self.main_process is Some ==> self.started_up
        &&& match self.phase {
            Phase::Idle => true,
            Phase::Attaching => self.started_up && self.main_process is None,
            Phase::CheckingOpen => self.main_process is Some,
            Phase::ResolvingModule => self.main_process is Some,
            Phase::Sampling { quantity, base, walk } => {
                &&& self.main_process is Some
                &&& walk.in_path(quantity.spec_path())
            },
        }
    }

    /// A step that changes nothing and asks for nothing.
    pub open spec fn ignored(self) -> Step<H> {
        Step { state: self, commands: Seq::empty(), request: None }
    }

    /// The step on a tick of the host: on the very first, slow polling is
    /// asked for; then the game is looked for, or, if one is attached, checked
    /// to be running still.
    pub open spec fn ticked(self) -> Step<H> {
        let commands = if self.started_up {
            Seq::empty()
        } else {
            seq![Command::SetTickRate(TickRate::Slow)]
        };
        if self.main_process is None {
            Step {
                state: State { started_up: true, phase: Phase::Attaching, ..self },
                commands,
                request: Some(Request::Attach),
            }
        } else {
            Step {
                state: State { started_up: true, phase: Phase::CheckingOpen, ..self },
                commands,
                request: Some(Request::IsOpen),
            }
        }
    }

    /// The step on the outcome of an attach attempt: the handle is kept and
    /// fast polling asked for if there is one; either way the tick is over.
    pub open spec fn attached(self, process: Option<H>) -> Step<H> {
        Step {
            state: State { main_process: process, phase: Phase::Idle, ..self },
            commands: if process is Some {
                seq![Command::SetTickRate(TickRate::Fast)]
            } else {
                Seq::empty()
            },
            request: None,
        }
    }

    /// The step on hearing whether the game still runs: if not, the handle is
    /// dropped, slow polling asked for and the tick over; if so, the main
    /// module is looked up.
    pub open spec fn open_checked(self, open: bool) -> Step<H> {
        if open {
            Step {
                state: State { phase: Phase::ResolvingModule, ..self },
                commands: Seq::empty(),
                request: Some(Request::ModuleAddress),
            }
        } else {
            Step {
                state: State { main_process: None, phase: Phase::Idle, ..self },
                commands: seq![Command::SetTickRate(TickRate::Slow)],
                request: None,
            }
        }
    }

    /// The refresh step that asks for the read at `walk` on the path of
    /// `quantity`.
    pub open spec fn reading(
        self,
        base: u64,
        quantity: Quantity,
        walk: Walk,
        commands: Seq<Command>,
    ) -> RefreshStep<H> {
        RefreshStep {
            state: State { phase: Phase::Sampling { quantity, base, walk }, ..self },
            commands,
            progress: Progress::Pending(read_request(walk, quantity.spec_path())),
        }
    }

    /// The refresh step that leaves `quantity` behind, sampled or not: the
    /// next quantity is begun, or the refresh is complete.
    pub open spec fn moved_on(self, base: u64, quantity: Quantity, commands: Seq<Command>)
        -> RefreshStep<H> {
        match quantity.spec_following() {
            Some(next) => self.reading(base, next, Walk::spec_begin(base), commands),
            None => RefreshStep {
                state: State { phase: Phase::Idle, ..self },
                commands,
                progress: Progress::Complete,
            },
        }
    }

    /// The refresh step that gives the refresh up.
    pub open spec fn given_up(self, phase: Phase, error: SampleError) -> RefreshStep<H> {
        RefreshStep {
            state: State { phase, ..self },
            commands: Seq::empty(),
            progress: Progress::Failed(error),
        }
    }

    /// The refresh step on a reading that nothing waits for.
    pub open spec fn not_awaited(self) -> RefreshStep<H> {
        self.given_up(
            self.phase,
            if self.main_process is None {
                SampleError::ProcessNotInitialized
            } else {
                SampleError::NotAwaited
            },
        )
    }

    /// One step of a refresh.
    ///
    /// * The main module's address, while it is waited for, begins the walk
    ///   to the first quantity; its absence gives the refresh up.
    /// * A pointer, while one is waited for, is followed; a failed read
    ///   leaves the quantity's watcher as it is and moves on.
    /// * A value, while it is waited for, goes through the quantity's
    ///   watcher and is published; a failed read leaves the watcher as it is.
    ///   Either way the refresh moves on.
    /// * Any other reading changes nothing and is reported as an error.
    pub open spec fn refreshed(self, reading: Reading) -> RefreshStep<H> {
        match (self.phase, reading) {
            (Phase::ResolvingModule, Reading::ModuleAddress(Some(base))) => self.reading(
                base,
                Quantity::spec_first(),
                Walk::spec_begin(base),
                Seq::empty(),
            ),
            (Phase::ResolvingModule, Reading::ModuleAddress(None)) => self.given_up(
                Phase::Idle,
                SampleError::ModuleNotFound,
            ),
            (Phase::Sampling { quantity, base, walk }, Reading::Pointer(pointer)) => {
                if walk.spec_kind(quantity.spec_path()) == ReadKind::Pointer {
                    match pointer {
                        Some(address) => self.reading(
                            base,
                            quantity,
                            walk.spec_advanced(address),
                            Seq::empty(),
                        ),
                        None => self.moved_on(base, quantity, Seq::empty()),
                    }
                } else {
                    self.not_awaited()
                }
            },
            (Phase::Sampling { quantity, base, walk }, Reading::Value(value)) => {
                if walk.spec_kind(quantity.spec_path()) == ReadKind::Value {
                    match value {
                        Some(sample) => State {
                            values: self.values.sampled(quantity, sample),
                            ..self
                        }.moved_on(base, quantity, seq![Command::SetVariable(quantity, sample)]),
                        None => self.moved_on(base, quantity, Seq::empty()),
                    }
                } else {
                    self.not_awaited()
                }
            },
            _ => self.not_awaited(),
        }
    }

    /// The step on a reading: one step of the refresh, and once that is
    /// complete, the timer's commands for the refreshed values.
    pub open spec fn memory_read(self, reading: Reading) -> Step<H> {
        let refresh = self.refreshed(reading);
        match refresh.progress {
            Progress::Pending(request) => Step {
                state: refresh.state,
                commands: refresh.commands,
                request: Some(request),
            },
            Progress::Complete => Step {
                state: refresh.state,
                commands: refresh.commands + refresh.state.values.timer_commands(),
                request: None,
            },
            Progress::Failed(_) => Step {
                state: refresh.state,
                commands: refresh.commands,
                request: None,
            },
        }
    }

    /// One step of the controller.  A tick is taken in any phase and begins
    /// afresh; an answer is taken in the phase that waits for it and ignored
    /// in any other.
    pub open spec fn step(self, event: Event<H>) -> Step<H> {
        match event {
            Event::Tick => self.ticked(),
            Event::Attached(process) => if self.phase == Phase::Attaching {
                self.attached(process)
            } else {
                self.ignored()
            },
            Event::Open(open) => if self.phase == Phase::CheckingOpen {
                self.open_checked(open)
            } else {
                self.ignored()
            },
            Event::Memory(reading) => self.memory_read(reading),
        }
    }

    /// The controller before its first tick.
    pub fn new() -> (state: State<H>)
        ensures
            state == State::<H>::initial(),
            state.well_formed(),
    {
        State {
            started_up: false,
            main_process: None,
            values: MemoryValues::new(),
            phase: Phase::Idle,
        }
    }

    /// Whether a game is attached.
    #[verifier::when_used_as_spec(spec_is_attached)]
    pub fn is_attached(&self) -> (attached: bool)
        ensures
            attached == self.spec_is_attached(),
    {
        self.main_process.is_some()
    }

    /// Marks the controller as started up and hands back the command for slow
    /// polling.
    pub fn startup(&mut self) -> (command: Command)
        ensures
            *final(self) == (State { started_up: true, ..*old(self) }),
            command == Command::SetTickRate(TickRate::Slow),
    {
        self.started_up = true;
        Command::SetTickRate(TickRate::Slow)
    }

    /// The command for fast polling, given on attaching.
    pub fn init(&self) -> (command: Command)
        ensures
            command == Command::SetTickRate(TickRate::Fast),
    {
        Command::SetTickRate(TickRate::Fast)
    }

    /// Whether the state is one the controller can reach.
    pub fn is_well_formed(&self) -> (ok: bool)
        ensures
            ok == self.well_formed(),
    {
        let attached = self.main_process.is_some();
        if attached && !self.started_up {
            return false;
        }
        match self.phase {
            Phase::Idle => true,
            Phase::Attaching => self.started_up && !attached,
            Phase::CheckingOpen => attached,
            Phase::ResolvingModule => attached,
            Phase::Sampling { quantity, base, walk } => {
                let path = quantity.path();
                attached && walk.hop < path.len()
            },
        }
    }

    /// The outcome of a reading that nothing waits for.
    fn stray(&self) -> (progress: Progress)
        ensures
            progress == self.not_awaited().progress,
    {
        if self.main_process.is_none() {
            Progress::Failed(SampleError::ProcessNotInitialized)
        } else {
            Progress::Failed(SampleError::NotAwaited)
        }
    }

    /// Waits for the read at `walk` on the path of `quantity`.
    fn read_next(&mut self, base: u64, quantity: Quantity, walk: Walk) -> (request: Request)
        requires
            walk.in_path(quantity.spec_path()),
        ensures
            *final(self) == old(self).reading(base, quantity, walk, Seq::empty()).state,
            Progress::Pending(request) == old(self).reading(
                base,
                quantity,
                walk,
                Seq::empty(),
            ).progress,
    {
        let path = quantity.path();
        let address = walk.address(path);
        self.phase = Phase::Sampling { quantity, base, walk };
        match walk.kind(path) {
            ReadKind::Pointer => Request::ReadPointer(address),
            ReadKind::Value => Request::ReadValue(address),
        }
    }

    /// Leaves `quantity` behind.
    fn move_on(&mut self, base: u64, quantity: Quantity) -> (progress: Progress)
        ensures
            *final(self) == old(self).moved_on(base, quantity, Seq::empty()).state,
            progress == old(self).moved_on(base, quantity, Seq::empty()).progress,
    {
        match quantity.following() {
            Some(next) => Progress::Pending(self.read_next(base, next, Walk::begin(base))),
            None => {
                self.phase = Phase::Idle;
                Progress::Complete
            },
        }
    }

    /// Takes one reading of the game's memory into the watchers.
    pub fn refresh_mem_values(&mut self, reading: Reading) -> (refresh: Refresh)
        requires
            old(self).well_formed(),
        ensures
            final(self).well_formed(),
            *final(self) == old(self).refreshed(reading).state,
            refresh.commands@ == old(self).refreshed(reading).commands,
            refresh.progress == old(self).refreshed(reading).progress,
    {
        let mut commands: Vec<Command> = Vec::new();
        let progress = match (self.phase, reading) {
            (Phase::ResolvingModule, Reading::ModuleAddress(Some(base))) => Progress::Pending(
                self.read_next(base, Quantity::first(), Walk::begin(base)),
            ),
            (Phase::ResolvingModule, Reading::ModuleAddress(None)) => {
                self.phase = Phase::Idle;
                Progress::Failed(SampleError::ModuleNotFound)
            },
            (Phase::Sampling { quantity, base, walk }, Reading::Pointer(pointer)) => {
                let path = quantity.path();
                match walk.kind(path) {
                    ReadKind::Pointer => match pointer {
                        Some(address) => {
                            let next = walk.advance(address, path);
                            Progress::Pending(self.read_next(base, quantity, next))
                        },
                        None => self.move_on(base, quantity),
                    },
                    ReadKind::Value => self.stray(),
                }
            },
            (Phase::Sampling { quantity, base, walk }, Reading::Value(value)) => {
                let path = quantity.path();
                match walk.kind(path) {
                    ReadKind::Value => {
                        if let Some(sample) = value {
                            let command = self.values.record(quantity, sample);
                            commands.push(command);
                        }
                        self.move_on(base, quantity)
                    },
                    ReadKind::Pointer => self.stray(),
                }
            },
            _ => self.stray(),
        };
        assert(commands@ =~= old(self).refreshed(reading).commands);
        Refresh { commands, progress }
    }

    /// Takes one event and says what to do next.
    pub fn update(&mut self, event: Event<H>) -> (reaction: Reaction)
        requires
            old(self).well_formed(),
        ensures
            final(self).well_formed(),
            *final(self) == old(self).step(event).state,
            reaction.commands@ == old(self).step(event).commands,
            reaction.request == old(self).step(event).request,
    {
        let mut commands: Vec<Command> = Vec::new();
        let request = match event {
            Event::Tick => {
                if !self.started_up {
                    let command = self.startup();
                    commands.push(command);
                }
                if self.main_process.is_none() {
                    self.phase = Phase::Attaching;
                    Some(Request::Attach)
                } else {
                    self.phase = Phase::CheckingOpen;
                    Some(Request::IsOpen)
                }
            },
            Event::Attached(process) => {
                if self.phase == Phase::Attaching {
                    if process.is_some() {
                        commands.push(self.init());
                    }
                    self.main_process = process;
                    self.phase = Phase::Idle;
                }
                None
            },
            Event::Open(open) => {
                if self.phase == Phase::CheckingOpen {
                    if open {
                        self.phase = Phase::ResolvingModule;
                        Some(Request::ModuleAddress)
                    } else {
                        commands.push(Command::SetTickRate(TickRate::Slow));
                        self.main_process = None;
                        self.phase = Phase::Idle;
                        None
                    }
                } else {
                    None
                }
            },
            Event::Memory(reading) => {
                let refresh = self.refresh_mem_values(reading);
                commands = refresh.commands;
                match refresh.progress {
                    Progress::Pending(request) => Some(request),
                    Progress::Complete => {
                        self.values.decide(&mut commands);
                        None
                    },
                    Progress::Failed(_) => None,
                }
            },
        };
        assert(commands@ =~= old(self).step(event).commands);
        Reaction { commands, request }
    }
}

} // verus!
