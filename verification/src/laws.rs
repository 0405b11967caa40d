//! What holds of every step of the controller, whatever state it is in and
//! whatever the plugin reports.

use vstd::prelude::*;
use crate::config::{Quantity, TickRate, START_TIME_MS};
use crate::controller::{MemoryValues, Phase, Progress, State};
use crate::protocol::{Command, Event, Reading};
use crate::resolver::ReadKind;

verus! {

/// Whether the step on `event` completes a refresh of the watchers.
pub open spec fn completes_refresh<H>(state: State<H>, event: Event<H>) -> bool {
    match event {
        Event::Memory(reading) => state.refreshed(reading).progress == Progress::Complete,
        _ => false,
    }
}

/// Whether the step on `event` takes a successful sample of `quantity`.
pub open spec fn takes_sample<H>(state: State<H>, event: Event<H>, quantity: Quantity) -> bool {
    match (state.phase, event) {
        (Phase::Sampling { quantity: awaited, base, walk }, Event::Memory(Reading::Value(Some(_)))) => {
            awaited == quantity && walk.spec_kind(quantity.spec_path()) == ReadKind::Value
        },
        _ => false,
    }
}

/// The value that `event` reports, if it reports one.
pub open spec fn reported_value<H>(event: Event<H>) -> i32 {
    match event {
        Event::Memory(Reading::Value(Some(value))) => value,
        _ => 0,
    }
}

/// The polling rate that the host was last asked for, given the rate asked
/// for before `commands`, if any.
pub open spec fn rate_after(rate: Option<TickRate>, commands: Seq<Command>) -> Option<TickRate>
    decreases commands.len(),
{
    if commands.len() == 0 {
        rate
    } else {
        match commands.last() {
            Command::SetTickRate(asked) => Some(asked),
            _ => rate_after(rate, commands.drop_last()),
        }
    }
}

/// Whether the rate asked for is the one that goes with the state: slow
/// without a game, fast with one.  Before the first tick nothing was asked
/// for, and any rate fits.
pub open spec fn rate_fits<H>(state: State<H>, rate: Option<TickRate>) -> bool {
    state.started_up ==> rate == Some(
        if state.main_process is Some {
            TickRate::Fast
        } else {
            TickRate::Slow
        },
    )
}

/// Whether `commands` holds no command on the polling rate.
pub open spec fn keeps_rate(commands: Seq<Command>) -> bool {
    forall|i: int| 0 <= i < commands.len() ==> !(#[trigger] commands[i] is SetTickRate)
}

proof fn lemma_rate_kept(rate: Option<TickRate>, commands: Seq<Command>)
    requires
        keeps_rate(commands),
    ensures
        rate_after(rate, commands) == rate,
    decreases commands.len(),
{
    if commands.len() > 0 {
        assert(!(commands[commands.len() - 1] is SetTickRate));
        lemma_rate_kept(rate, commands.drop_last());
    }
}

proof fn lemma_rate_set(rate: Option<TickRate>, asked: TickRate)
    ensures
        rate_after(rate, seq![Command::SetTickRate(asked)]) == Some(asked),
{
    assert(seq![Command::SetTickRate(asked)].last() == Command::SetTickRate(asked));
}

/// The timer's commands in full: they never touch the polling rate, they end
/// with exactly one of pause and resume, and they hold the start, with the
/// start time set just before it, exactly where a run starts.
pub proof fn lemma_timer_commands(values: MemoryValues)
    ensures
        keeps_rate(values.timer_commands()),
        values.timer_commands().contains(Command::Start) <==> values.spec_start_condition(),
        values.timer_commands().contains(Command::SetGameTime(START_TIME_MS))
            <==> values.spec_start_condition(),
        values.timer_commands().contains(Command::PauseGameTime) <==> values.spec_is_loading(),
        values.timer_commands().contains(Command::ResumeGameTime) <==> !values.spec_is_loading(),
        values.spec_start_condition() ==> values.timer_commands() == seq![
            Command::SetGameTime(START_TIME_MS),
            Command::Start,
            Command::PauseGameTime,
        ],
        !values.spec_start_condition() && values.spec_is_loading() ==> values.timer_commands()
            == seq![Command::PauseGameTime],
        !values.spec_is_loading() ==> values.timer_commands() == seq![Command::ResumeGameTime],
{
    let commands = values.timer_commands();
    if values.spec_start_condition() {
        assert(commands =~= seq![
            Command::SetGameTime(START_TIME_MS),
            Command::Start,
            Command::PauseGameTime,
        ]);
        assert(commands[0] == Command::SetGameTime(START_TIME_MS));
        assert(commands[1] == Command::Start);
        assert(commands[2] == Command::PauseGameTime);
    } else if values.spec_is_loading() {
        assert(commands =~= seq![Command::PauseGameTime]);
        assert(commands[0] == Command::PauseGameTime);
    } else {
        assert(commands =~= seq![Command::ResumeGameTime]);
        assert(commands[0] == Command::ResumeGameTime);
    }
}

/// What a step of a refresh publishes: nothing, or the one sample it took.
proof fn lemma_refresh_commands<H>(state: State<H>, reading: Reading)
    ensures
        state.refreshed(reading).commands.len() <= 1,
        forall|i: int|
            0 <= i < state.refreshed(reading).commands.len() ==> (
            #[trigger] state.refreshed(reading).commands[i]) is SetVariable,
{
}

proof fn lemma_concat_contains(front: Seq<Command>, back: Seq<Command>, command: Command)
    ensures
        (front + back).contains(command) <==> front.contains(command) || back.contains(command),
{
    let both = front + back;
    if front.contains(command) {
        let i = choose|i: int| 0 <= i < front.len() && front[i] == command;
        assert(both[i] == command);
    }
    if back.contains(command) {
        let i = choose|i: int| 0 <= i < back.len() && back[i] == command;
        assert(both[front.len() + i] == command);
    }
    if both.contains(command) {
        let i = choose|i: int| 0 <= i < both.len() && both[i] == command;
        if i < front.len() {
            assert(front[i] == command);
        } else {
            assert(back[i - front.len()] == command);
        }
    }
}

/// Every step leaves the controller well formed.
pub proof fn law_well_formed<H>(state: State<H>, event: Event<H>)
    requires
        state.well_formed(),
    ensures
        state.step(event).state.well_formed(),
{
}

/// The watchers change only by a successful read of a value that was asked
/// for, and then only the watcher of the quantity read: its current sample
/// becomes the old one and the value read the current one.  A failed read,
/// of a pointer or of the value, a missing module and every other event leave
/// all four watchers exactly as they were.
pub proof fn law_samples<H>(state: State<H>, event: Event<H>, quantity: Quantity)
    requires
        state.well_formed(),
    ensures
        state.step(event).state.values.spec_get(quantity) == if takes_sample(
            state,
            event,
            quantity,
        ) {
            state.values.spec_get(quantity).updated(reported_value(event))
        } else {
            state.values.spec_get(quantity)
        },
{
}

/// However many steps fail to sample a quantity, the first that samples it
/// finds the watcher as it was: `current` becomes the value read, and `old`
/// what `current` was before the failures.
pub proof fn law_sample_after_failures<H>(
    state: State<H>,
    events: Seq<Event<H>>,
    last: Event<H>,
    quantity: Quantity,
)
    requires
        state.well_formed(),
        forall|i: int|
            0 <= i < events.len() ==> !takes_sample(
                #[trigger] run(state, events.take(i)),
                events[i],
                quantity,
            ),
        takes_sample(run(state, events), last, quantity),
    ensures
        run(state, events.push(last)).values.spec_get(quantity) == state.values.spec_get(
            quantity,
        ).updated(reported_value(last)),
{
    lemma_run_keeps(state, events, quantity);
    law_run_well_formed(state, events);
    assert(events.push(last).drop_last() =~= events);
    law_samples(run(state, events), last, quantity);
}

/// The state after a run of events, oldest first.
pub open spec fn run<H>(state: State<H>, events: Seq<Event<H>>) -> State<H>
    decreases events.len(),
{
    if events.len() == 0 {
        state
    } else {
        run(state, events.drop_last()).step(events.last()).state
    }
}

/// Every run leaves the controller well formed.
pub proof fn law_run_well_formed<H>(state: State<H>, events: Seq<Event<H>>)
    requires
        state.well_formed(),
    ensures
        run(state, events).well_formed(),
    decreases events.len(),
{
    if events.len() > 0 {
        law_run_well_formed(state, events.drop_last());
        law_well_formed(run(state, events.drop_last()), events.last());
    }
}

proof fn lemma_run_keeps<H>(state: State<H>, events: Seq<Event<H>>, quantity: Quantity)
    requires
        state.well_formed(),
        forall|i: int|
            0 <= i < events.len() ==> !takes_sample(
                #[trigger] run(state, events.take(i)),
                events[i],
                quantity,
            ),
    ensures
        run(state, events).values.spec_get(quantity) == state.values.spec_get(quantity),
    decreases events.len(),
{
    if events.len() > 0 {
        let front = events.drop_last();
        assert forall|i: int| 0 <= i < front.len() implies !takes_sample(
            #[trigger] run(state, front.take(i)),
            front[i],
            quantity,
        ) by {
            assert(front.take(i) =~= events.take(i));
            assert(!takes_sample(run(state, events.take(i)), events[i], quantity));
        }
        lemma_run_keeps(state, front, quantity);
        law_run_well_formed(state, front);
        assert(events.take(events.len() - 1) =~= front);
        assert(!takes_sample(run(state, events.take(events.len() - 1)), events[events.len() - 1], quantity));
        law_samples(run(state, front), events.last(), quantity);
    }
}

/// The timer is started on exactly those steps that complete a refresh and
/// leave the level at 1, the sublevel at 9 and loading at 1; the same steps,
/// and no others, set the game time to the start time.  Nothing is remembered
/// of an earlier start: the step starts the timer again whenever this holds.
pub proof fn law_start<H>(state: State<H>, event: Event<H>)
    requires
        state.well_formed(),
    ensures
        state.step(event).commands.contains(Command::Start) <==> completes_refresh(state, event)
            && state.step(event).state.values.spec_start_condition(),
        state.step(event).commands.contains(Command::SetGameTime(START_TIME_MS))
            <==> completes_refresh(state, event)
            && state.step(event).state.values.spec_start_condition(),
{
    lemma_timer_parts(state, event, Command::Start);
    lemma_timer_parts(state, event, Command::SetGameTime(START_TIME_MS));
    lemma_timer_commands(state.step(event).state.values);
}

/// Game time is paused on exactly those steps that complete a refresh and
/// leave loading at 1, and resumed on exactly those that complete a refresh
/// and leave it at anything else.  A step that completes none, because the
/// refresh failed, is still under way or never began, does neither.
pub proof fn law_pause_resume<H>(state: State<H>, event: Event<H>)
    requires
        state.well_formed(),
    ensures
        state.step(event).commands.contains(Command::PauseGameTime) <==> completes_refresh(
            state,
            event,
        ) && state.step(event).state.values.loading.current == 1,
        state.step(event).commands.contains(Command::ResumeGameTime) <==> completes_refresh(
            state,
            event,
        ) && state.step(event).state.values.loading.current != 1,
{
    lemma_timer_parts(state, event, Command::PauseGameTime);
    lemma_timer_parts(state, event, Command::ResumeGameTime);
    lemma_timer_commands(state.step(event).state.values);
}

/// A command to the timer is part of a step exactly where the step completes
/// a refresh and the command is among the timer's commands for the refreshed
/// values.
proof fn lemma_timer_parts<H>(state: State<H>, event: Event<H>, command: Command)
    requires
        !(command is SetTickRate),
        !(command is SetVariable),
    ensures
        state.step(event).commands.contains(command) <==> completes_refresh(state, event)
            && state.step(event).state.values.timer_commands().contains(command),
{
    let step = state.step(event);
    match event {
        Event::Memory(reading) => {
            let refresh = state.refreshed(reading);
            lemma_refresh_commands(state, reading);
            if refresh.commands.contains(command) {
                let i = choose|i: int| 0 <= i < refresh.commands.len() && refresh.commands[i] == command;
                assert(refresh.commands[i] is SetVariable);
            }
            if refresh.progress == Progress::Complete {
                lemma_concat_contains(refresh.commands, refresh.state.values.timer_commands(), command);
            }
        },
        _ => {
            if step.commands.contains(command) {
                let i = choose|i: int| 0 <= i < step.commands.len() && step.commands[i] == command;
                assert(step.commands[i] is SetTickRate);
            }
        },
    }
}

/// Once the controller has ticked, the polling rate last asked for is slow
/// whenever no game is attached and fast whenever one is: slow is asked for
/// on the first tick, before the first attempt to attach, and on the step
/// that finds the game closed; fast on the step that attaches.
pub proof fn law_tick_rate<H>(state: State<H>, event: Event<H>, rate: Option<TickRate>)
    requires
        state.well_formed(),
        rate_fits(state, rate),
    ensures
        rate_fits(state.step(event).state, rate_after(rate, state.step(event).commands)),
        event is Tick ==> state.step(event).state.started_up,
{
    let step = state.step(event);
    match event {
        Event::Memory(reading) => {
            let refresh = state.refreshed(reading);
            lemma_refresh_commands(state, reading);
            lemma_timer_commands(refresh.state.values);
            assert(keeps_rate(step.commands));
            lemma_rate_kept(rate, step.commands);
        },
        Event::Tick => {
            if state.started_up {
                lemma_rate_kept(rate, step.commands);
            } else {
                lemma_rate_set(rate, TickRate::Slow);
            }
        },
        Event::Attached(process) => {
            if state.phase == Phase::Attaching && process is Some {
                lemma_rate_set(rate, TickRate::Fast);
            } else {
                lemma_rate_kept(rate, step.commands);
            }
        },
        Event::Open(open) => {
            if state.phase == Phase::CheckingOpen && !open {
                lemma_rate_set(rate, TickRate::Slow);
            } else {
                lemma_rate_kept(rate, step.commands);
            }
        },
    }
}

/// The commands given over a run of events, oldest first.
pub open spec fn run_commands<H>(state: State<H>, events: Seq<Event<H>>) -> Seq<Command>
    decreases events.len(),
{
    if events.len() == 0 {
        Seq::empty()
    } else {
        run_commands(state, events.drop_last()) + run(state, events.drop_last()).step(
            events.last(),
        ).commands
    }
}

proof fn lemma_rate_concat(rate: Option<TickRate>, front: Seq<Command>, back: Seq<Command>)
    ensures
        rate_after(rate, front + back) == rate_after(rate_after(rate, front), back),
    decreases back.len(),
{
    if back.len() == 0 {
        assert(front + back =~= front);
    } else {
        assert((front + back).drop_last() =~= front + back.drop_last());
        assert((front + back).last() == back.last());
        lemma_rate_concat(rate, front, back.drop_last());
    }
}

/// Whatever the plugin reports and in whatever order, from a state in which
/// the polling rate fits it stays fitting: slow without a game, fast with one.
pub proof fn law_tick_rate_over_runs<H>(
    state: State<H>,
    events: Seq<Event<H>>,
    rate: Option<TickRate>,
)
    requires
        state.well_formed(),
        rate_fits(state, rate),
    ensures
        rate_fits(run(state, events), rate_after(rate, run_commands(state, events))),
    decreases events.len(),
{
    if events.len() > 0 {
        let front = events.drop_last();
        let before = run(state, front);
        law_tick_rate_over_runs(state, front, rate);
        law_run_well_formed(state, front);
        law_tick_rate(before, events.last(), rate_after(rate, run_commands(state, front)));
        lemma_rate_concat(rate, run_commands(state, front), before.step(events.last()).commands);
    }
}

/// From the controller's first state on, once it has ticked, the polling rate
/// last asked for is slow whenever no game is attached and fast whenever one
/// is.
pub proof fn law_tick_rate_from_the_start<H>(events: Seq<Event<H>>)
    ensures
        rate_fits(
            run(State::<H>::initial(), events),
            rate_after(None, run_commands(State::<H>::initial(), events)),
        ),
{
    law_tick_rate_over_runs(State::<H>::initial(), events, None);
}

/// Only two steps touch the handle on the game: the answer to an attach
/// attempt stores what was found, and the news that the game has closed drops
/// it.  Such a step, and one on which the main module is not found, gives the
/// timer no command and leaves the watchers alone.
pub proof fn law_quiet_steps<H>(state: State<H>, event: Event<H>)
    requires
        state.well_formed(),
    ensures
        !(event is Attached) && event != Event::<H>::Open(false) ==> state.step(
            event,
        ).state.main_process == state.main_process,
        event == Event::<H>::Open(false) && state.phase == Phase::CheckingOpen ==> state.step(
            event,
        ).state.main_process is None && state.step(event).request is None,
        event is Attached || event is Open || event == Event::<H>::Memory(
            Reading::ModuleAddress(None),
        ) ==> state.step(event).state.values == state.values && keeps_timer(
            state.step(event).commands,
        ),
{
    let step = state.step(event);
    assert(event is Attached || event is Open || event == Event::<H>::Memory(
        Reading::ModuleAddress(None),
    ) ==> step.commands.len() == 0 || (step.commands.len() == 1 && step.commands[0] is SetTickRate));
}

/// Whether `commands` holds nothing but commands on the polling rate.
pub open spec fn keeps_timer(commands: Seq<Command>) -> bool {
    forall|i: int| 0 <= i < commands.len() ==> (#[trigger] commands[i]) is SetTickRate
}

} // verus!
