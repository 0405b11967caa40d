//! The watcher, the resolver, the sampler and the constants, each by itself.

use mdk2_autosplitter::config::{
    Quantity, TickRate, FAST_TICK_RATE, LEVEL_PATH, LOADING_PATH, MAIN_MODULE, MUSIC_PATH,
    SLOW_TICK_RATE, START_TIME_MS, SUBLEVEL_PATH,
};
use mdk2_autosplitter::controller::{
    update_pair_i32, MemoryValues, Phase, Progress, SampleError, State,
};
use mdk2_autosplitter::protocol::{Command, Event, Reading, Request};
use mdk2_autosplitter::resolver::{ReadKind, Walk};
use mdk2_autosplitter::watcher::Pair;

#[test]
fn pair_starts_at_zero() {
    assert_eq!(Pair::new(), Pair { current: 0, old: 0 });
    assert!(!Pair::new().changed());
}

#[test]
fn pair_update_shifts_current_into_old() {
    let mut pair = Pair::new();
    assert_eq!(pair.update(7), Pair { current: 7, old: 0 });
    assert!(pair.changed());
    assert_eq!(pair.update(-3), Pair { current: -3, old: 7 });
    assert_eq!(pair, Pair { current: -3, old: 7 });
}

#[test]
fn pair_update_shifts_on_equal_values_too() {
    let mut pair = Pair { current: 5, old: 2 };
    assert_eq!(pair.update(5), Pair { current: 5, old: 5 });
    assert!(!pair.changed());
}

#[test]
fn pair_first_sample_is_a_change_from_zero() {
    let mut pair = Pair::new();
    pair.update(3);
    assert_eq!(pair.old, 0);
    assert_eq!(pair.current, 3);
    assert!(pair.changed());
}

#[test]
fn pair_absorbs_failures_untouched() {
    let mut pair = Pair { current: 11, old: 4 };
    for _ in 0..100 {
        assert_eq!(pair.absorb(None), Pair { current: 11, old: 4 });
    }
    assert_eq!(pair.absorb(Some(12)), Pair { current: 12, old: 11 });
    assert_eq!(pair, Pair { current: 12, old: 11 });
}

#[test]
fn pair_takes_extreme_values() {
    let mut pair = Pair::new();
    pair.update(i32::MIN);
    pair.update(i32::MAX);
    assert_eq!(pair, Pair { current: i32::MAX, old: i32::MIN });
}

#[test]
fn update_pair_publishes_the_sample() {
    let mut pair = Pair { current: 1, old: 0 };
    let command = update_pair_i32(Quantity::Music, 8, &mut pair);
    assert_eq!(command, Command::SetVariable(Quantity::Music, 8));
    assert_eq!(pair, Pair { current: 8, old: 1 });
}

#[test]
fn constants() {
    assert_eq!(MAIN_MODULE, "mdk2Main.exe");
    assert_eq!(START_TIME_MS, 1231);
    assert_eq!(SLOW_TICK_RATE, 10);
    assert_eq!(FAST_TICK_RATE, 120);
    assert_eq!(TickRate::Slow.hertz(), 10);
    assert_eq!(TickRate::Fast.hertz(), 120);
}

#[test]
fn quantity_names_and_paths() {
    assert_eq!(Quantity::Loading.name(), "Loading");
    assert_eq!(Quantity::Level.name(), "Level");
    assert_eq!(Quantity::Sublevel.name(), "Sublevel");
    assert_eq!(Quantity::Music.name(), "Music");
    assert_eq!(Quantity::Loading.path(), &[0x1D1224u64][..]);
    assert_eq!(Quantity::Level.path(), &[0xBB724u64][..]);
    assert_eq!(Quantity::Sublevel.path(), &[0xBBA8Cu64][..]);
    assert_eq!(Quantity::Music.path(), &[0xBC364u64][..]);
    assert_eq!(LOADING_PATH, [0x1D1224]);
    assert_eq!(LEVEL_PATH, [0xBB724]);
    assert_eq!(SUBLEVEL_PATH, [0xBBA8C]);
    assert_eq!(MUSIC_PATH, [0xBC364]);
}

#[test]
fn quantities_are_sampled_in_order() {
    assert_eq!(Quantity::first(), Quantity::Loading);
    assert_eq!(Quantity::Loading.following(), Some(Quantity::Level));
    assert_eq!(Quantity::Level.following(), Some(Quantity::Sublevel));
    assert_eq!(Quantity::Sublevel.following(), Some(Quantity::Music));
    assert_eq!(Quantity::Music.following(), None);
}

#[test]
fn walk_of_one_offset_reads_the_value_at_once() {
    let path = [0x1D1224u64];
    let walk = Walk::begin(0x40_0000);
    assert_eq!(walk, Walk { hop: 0, from: 0x40_0000 });
    assert!(walk.at_last_hop(&path));
    assert_eq!(walk.kind(&path), ReadKind::Value);
    assert_eq!(walk.address(&path), 0x5D1224);
}

#[test]
fn walk_follows_pointers_until_the_last_offset() {
    let path = [0x10u64, 0x20, 0x8];
    let walk = Walk::begin(0x1000);
    assert_eq!(walk.kind(&path), ReadKind::Pointer);
    assert_eq!(walk.address(&path), 0x1010);
    let walk = walk.advance(0x7000, &path);
    assert_eq!(walk, Walk { hop: 1, from: 0x7000 });
    assert!(!walk.at_last_hop(&path));
    assert_eq!(walk.kind(&path), ReadKind::Pointer);
    assert_eq!(walk.address(&path), 0x7020);
    let walk = walk.advance(0x9000, &path);
    assert_eq!(walk.kind(&path), ReadKind::Value);
    assert_eq!(walk.address(&path), 0x9008);
}

#[test]
fn walk_addresses_wrap_around() {
    let path = [0x10u64];
    assert_eq!(Walk::begin(u64::MAX).address(&path), 0xF);
    assert_eq!(Walk::begin(u64::MAX - 0x10).address(&path), u64::MAX);
    let path = [u64::MAX];
    assert_eq!(Walk::begin(u64::MAX).address(&path), u64::MAX - 1);
}

#[test]
fn values_by_quantity() {
    let mut values = MemoryValues::new();
    assert_eq!(values.record(Quantity::Loading, 1), Command::SetVariable(Quantity::Loading, 1));
    values.record(Quantity::Level, 2);
    values.record(Quantity::Sublevel, 3);
    values.record(Quantity::Music, 4);
    values.record(Quantity::Music, 5);
    assert_eq!(values.get(Quantity::Loading), Pair { current: 1, old: 0 });
    assert_eq!(values.get(Quantity::Level), Pair { current: 2, old: 0 });
    assert_eq!(values.get(Quantity::Sublevel), Pair { current: 3, old: 0 });
    assert_eq!(values.get(Quantity::Music), Pair { current: 5, old: 4 });
    assert_eq!(values.loading, Pair { current: 1, old: 0 });
    assert_eq!(values.music, Pair { current: 5, old: 4 });
}

fn values(loading: i32, level: i32, sublevel: i32) -> MemoryValues {
    let mut values = MemoryValues::new();
    values.record(Quantity::Loading, loading);
    values.record(Quantity::Level, level);
    values.record(Quantity::Sublevel, sublevel);
    values
}

#[test]
fn timer_decisions() {
    let mut commands = vec![Command::SetVariable(Quantity::Music, 0)];
    values(1, 1, 9).decide(&mut commands);
    assert_eq!(
        commands,
        vec![
            Command::SetVariable(Quantity::Music, 0),
            Command::SetGameTime(1231),
            Command::Start,
            Command::PauseGameTime,
        ]
    );
    let mut commands = Vec::new();
    values(1, 1, 8).decide(&mut commands);
    assert_eq!(commands, vec![Command::PauseGameTime]);
    let mut commands = Vec::new();
    values(0, 1, 9).decide(&mut commands);
    assert_eq!(commands, vec![Command::ResumeGameTime]);
    assert!(values(1, 1, 9).start_condition());
    assert!(!values(1, 0, 9).start_condition());
    assert!(values(1, 0, 0).is_loading());
    assert!(!values(2, 1, 9).is_loading());
}

#[test]
fn startup_and_init() {
    let mut state: State<u32> = State::new();
    assert_eq!(state.init(), Command::SetTickRate(TickRate::Fast));
    assert!(!state.started_up);
    assert_eq!(state.startup(), Command::SetTickRate(TickRate::Slow));
    assert!(state.started_up);
    assert!(state.main_process.is_none());
    assert_eq!(state.phase, Phase::Idle);
}

fn resolving() -> State<u32> {
    State {
        started_up: true,
        main_process: Some(1),
        values: MemoryValues::new(),
        phase: Phase::ResolvingModule,
    }
}

#[test]
fn refresh_step_by_step() {
    let mut state = resolving();
    let refresh = state.refresh_mem_values(Reading::ModuleAddress(Some(0x1000_0000)));
    assert_eq!(refresh.commands, vec![]);
    assert_eq!(refresh.progress, Progress::Pending(Request::ReadValue(0x101D_1224)));
    assert_eq!(
        state.phase,
        Phase::Sampling {
            quantity: Quantity::Loading,
            base: 0x1000_0000,
            walk: Walk { hop: 0, from: 0x1000_0000 },
        }
    );

    let refresh = state.refresh_mem_values(Reading::Value(Some(6)));
    assert_eq!(refresh.commands, vec![Command::SetVariable(Quantity::Loading, 6)]);
    assert_eq!(refresh.progress, Progress::Pending(Request::ReadValue(0x100B_B724)));

    let refresh = state.refresh_mem_values(Reading::Value(None));
    assert_eq!(refresh.commands, vec![]);
    assert_eq!(refresh.progress, Progress::Pending(Request::ReadValue(0x100B_BA8C)));
    assert_eq!(state.values.level, Pair { current: 0, old: 0 });

    let refresh = state.refresh_mem_values(Reading::Value(Some(9)));
    assert_eq!(refresh.commands, vec![Command::SetVariable(Quantity::Sublevel, 9)]);
    assert_eq!(refresh.progress, Progress::Pending(Request::ReadValue(0x100B_C364)));

    let refresh = state.refresh_mem_values(Reading::Value(Some(-2)));
    assert_eq!(refresh.commands, vec![Command::SetVariable(Quantity::Music, -2)]);
    assert_eq!(refresh.progress, Progress::Complete);
    assert_eq!(state.phase, Phase::Idle);
    assert_eq!(state.values.loading, Pair { current: 6, old: 0 });
    assert_eq!(state.values.sublevel, Pair { current: 9, old: 0 });
    assert_eq!(state.values.music, Pair { current: -2, old: 0 });
}

#[test]
fn refresh_errors() {
    let mut state = resolving();
    let refresh = state.refresh_mem_values(Reading::ModuleAddress(None));
    assert_eq!(refresh.progress, Progress::Failed(SampleError::ModuleNotFound));
    assert_eq!(state.phase, Phase::Idle);

    let mut state = resolving();
    let refresh = state.refresh_mem_values(Reading::Value(Some(1)));
    assert_eq!(refresh.progress, Progress::Failed(SampleError::NotAwaited));
    assert_eq!(state.phase, Phase::ResolvingModule);
    assert_eq!(state.values, MemoryValues::new());

    state.refresh_mem_values(Reading::ModuleAddress(Some(0)));
    let refresh = state.refresh_mem_values(Reading::Pointer(Some(0x77)));
    assert_eq!(refresh.progress, Progress::Failed(SampleError::NotAwaited));
    let refresh = state.refresh_mem_values(Reading::ModuleAddress(Some(0x88)));
    assert_eq!(refresh.progress, Progress::Failed(SampleError::NotAwaited));

    let mut state: State<u32> = State::new();
    let refresh = state.refresh_mem_values(Reading::ModuleAddress(Some(0)));
    assert_eq!(refresh.progress, Progress::Failed(SampleError::ProcessNotInitialized));
    assert_eq!(refresh.commands, vec![]);
}

#[test]
fn error_messages() {
    assert_eq!(
        SampleError::ModuleNotFound.message(),
        "Could not get module address when refreshing memory values."
    );
    assert_eq!(SampleError::ProcessNotInitialized.message(), "Process info is not initialized.");
    assert_eq!(SampleError::NotAwaited.message(), "Reading was not asked for.");
}

#[test]
fn well_formedness_is_tested() {
    let mut state = resolving();
    assert!(state.is_well_formed());
    state.main_process = None;
    assert!(!state.is_well_formed());
    state.phase = Phase::Attaching;
    assert!(state.is_well_formed());
    state.started_up = false;
    assert!(!state.is_well_formed());
    state.phase = Phase::Idle;
    assert!(state.is_well_formed());
    state.main_process = Some(3);
    assert!(!state.is_well_formed());
    state.started_up = true;
    state.phase = Phase::Sampling {
        quantity: Quantity::Level,
        base: 0,
        walk: Walk { hop: 1, from: 0 },
    };
    assert!(!state.is_well_formed());
    state.phase = Phase::Sampling {
        quantity: Quantity::Level,
        base: 0,
        walk: Walk { hop: 0, from: 0 },
    };
    assert!(state.is_well_formed());
    assert_eq!(
        state.update(Event::Memory(Reading::Value(Some(2)))).request,
        Some(Request::ReadValue(0xBBA8C))
    );
}
