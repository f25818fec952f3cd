use brewkeep::power::{snapshot_current, snapshot_plan, ExecutionState, PowerRun, PowerStateSnapshot};
use brewkeep::state::{create_items, menu_layout, Effect, MenuEntry, MenuItems, MenuSlot, Mode, ModeItemsEnabled, State};

fn hold() -> ExecutionState {
    ExecutionState { continuous: true, system_required: true, display_required: true }
}

fn release() -> ExecutionState {
    ExecutionState { continuous: true, system_required: false, display_required: false }
}

fn enabled_all_but(mode: Mode) -> ModeItemsEnabled {
    ModeItemsEnabled {
        hold: mode != Mode::Hold,
        sleep30: mode != Mode::ForceSleep30,
        sleep60: mode != Mode::ForceSleep60,
        paused: mode != Mode::Paused,
    }
}

fn fresh() -> State {
    let (state, effects) = State::new(create_items(), None);
    assert_eq!(effects, vec![Effect::SetExecutionState(hold())]);
    state
}

#[test]
fn labels_of_modes() {
    assert_eq!(Mode::Hold.label(), "Holding");
    assert_eq!(Mode::ForceSleep30.label(), "Force Sleep 30s");
    assert_eq!(Mode::ForceSleep60.label(), "Force Sleep 1min");
    assert_eq!(Mode::Paused.label(), "Paused");
}

#[test]
fn tooltips_of_modes() {
    assert_eq!(Mode::Hold.tooltip(), "BrewKeep \u{2014} Holding");
    assert_eq!(Mode::ForceSleep30.tooltip(), "BrewKeep \u{2014} Force Sleep 30s");
    assert_eq!(Mode::ForceSleep60.tooltip(), "BrewKeep \u{2014} Force Sleep 1min");
    assert_eq!(Mode::Paused.tooltip(), "BrewKeep \u{2014} Paused");
}

#[test]
fn menu_labels() {
    assert_eq!(MenuEntry::Hold.label(), "Hold (keep awake)");
    assert_eq!(MenuEntry::Sleep30.label(), "Force Sleep: 30s");
    assert_eq!(MenuEntry::Sleep60.label(), "Force Sleep: 1min");
    assert_eq!(MenuEntry::Paused.label(), "Paused");
    assert_eq!(MenuEntry::Autostart.label(), "Auto-start with Windows");
    assert_eq!(MenuEntry::Exit.label(), "Exit");
}

#[test]
fn items_start_enabled_and_unchecked() {
    let items = create_items();
    assert_eq!(
        items,
        MenuItems {
            enabled: ModeItemsEnabled { hold: true, sleep30: true, sleep60: true, paused: true },
            autostart_enabled: true,
            autostart_checked: false,
            exit_enabled: true,
        }
    );
}

#[test]
fn new_state_holds() {
    let state = fresh();
    assert_eq!(state.current_mode, Mode::Hold);
    assert!(state.power_snapshot.is_none());
    assert_eq!(state.items, create_items());
}

#[test]
fn force_sleep_30_from_hold() {
    let mut state = fresh();
    let effects = state.set_mode(Mode::ForceSleep30);
    assert_eq!(state.current_mode, Mode::ForceSleep30);
    assert_eq!(
        effects,
        vec![
            Effect::SetExecutionState(release()),
            Effect::SetMonitorTimeout(30),
            Effect::EnableModeItems(enabled_all_but(Mode::ForceSleep30)),
        ]
    );
    assert_eq!(state.items.enabled, enabled_all_but(Mode::ForceSleep30));
}

#[test]
fn force_sleep_60_from_sleep_30() {
    let mut state = fresh();
    state.set_mode(Mode::ForceSleep30);
    let effects = state.set_mode(Mode::ForceSleep60);
    assert_eq!(
        effects,
        vec![Effect::SetMonitorTimeout(60), Effect::EnableModeItems(enabled_all_but(Mode::ForceSleep60))]
    );
}

#[test]
fn back_to_hold_requests_awake() {
    let mut state = fresh();
    state.set_mode(Mode::Paused);
    let effects = state.set_mode(Mode::Hold);
    assert_eq!(
        effects,
        vec![Effect::SetExecutionState(hold()), Effect::EnableModeItems(enabled_all_but(Mode::Hold))]
    );
}

#[test]
fn pausing_from_hold_only_releases() {
    let mut state = fresh();
    let effects = state.set_mode(Mode::Paused);
    assert_eq!(
        effects,
        vec![Effect::SetExecutionState(release()), Effect::EnableModeItems(enabled_all_but(Mode::Paused))]
    );
}

#[test]
fn pausing_from_force_sleep_without_a_snapshot_keeps_the_timeout() {
    let mut state = fresh();
    state.set_mode(Mode::ForceSleep30);
    let effects = state.set_mode(Mode::Paused);
    assert_eq!(effects, vec![Effect::EnableModeItems(enabled_all_but(Mode::Paused))]);
    assert_eq!(state.forced_timeout, Some(30));
}

#[test]
fn same_mode_changes_nothing() {
    let mut state = fresh();
    let before = state.items;
    let effects = state.set_mode(Mode::Hold);
    assert!(effects.is_empty());
    assert_eq!(state.items, before);
    state.set_mode(Mode::ForceSleep60);
    let again = state.set_mode(Mode::ForceSleep60);
    assert!(again.is_empty());
    assert_eq!(state.current_mode, Mode::ForceSleep60);
}

#[test]
fn toggle_swaps_hold_and_paused() {
    let mut state = fresh();
    state.toggle_hold_pause();
    assert_eq!(state.current_mode, Mode::Paused);
    let effects = state.toggle_hold_pause();
    assert_eq!(state.current_mode, Mode::Hold);
    assert_eq!(
        effects,
        vec![Effect::SetExecutionState(hold()), Effect::EnableModeItems(enabled_all_but(Mode::Hold))]
    );
}

#[test]
fn toggle_from_force_sleep_goes_to_hold() {
    let mut state = fresh();
    state.set_mode(Mode::ForceSleep60);
    state.toggle_hold_pause();
    assert_eq!(state.current_mode, Mode::Hold);
}

#[test]
fn autostart_check_mark() {
    let mut state = fresh();
    state.update_autostart_state(true);
    assert!(state.items.autostart_checked);
    state.update_autostart_state(false);
    assert!(!state.items.autostart_checked);
    assert_eq!(state.current_mode, Mode::Hold);
}

#[test]
fn display_held_exactly_in_hold_on_a_sequence() {
    // Replays requests over a sequence of choices; the last request decides.
    let (mut state, start) = State::new(create_items(), None);
    let mut held = false;
    let mut apply = |effects: &Vec<Effect>, held: &mut bool| {
        for e in effects {
            if let Effect::SetExecutionState(s) = e {
                *held = s.display_required;
            }
        }
    };
    apply(&start, &mut held);
    assert!(held);
    for mode in [Mode::ForceSleep30, Mode::Hold, Mode::Hold, Mode::Paused, Mode::ForceSleep60, Mode::Hold] {
        let effects = state.set_mode(mode);
        apply(&effects, &mut held);
        assert_eq!(held, state.current_mode == Mode::Hold);
    }
    let effects = state.toggle_hold_pause();
    apply(&effects, &mut held);
    assert!(!held);
}

fn snapshot(ac: u32, dc: u32) -> PowerStateSnapshot {
    let mut run = PowerRun::new(snapshot_plan());
    let answers = [(0, 0), (0, ac), (0, dc)];
    let mut k = 0;
    while run.next_call().is_some() {
        run.record(answers[k].0, answers[k].1);
        k += 1;
    }
    snapshot_current(&run).unwrap()
}

fn with_snapshot(ac: u32, dc: u32) -> State {
    State::new(create_items(), Some(snapshot(ac, dc))).0
}

#[test]
fn menu_layout_from_top() {
    assert_eq!(
        menu_layout(),
        vec![
            MenuSlot::Entry(MenuEntry::Hold),
            MenuSlot::Entry(MenuEntry::Sleep30),
            MenuSlot::Entry(MenuEntry::Sleep60),
            MenuSlot::Entry(MenuEntry::Paused),
            MenuSlot::Separator,
            MenuSlot::Entry(MenuEntry::Autostart),
            MenuSlot::Separator,
            MenuSlot::Entry(MenuEntry::Exit),
        ]
    );
}

#[test]
fn force_sleep_records_the_found_timeouts_first() {
    let mut state = with_snapshot(600, 300);
    let effects = state.set_mode(Mode::ForceSleep30);
    assert_eq!(
        effects,
        vec![
            Effect::SetExecutionState(release()),
            Effect::SaveStateFile(600, 300),
            Effect::SetMonitorTimeout(30),
            Effect::EnableModeItems(enabled_all_but(Mode::ForceSleep30)),
        ]
    );
    let effects = state.set_mode(Mode::ForceSleep60);
    assert_eq!(
        effects,
        vec![
            Effect::SaveStateFile(600, 300),
            Effect::SetMonitorTimeout(60),
            Effect::EnableModeItems(enabled_all_but(Mode::ForceSleep60)),
        ]
    );
}

#[test]
fn pausing_after_force_sleep_restores_the_found_timeouts() {
    let mut state = with_snapshot(600, 300);
    state.set_mode(Mode::ForceSleep60);
    let effects = state.set_mode(Mode::Paused);
    assert_eq!(
        effects,
        vec![Effect::RestoreTimeouts(600, 300), Effect::EnableModeItems(enabled_all_but(Mode::Paused))]
    );
}

#[test]
fn holding_after_force_sleep_keeps_the_forced_timeout() {
    let mut state = with_snapshot(120, 240);
    state.set_mode(Mode::ForceSleep30);
    assert_eq!(state.forced_timeout, Some(30));
    let effects = state.toggle_hold_pause();
    assert_eq!(state.current_mode, Mode::Hold);
    assert_eq!(
        effects,
        vec![Effect::SetExecutionState(hold()), Effect::EnableModeItems(enabled_all_but(Mode::Hold))]
    );
    assert_eq!(state.forced_timeout, Some(30));
    let effects = state.set_mode(Mode::Paused);
    assert_eq!(
        effects,
        vec![
            Effect::SetExecutionState(release()),
            Effect::RestoreTimeouts(120, 240),
            Effect::EnableModeItems(enabled_all_but(Mode::Paused)),
        ]
    );
    assert_eq!(state.forced_timeout, None);
}

#[test]
fn pausing_without_a_forced_timeout_writes_nothing_back() {
    let mut state = with_snapshot(120, 240);
    let effects = state.set_mode(Mode::Paused);
    assert_eq!(
        effects,
        vec![Effect::SetExecutionState(release()), Effect::EnableModeItems(enabled_all_but(Mode::Paused))]
    );
    assert_eq!(state.forced_timeout, None);
}

#[test]
fn system_follows_the_mode_on_a_sequence() {
    // Replays the requests; where the timeouts found at start are known,
    // they are in force until a timeout is forced, and again from the next
    // pause on; while a timeout is forced, the state file records them.
    let found = (600u32, 300u32);
    let (mut state, start) = State::new(create_items(), Some(snapshot(found.0, found.1)));
    let mut held = false;
    let mut timeouts = found;
    let mut file: Option<(u32, u32)> = None;
    let mut apply = |effects: &Vec<Effect>, held: &mut bool, timeouts: &mut (u32, u32), file: &mut Option<(u32, u32)>| {
        for e in effects {
            match *e {
                Effect::SetExecutionState(s) => *held = s.display_required,
                Effect::SaveStateFile(a, d) => *file = Some((a, d)),
                Effect::SetMonitorTimeout(t) => *timeouts = (t, t),
                Effect::RestoreTimeouts(a, d) => {
                    *timeouts = (a, d);
                    *file = None;
                }
                Effect::EnableModeItems(_) => {}
            }
        }
    };
    apply(&start, &mut held, &mut timeouts, &mut file);
    let mut forced: Option<u32> = None;
    for mode in [
        Mode::ForceSleep30,
        Mode::Paused,
        Mode::ForceSleep60,
        Mode::ForceSleep30,
        Mode::Hold,
        Mode::Hold,
        Mode::Paused,
        Mode::Hold,
        Mode::ForceSleep60,
        Mode::Hold,
    ] {
        let effects = state.set_mode(mode);
        apply(&effects, &mut held, &mut timeouts, &mut file);
        forced = match mode {
            Mode::ForceSleep30 => Some(30),
            Mode::ForceSleep60 => Some(60),
            Mode::Paused => None,
            Mode::Hold => forced,
        };
        assert_eq!(state.forced_timeout, forced);
        assert_eq!(held, mode == Mode::Hold);
        let expected = match forced {
            Some(t) => (t, t),
            None => found,
        };
        assert_eq!(timeouts, expected);
        assert_eq!(file, forced.map(|_| found));
    }
}
