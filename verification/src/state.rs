use vstd::prelude::*;

use crate::power::{hold_awake, release_awake, ExecutionState, PowerStateSnapshot};

verus! {

/// What the program does to the screen.
#[derive(Debug, Clone, Copy, PartialEq, Eq, Structural)]
pub enum Mode {
    /// Keep the display (and the system) awake.
    Hold,
    /// Turn the display off after 30 seconds.
    ForceSleep30,
    /// Turn the display off after one minute.
    ForceSleep60,
    /// Leave the power settings alone.
    Paused,
}

/// The short name of a mode.
pub open spec fn label_spec(mode: Mode) -> Seq<char> {
    match mode {
        Mode::Hold => "Holding"@,
        Mode::ForceSleep30 => "Force Sleep 30s"@,
        Mode::ForceSleep60 => "Force Sleep 1min"@,
        Mode::Paused => "Paused"@,
    }
}

/// The text that the tray icon shows for a mode.
pub open spec fn tooltip_spec(mode: Mode) -> Seq<char> {
    "BrewKeep \u{2014} "@ + label_spec(mode)
}

impl Mode {
    /// The short name of the mode.
    pub fn label(self) -> (r: &'static str)
        ensures
            r@ == label_spec(self),
    {
        match self {
            Mode::Hold => "Holding",
            Mode::ForceSleep30 => "Force Sleep 30s",
            Mode::ForceSleep60 => "Force Sleep 1min",
            Mode::Paused => "Paused",
        }
    }

    /// The tooltip of the tray icon in this mode: the program's name, a
    /// dash and the mode's label.
    pub fn tooltip(self) -> (r: String)
        ensures
            r@ == tooltip_spec(self),
    {
        let mut text = "BrewKeep \u{2014} ".to_owned();
        text.append(self.label());
        text
    }
}

/// The entries of the tray menu.
#[derive(Debug, Clone, Copy, PartialEq, Eq, Structural)]
pub enum MenuEntry {
    Hold,
    Sleep30,
    Sleep60,
    Paused,
    Autostart,
    Exit,
}

/// The text of a menu entry.
pub open spec fn menu_label_spec(entry: MenuEntry) -> Seq<char> {
    match entry {
        MenuEntry::Hold => "Hold (keep awake)"@,
        MenuEntry::Sleep30 => "Force Sleep: 30s"@,
        MenuEntry::Sleep60 => "Force Sleep: 1min"@,
        MenuEntry::Paused => "Paused"@,
        MenuEntry::Autostart => "Auto-start with Windows"@,
        MenuEntry::Exit => "Exit"@,
    }
}

impl MenuEntry {
    /// The text of the entry.
    pub fn label(self) -> (r: &'static str)
        ensures
            r@ == menu_label_spec(self),
    {
        match self {
            MenuEntry::Hold => "Hold (keep awake)",
            MenuEntry::Sleep30 => "Force Sleep: 30s",
            MenuEntry::Sleep60 => "Force Sleep: 1min",
            MenuEntry::Paused => "Paused",
            MenuEntry::Autostart => "Auto-start with Windows",
            MenuEntry::Exit => "Exit",
        }
    }
}

/// Which of the four mode entries can be chosen.
#[derive(Debug, Clone, Copy, PartialEq, Eq, Structural)]
pub struct ModeItemsEnabled {
    pub hold: bool,
    pub sleep30: bool,
    pub sleep60: bool,
    pub paused: bool,
}

/// The state of the menu entries that change or that the menu is made
/// with: the four mode entries, the auto-start entry (enabled, and its check
/// mark) and the exit entry.
#[derive(Debug, Clone, Copy, PartialEq, Eq, Structural)]
pub struct MenuItems {
    pub enabled: ModeItemsEnabled,
    pub autostart_enabled: bool,
    pub autostart_checked: bool,
    pub exit_enabled: bool,
}

/// The menu entries as they are made: every entry enabled, the auto-start
/// entry unchecked.
pub fn create_items() -> (r: MenuItems)
    ensures
        r == (MenuItems {
            enabled: ModeItemsEnabled { hold: true, sleep30: true, sleep60: true, paused: true },
            autostart_enabled: true,
            autostart_checked: false,
            exit_enabled: true,
        }),
{
    MenuItems {
        enabled: ModeItemsEnabled { hold: true, sleep30: true, sleep60: true, paused: true },
        autostart_enabled: true,
        autostart_checked: false,
        exit_enabled: true,
    }
}

/// A place in the tray menu: an entry or a separator.
#[derive(Debug, Clone, Copy, PartialEq, Eq, Structural)]
pub enum MenuSlot {
    Entry(MenuEntry),
    Separator,
}

/// The tray menu from top to bottom: the four modes, a separator, the
/// auto-start entry, a separator, and the exit entry.
pub open spec fn menu_layout_spec() -> Seq<MenuSlot> {
    seq![
        MenuSlot::Entry(MenuEntry::Hold),
        MenuSlot::Entry(MenuEntry::Sleep30),
        MenuSlot::Entry(MenuEntry::Sleep60),
        MenuSlot::Entry(MenuEntry::Paused),
        MenuSlot::Separator,
        MenuSlot::Entry(MenuEntry::Autostart),
        MenuSlot::Separator,
        MenuSlot::Entry(MenuEntry::Exit),
    ]
}

/// The tray menu from top to bottom.
pub fn menu_layout() -> (r: Vec<MenuSlot>)
    ensures
        r@ == menu_layout_spec(),
{
    let mut v = Vec::new();
    v.push(MenuSlot::Entry(MenuEntry::Hold));
    v.push(MenuSlot::Entry(MenuEntry::Sleep30));
    v.push(MenuSlot::Entry(MenuEntry::Sleep60));
    v.push(MenuSlot::Entry(MenuEntry::Paused));
    v.push(MenuSlot::Separator);
    v.push(MenuSlot::Entry(MenuEntry::Autostart));
    v.push(MenuSlot::Separator);
    v.push(MenuSlot::Entry(MenuEntry::Exit));
    assert(v@ =~= menu_layout_spec());
    v
}

/// What the program asks of the system, in order, when its state changes.
#[derive(Debug, Clone, Copy, PartialEq, Eq, Structural)]
pub enum Effect {
    /// Call `SetThreadExecutionState` with these flags.
    SetExecutionState(ExecutionState),
    /// Write the state file with these monitor timeouts (AC, DC), so that a
    /// restore at the next system start can write them back.
    SaveStateFile(u32, u32),
    /// Set both monitor timeouts to this many seconds (the calls of
    /// `set_monitor_timeout`); the outcome is not looked at.
    SetMonitorTimeout(u32),
    /// Write these monitor timeouts (AC, DC) back and remove the state file
    /// (the calls of `restore`); the outcome is not looked at.
    RestoreTimeouts(u32, u32),
    /// Enable or disable the four mode entries of the menu.
    EnableModeItems(ModeItemsEnabled),
}

/// The request that keeps the display awake.
pub open spec fn hold_state() -> ExecutionState {
    ExecutionState { continuous: true, system_required: true, display_required: true }
}

/// The request that withdraws every earlier one.
pub open spec fn release_state() -> ExecutionState {
    ExecutionState { continuous: true, system_required: false, display_required: false }
}

/// The mode entries enabled in `mode`: all but the entry of `mode` itself.
pub open spec fn enabled_in(mode: Mode) -> ModeItemsEnabled {
    ModeItemsEnabled {
        hold: mode != Mode::Hold,
        sleep30: mode != Mode::ForceSleep30,
        sleep60: mode != Mode::ForceSleep60,
        paused: mode != Mode::Paused,
    }
}

/// The timeouts (AC, DC) of a snapshot, where there is one.
pub open spec fn snapshot_timeouts(snapshot: Option<PowerStateSnapshot>) -> Option<(u32, u32)> {
    match snapshot {
        Some(s) => Some((s.ac_value(), s.dc_value())),
        None => None,
    }
}

/// What leaving `from` asks of the system: withdrawing the request of
/// `Hold`.
pub open spec fn leave_effects(from: Mode) -> Seq<Effect> {
    if from == Mode::Hold {
        seq![Effect::SetExecutionState(release_state())]
    } else {
        seq![]
    }
}

/// The state file written before a timeout is forced: the timeouts found at
/// start, where they are known.
pub open spec fn save_effects(snap: Option<(u32, u32)>) -> Seq<Effect> {
    match snap {
        Some(t) => seq![Effect::SaveStateFile(t.0, t.1)],
        None => seq![],
    }
}

/// What entering `mode` asks of the system, with `forced` the monitor
/// timeout that the program has forced and not written back since (if any)
/// and `snap` the timeouts found at start (where known). `Hold` is
/// requested; a force-sleep mode records the found timeouts in the state
/// file and forces its own; `Paused` writes the found timeouts back where a
/// forced one is still in force.
pub open spec fn enter_effects(mode: Mode, forced: Option<u32>, snap: Option<(u32, u32)>) -> Seq<Effect> {
    match mode {
        Mode::Hold => seq![Effect::SetExecutionState(hold_state())],
        Mode::ForceSleep30 => save_effects(snap) + seq![Effect::SetMonitorTimeout(30)],
        Mode::ForceSleep60 => save_effects(snap) + seq![Effect::SetMonitorTimeout(60)],
        Mode::Paused => match snap {
            Some(found) => if forced is Some {
                seq![Effect::RestoreTimeouts(found.0, found.1)]
            } else {
                seq![]
            },
            None => seq![],
        },
    }
}

/// What changing from `from` to `to` asks of the system, with the forced
/// timeout `forced` and the timeouts found at start `snap`: nothing when
/// the mode stays the same, otherwise leaving `from`, entering `to` and
/// updating the mode entries.
pub open spec fn mode_change_effects(
    from: Mode,
    to: Mode,
    forced: Option<u32>,
    snap: Option<(u32, u32)>,
) -> Seq<Effect> {
    if from == to {
        seq![]
    } else {
        leave_effects(from) + enter_effects(to, forced, snap) + seq![
            Effect::EnableModeItems(enabled_in(to)),
        ]
    }
}

/// The forced monitor timeout after changing from `from` to `to`: a
/// force-sleep mode forces its own; `Paused` writes the found timeouts back
/// where they are known; `Hold` leaves the timeouts as they are.
pub open spec fn forced_after(
    from: Mode,
    to: Mode,
    forced: Option<u32>,
    snap: Option<(u32, u32)>,
) -> Option<u32> {
    if from == to {
        forced
    } else {
        match to {
            Mode::ForceSleep30 => Some(30),
            Mode::ForceSleep60 => Some(60),
            Mode::Paused => if snap is Some {
                None
            } else {
                forced
            },
            Mode::Hold => forced,
        }
    }
}

/// The mode that a click on the tray icon switches to.
pub open spec fn toggle_target(mode: Mode) -> Mode {
    if mode == Mode::Hold {
        Mode::Paused
    } else {
        Mode::Hold
    }
}

/// The program's state: its mode, the timeouts that it found at start, the
/// monitor timeout that it has forced and not written back since (if any),
/// and the state of its menu entries.
pub struct State {
    pub current_mode: Mode,
    pub power_snapshot: Option<PowerStateSnapshot>,
    pub forced_timeout: Option<u32>,
    pub items: MenuItems,
}

impl State {
    /// The state at start: in `Hold`, which is requested at once, with no
    /// timeout forced.
    pub fn new(items: MenuItems, power_snapshot: Option<PowerStateSnapshot>) -> (r: (State, Vec<Effect>))
        ensures
            r.0.current_mode == Mode::Hold,
            r.0.power_snapshot == power_snapshot,
            r.0.forced_timeout is None,
            r.0.items == items,
            r.1@ == seq![Effect::SetExecutionState(hold_state())],
    {
        let mut effects = Vec::new();
        effects.push(Effect::SetExecutionState(hold_awake()));
        assert(effects@ =~= seq![Effect::SetExecutionState(hold_state())]);
        (State { current_mode: Mode::Hold, power_snapshot, forced_timeout: None, items }, effects)
    }

    /// Switches to `mode`. Nothing happens when the program is in `mode`
    /// already. Otherwise the request of `Hold` is withdrawn when it is left;
    /// the new mode's request is made: `Hold` keeps the display awake and
    /// leaves the monitor timeouts as they are; a force-sleep mode records
    /// the timeouts found at start in the state file and forces its own;
    /// `Paused` writes the found timeouts back where a forced one is still in
    /// force. Then every mode entry but that of `mode` is enabled.
    pub fn set_mode(&mut self, mode: Mode) -> (effects: Vec<Effect>)
        ensures
            final(self).current_mode == mode,
            final(self).power_snapshot == old(self).power_snapshot,
            final(self).forced_timeout == forced_after(
                old(self).current_mode,
                mode,
                old(self).forced_timeout,
                snapshot_timeouts(old(self).power_snapshot),
            ),
            final(self).items == if old(self).current_mode == mode {
                old(self).items
            } else {
                MenuItems { enabled: enabled_in(mode), ..old(self).items }
            },
            effects@ == mode_change_effects(
                old(self).current_mode,
                mode,
                old(self).forced_timeout,
                snapshot_timeouts(old(self).power_snapshot),
            ),
    {
        let ghost snap = snapshot_timeouts(old(self).power_snapshot);
        let ghost forced = old(self).forced_timeout;
        let mut effects: Vec<Effect> = Vec::new();
        if self.current_mode == mode {
            assert(effects@ =~= mode_change_effects(old(self).current_mode, mode, forced, snap));
            return effects;
        }
        let saved: Option<(u32, u32)> = match &self.power_snapshot {
            Some(s) => Some((s.ac_monitor_timeout(), s.dc_monitor_timeout())),
            None => None,
        };
        assert(saved == snap);
        match self.current_mode {
            Mode::Hold => effects.push(Effect::SetExecutionState(release_awake())),
            _ => {},
        }
        let ghost after_leave = effects@;
        assert(after_leave =~= leave_effects(old(self).current_mode));
        self.current_mode = mode;
        match mode {
            Mode::Hold => effects.push(Effect::SetExecutionState(hold_awake())),
            Mode::ForceSleep30 => {
                if let Some((ac, dc)) = saved {
                    effects.push(Effect::SaveStateFile(ac, dc));
                }
                effects.push(Effect::SetMonitorTimeout(30));
                self.forced_timeout = Some(30);
            },
            Mode::ForceSleep60 => {
                if let Some((ac, dc)) = saved {
                    effects.push(Effect::SaveStateFile(ac, dc));
                }
                effects.push(Effect::SetMonitorTimeout(60));
                self.forced_timeout = Some(60);
            },
            Mode::Paused => {
                if let Some((ac, dc)) = saved {
                    if self.forced_timeout.is_some() {
                        effects.push(Effect::RestoreTimeouts(ac, dc));
                    }
                    self.forced_timeout = None;
                }
            },
        }
        assert(effects@ =~= after_leave + enter_effects(mode, forced, snap));
        let enabled = ModeItemsEnabled {
            hold: mode != Mode::Hold,
            sleep30: mode != Mode::ForceSleep30,
            sleep60: mode != Mode::ForceSleep60,
            paused: mode != Mode::Paused,
        };
        self.items.enabled = enabled;
        effects.push(Effect::EnableModeItems(enabled));
        assert(effects@ =~= mode_change_effects(old(self).current_mode, mode, forced, snap));
        effects
    }

    /// Swaps between `Hold` and `Paused`: from `Hold` to `Paused`, from any
    /// other mode to `Hold`.
    pub fn toggle_hold_pause(&mut self) -> (effects: Vec<Effect>)
        ensures
            final(self).current_mode == toggle_target(old(self).current_mode),
            final(self).power_snapshot == old(self).power_snapshot,
            final(self).forced_timeout == forced_after(
                old(self).current_mode,
                toggle_target(old(self).current_mode),
                old(self).forced_timeout,
                snapshot_timeouts(old(self).power_snapshot),
            ),
            final(self).items == (MenuItems {
                enabled: enabled_in(toggle_target(old(self).current_mode)),
                ..old(self).items
            }),
            effects@ == mode_change_effects(
                old(self).current_mode,
                toggle_target(old(self).current_mode),
                old(self).forced_timeout,
                snapshot_timeouts(old(self).power_snapshot),
            ),
    {
        let new_mode = match self.current_mode {
            Mode::Hold => Mode::Paused,
            _ => Mode::Hold,
        };
        self.set_mode(new_mode)
    }

    /// Records whether auto-start is on, which the check mark of the
    /// auto-start entry shows.
    pub fn update_autostart_state(&mut self, enabled: bool)
        ensures
            final(self).items == (MenuItems { autostart_checked: enabled, ..old(self).items }),
            final(self).current_mode == old(self).current_mode,
            final(self).power_snapshot == old(self).power_snapshot,
            final(self).forced_timeout == old(self).forced_timeout,
    {
        self.items.autostart_checked = enabled;
    }
}

/// What the system holds that the program's requests change: whether the
/// display is held awake, whether the system is kept from sleeping, whether
/// the last request of the thread stays in force (`ES_CONTINUOUS`), the
/// monitor timeouts (AC, DC) of the active scheme, and what the state file
/// records (`None`: no state file).
pub struct PowerView {
    pub display_held: bool,
    pub system_held: bool,
    pub continuous: bool,
    pub timeouts: (u32, u32),
    pub state_file: Option<(u32, u32)>,
}

/// What one request does to the system.
pub open spec fn apply_effect(p: PowerView, e: Effect) -> PowerView {
    match e {
        Effect::SetExecutionState(s) => PowerView {
            display_held: s.display_required,
            system_held: s.system_required,
            continuous: s.continuous,
            ..p
        },
        Effect::SaveStateFile(ac, dc) => PowerView { state_file: Some((ac, dc)), ..p },
        Effect::SetMonitorTimeout(t) => PowerView { timeouts: (t, t), ..p },
        Effect::RestoreTimeouts(ac, dc) => PowerView { timeouts: (ac, dc), state_file: None, ..p },
        Effect::EnableModeItems(_) => p,
    }
}

/// What the requests in `effects`, made in order and all carried out, do to
/// the system `p`.
pub open spec fn power_after(p: PowerView, effects: Seq<Effect>) -> PowerView
    decreases effects.len(),
{
    if effects.len() == 0 {
        p
    } else {
        apply_effect(power_after(p, effects.drop_last()), effects.last())
    }
}

/// The monitor timeouts in force, given the forced one (if any) and the ones
/// found at start.
pub open spec fn timeouts_in(forced: Option<u32>, found: (u32, u32)) -> (u32, u32) {
    match forced {
        Some(t) => (t, t),
        None => found,
    }
}

/// The system agrees with the program's state (`mode`, the forced timeout
/// `forced`): the display and the system are held awake exactly in `Hold`,
/// by a request that stays in force, and in every other mode the program
/// asks nothing that keeps either awake; each force-sleep
/// mode has forced its own timeout; and where the timeouts found at start
/// are known (`snap`), the forced timeout is in force where there is one and
/// the found ones otherwise, the state file records the found ones while a
/// timeout is forced, and in `Paused` none is.
pub open spec fn power_agrees(mode: Mode, forced: Option<u32>, snap: Option<(u32, u32)>, p: PowerView) -> bool {
    &&& p.display_held == (mode == Mode::Hold)
    &&& p.system_held == (mode == Mode::Hold)
    &&& p.continuous
    &&& mode == Mode::ForceSleep30 ==> forced == Some(30u32)
    &&& mode == Mode::ForceSleep60 ==> forced == Some(60u32)
    &&& match snap {
        Some(found) => {
            &&& p.timeouts == timeouts_in(forced, found)
            &&& forced is Some ==> p.state_file == Some(found)
            &&& mode == Mode::Paused ==> forced is None
        },
        None => true,
    }
}

/// The mode after choosing each mode of `choices` in turn, from `start`.
pub open spec fn mode_after(start: Mode, choices: Seq<Mode>) -> Mode {
    if choices.len() == 0 {
        start
    } else {
        choices.last()
    }
}

/// The forced timeout after choosing each mode of `choices` in turn, from
/// `start` with the forced timeout `forced`.
pub open spec fn forced_after_choices(
    start: Mode,
    forced: Option<u32>,
    snap: Option<(u32, u32)>,
    choices: Seq<Mode>,
) -> Option<u32>
    decreases choices.len(),
{
    if choices.len() == 0 {
        forced
    } else {
        forced_after(
            mode_after(start, choices.drop_last()),
            choices.last(),
            forced_after_choices(start, forced, snap, choices.drop_last()),
            snap,
        )
    }
}

/// Everything asked of the system while choosing each mode of `choices` in
/// turn, from `start` with the forced timeout `forced`.
pub open spec fn effects_of_choices(
    start: Mode,
    forced: Option<u32>,
    snap: Option<(u32, u32)>,
    choices: Seq<Mode>,
) -> Seq<Effect>
    decreases choices.len(),
{
    if choices.len() == 0 {
        seq![]
    } else {
        effects_of_choices(start, forced, snap, choices.drop_last()) + mode_change_effects(
            mode_after(start, choices.drop_last()),
            choices.last(),
            forced_after_choices(start, forced, snap, choices.drop_last()),
            snap,
        )
    }
}

proof fn lemma_power_after_concat(p: PowerView, a: Seq<Effect>, b: Seq<Effect>)
    ensures
        power_after(p, a + b) == power_after(power_after(p, a), b),
    decreases b.len(),
{
    if b.len() == 0 {
        assert(a + b =~= a);
    } else {
        lemma_power_after_concat(p, a, b.drop_last());
        assert((a + b).drop_last() =~= a + b.drop_last());
        assert((a + b).last() == b.last());
    }
}

proof fn lemma_power_after_one(p: PowerView, x: Effect)
    ensures
        power_after(p, seq![x]) == apply_effect(p, x),
{
    assert(seq![x].drop_last() =~= Seq::<Effect>::empty());
    assert(power_after(p, Seq::<Effect>::empty()) == p);
}

proof fn lemma_power_after_small(p: PowerView, s: Seq<Effect>)
    requires
        s.len() <= 2,
    ensures
        s.len() == 0 ==> power_after(p, s) == p,
        s.len() == 1 ==> power_after(p, s) == apply_effect(p, s[0]),
        s.len() == 2 ==> power_after(p, s) == apply_effect(apply_effect(p, s[0]), s[1]),
{
    if s.len() == 1 {
        assert(s =~= seq![s[0]]);
        lemma_power_after_one(p, s[0]);
    } else if s.len() == 2 {
        assert(s =~= seq![s[0]] + seq![s[1]]);
        lemma_power_after_concat(p, seq![s[0]], seq![s[1]]);
        lemma_power_after_one(p, s[0]);
        lemma_power_after_one(apply_effect(p, s[0]), s[1]);
    }
}

proof fn lemma_mode_change_agrees(
    from: Mode,
    to: Mode,
    forced: Option<u32>,
    snap: Option<(u32, u32)>,
    p: PowerView,
)
    requires
        power_agrees(from, forced, snap, p),
    ensures
        power_agrees(
            to,
            forced_after(from, to, forced, snap),
            snap,
            power_after(p, mode_change_effects(from, to, forced, snap)),
        ),
{
    if from != to {
        let l = leave_effects(from);
        let e = enter_effects(to, forced, snap);
        let m = seq![Effect::EnableModeItems(enabled_in(to))];
        assert(mode_change_effects(from, to, forced, snap) == l + e + m);
        lemma_power_after_concat(p, l + e, m);
        lemma_power_after_concat(p, l, e);
        lemma_power_after_one(power_after(p, l + e), Effect::EnableModeItems(enabled_in(to)));
        lemma_power_after_small(p, l);
        if to == Mode::ForceSleep30 || to == Mode::ForceSleep60 {
            let t: u32 = if to == Mode::ForceSleep30 {
                30
            } else {
                60
            };
            assert(e =~= save_effects(snap) + seq![Effect::SetMonitorTimeout(t)]);
            match snap {
                Some(found) => {
                    assert(e =~= seq![
                        Effect::SaveStateFile(found.0, found.1),
                        Effect::SetMonitorTimeout(t),
                    ]);
                },
                None => {
                    assert(e =~= seq![Effect::SetMonitorTimeout(t)]);
                },
            }
        }
        lemma_power_after_small(power_after(p, l), e);
    }
}

/// The system follows the program's state. From the start (with the
/// timeouts `snap` found in force then, and any state file left over), and
/// through any sequence of mode choices (a click on the tray icon is one
/// too): the display and the system are held awake exactly while the mode is
/// `Hold`, and in every other mode nothing the program asked keeps the
/// system from sleeping; where
/// the timeouts found at start are known, they are in force until a
/// force-sleep mode forces its own, which stays in force through `Hold`
/// until another force-sleep mode replaces it or `Paused` writes the found
/// ones back; and while a timeout is forced, the state file records the
/// found ones, so that a restore after a crash can write them back.
pub proof fn lemma_power_follows_mode(snap: Option<(u32, u32)>, start: PowerView, choices: Seq<Mode>)
    requires
        snap matches Some(found) ==> start.timeouts == found,
    ensures
        power_agrees(
            mode_after(Mode::Hold, choices),
            forced_after_choices(Mode::Hold, None, snap, choices),
            snap,
            power_after(
                start,
                seq![Effect::SetExecutionState(hold_state())] + effects_of_choices(
                    Mode::Hold,
                    None,
                    snap,
                    choices,
                ),
            ),
        ),
{
    let first = seq![Effect::SetExecutionState(hold_state())];
    lemma_power_after_concat(start, first, effects_of_choices(Mode::Hold, None, snap, choices));
    lemma_power_after_one(start, Effect::SetExecutionState(hold_state()));
    lemma_choices_agree(snap, power_after(start, first), choices);
}

proof fn lemma_choices_agree(snap: Option<(u32, u32)>, p: PowerView, choices: Seq<Mode>)
    requires
        power_agrees(Mode::Hold, None, snap, p),
    ensures
        power_agrees(
            mode_after(Mode::Hold, choices),
            forced_after_choices(Mode::Hold, None, snap, choices),
            snap,
            power_after(p, effects_of_choices(Mode::Hold, None, snap, choices)),
        ),
    decreases choices.len(),
{
    if choices.len() > 0 {
        let prev = choices.drop_last();
        let f = forced_after_choices(Mode::Hold, None, snap, prev);
        lemma_choices_agree(snap, p, prev);
        lemma_power_after_concat(
            p,
            effects_of_choices(Mode::Hold, None, snap, prev),
            mode_change_effects(mode_after(Mode::Hold, prev), choices.last(), f, snap),
        );
        lemma_mode_change_agrees(
            mode_after(Mode::Hold, prev),
            choices.last(),
            f,
            snap,
            power_after(p, effects_of_choices(Mode::Hold, None, snap, prev)),
        );
    }
}

/// Choosing the mode that the program is in already asks nothing of the
/// system.
pub proof fn lemma_same_mode_no_effects(mode: Mode, forced: Option<u32>, snap: Option<(u32, u32)>)
    ensures
        mode_change_effects(mode, mode, forced, snap) == Seq::<Effect>::empty(),
        forced_after(mode, mode, forced, snap) == forced,
{
}

/// Two clicks on the tray icon bring `Hold` and `Paused` back to where they
/// were; from a force-sleep mode, one click leads to `Hold`.
pub proof fn lemma_toggle_twice(mode: Mode)
    ensures
        mode == Mode::Hold || mode == Mode::Paused ==> toggle_target(toggle_target(mode)) == mode,
        mode == Mode::ForceSleep30 || mode == Mode::ForceSleep60 ==> toggle_target(mode) == Mode::Hold,
{
}

} // verus!
