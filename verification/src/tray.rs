use vstd::prelude::*;

use crate::state::{
    enabled_in, forced_after, mode_change_effects, snapshot_timeouts, toggle_target, Effect, MenuEntry, MenuItems,
    Mode, ModeItemsEnabled, State,
};
use crate::bmp::{bmp_reads_past_color_table, reads_past_color_table};
use ico::IconDir;

verus! {

// ---------------------------------------------------------------------------
// Icons
// ---------------------------------------------------------------------------

/// Which of the two icons the tray shows.
#[derive(Debug, Clone, Copy, PartialEq, Eq, Structural)]
pub enum IconKind {
    /// The screen is held awake.
    Awake,
    /// The screen is left to turn off.
    Off,
}

/// The icon of a mode: the awake icon in `Hold`, the other one otherwise.
pub fn icon_for_mode(mode: Mode) -> (r: IconKind)
    ensures
        r == (if mode == Mode::Hold {
            IconKind::Awake
        } else {
            IconKind::Off
        }),
{
    match mode {
        Mode::Hold => IconKind::Awake,
        Mode::ForceSleep30 | Mode::ForceSleep60 | Mode::Paused => IconKind::Off,
    }
}

#[verifier::external_type_specification]
#[verifier::external_body]
pub struct ExIconDir(ico::IconDir);

/// One entry of an icon directory as the program reads it: its width, its
/// height, its raw image data, and the RGBA pixels that decoding it gives
/// (`None` where decoding fails; for data that decoding would look up beyond
/// its colour table, see `bmp_reads_past_color_table`, no pixels are claimed).
pub type IconEntry = (u32, u32, Seq<u8>, Option<Seq<u8>>);

/// What `ico::IconDir::read` makes of the bytes of an ICO file: `None`
/// where it fails, otherwise its entries.
pub uninterp spec fn ico_entries(bytes: Seq<u8>) -> Option<Seq<(u32, u32, Seq<u8>, Option<Seq<u8>>)>>;

/// The entries of an icon directory.
pub uninterp spec fn icon_dir_entries(dir: IconDir) -> Seq<(u32, u32, Seq<u8>, Option<Seq<u8>>)>;

/// Calls `ico::IconDir::read` on the bytes, read from memory.
///
/// The reader only reads the bytes, so the outcome depends on them alone:
/// the contract names it (`ico_entries`) and ties the directory that comes
/// back to it.
#[verifier::external_body]
fn read_icon_dir(bytes: &[u8]) -> (r: Option<IconDir>)
    ensures
        r is Some <==> ico_entries(bytes@) is Some,
        r matches Some(d) ==> ico_entries(bytes@) == Some(icon_dir_entries(d)),
{
    ico::IconDir::read(std::io::Cursor::new(bytes)).ok()
}

/// Calls `ico::IconDir::entries` and hands out each entry's `width()` and
/// `height()`, in order.
#[verifier::external_body]
fn icon_entry_sizes(dir: &IconDir) -> (r: Vec<(u32, u32)>)
    ensures
        r@.len() == icon_dir_entries(*dir).len(),
        forall|i: int|
            0 <= i < r@.len() ==> #[trigger] r@[i] == (
                icon_dir_entries(*dir)[i].0,
                icon_dir_entries(*dir)[i].1,
            ),
{
    dir.entries().iter().map(|e| (e.width(), e.height())).collect()
}

/// Calls `ico::IconDirEntry::data` on the entry at `index`: its raw image
/// data.
#[verifier::external_body]
fn icon_entry_data(dir: &IconDir, index: usize) -> (r: Vec<u8>)
    requires
        index < icon_dir_entries(*dir).len(),
    ensures
        r@ == icon_dir_entries(*dir)[index as int].2,
{
    dir.entries()[index].data().to_vec()
}

/// Calls `ico::IconDirEntry::decode` on the entry at `index` and hands out
/// the image's RGBA data, `width()` and `height()`.
///
/// Decoding a BMP looks each pixel's colour up in the colour table by
/// index, without a bound check, so data that would look beyond the table
/// is left out. The source rejects an image whose size differs from the
/// entry's, so a decoded image has the entry's width and height.
#[verifier::external_body]
fn decode_icon_entry(dir: &IconDir, index: usize) -> (r: Option<(Vec<u8>, u32, u32)>)
    requires
        index < icon_dir_entries(*dir).len(),
        !bmp_reads_past_color_table(icon_dir_entries(*dir)[index as int].2),
    ensures
        r is Some <==> icon_dir_entries(*dir)[index as int].3 is Some,
        r matches Some((data, w, h)) ==> {
            &&& Some(data@) == icon_dir_entries(*dir)[index as int].3
            &&& w == icon_dir_entries(*dir)[index as int].0
            &&& h == icon_dir_entries(*dir)[index as int].1
        },
{
    let image = dir.entries()[index].decode().ok()?;
    Some((image.rgba_data().to_vec(), image.width(), image.height()))
}

/// The size by which entries are compared: the larger side.
pub open spec fn entry_key(size: (u32, u32)) -> u32 {
    if size.0 >= size.1 {
        size.0
    } else {
        size.1
    }
}

/// `i` is the entry that the icon is made from: one of the largest, and the
/// last of them.
pub open spec fn is_chosen_entry(sizes: Seq<(u32, u32)>, i: int) -> bool {
    &&& 0 <= i < sizes.len()
    &&& forall|j: int| 0 <= j < sizes.len() ==> entry_key(#[trigger] sizes[j]) <= entry_key(sizes[i])
    &&& forall|j: int| i < j < sizes.len() ==> entry_key(#[trigger] sizes[j]) < entry_key(sizes[i])
}

/// The chosen entry is the largest by its larger side, as numbers: no side
/// of any entry exceeds the larger side of the chosen one, and every entry
/// after it has both sides below that larger side.
pub proof fn lemma_chosen_is_largest(sizes: Seq<(u32, u32)>, i: int)
    requires
        is_chosen_entry(sizes, i),
    ensures
        forall|j: int|
            0 <= j < sizes.len() ==> {
                &&& (#[trigger] sizes[j]).0 <= sizes[i].0 || sizes[j].0 <= sizes[i].1
                &&& sizes[j].1 <= sizes[i].0 || sizes[j].1 <= sizes[i].1
            },
        forall|j: int|
            i < j < sizes.len() ==> {
                &&& (#[trigger] sizes[j]).0 < sizes[i].0 || sizes[j].0 < sizes[i].1
                &&& sizes[j].1 < sizes[i].0 || sizes[j].1 < sizes[i].1
            },
{
    assert forall|j: int| 0 <= j < sizes.len() implies {
        &&& (#[trigger] sizes[j]).0 <= sizes[i].0 || sizes[j].0 <= sizes[i].1
        &&& sizes[j].1 <= sizes[i].0 || sizes[j].1 <= sizes[i].1
    } by {
        assert(entry_key(sizes[j]) <= entry_key(sizes[i]));
    }
    assert forall|j: int| i < j < sizes.len() implies {
        &&& (#[trigger] sizes[j]).0 < sizes[i].0 || sizes[j].0 < sizes[i].1
        &&& sizes[j].1 < sizes[i].0 || sizes[j].1 < sizes[i].1
    } by {
        assert(entry_key(sizes[j]) < entry_key(sizes[i]));
    }
}

/// The entry that the icon is made from, among entries of the sizes
/// `sizes`: the last of the largest, or `None` where there is none.
pub fn pick_icon_entry(sizes: &Vec<(u32, u32)>) -> (r: Option<usize>)
    ensures
        r is None <==> sizes@.len() == 0,
        r matches Some(i) ==> is_chosen_entry(sizes@, i as int),
        r matches Some(i) ==> forall|j: int|
            0 <= j < sizes@.len() ==> {
                &&& (#[trigger] sizes@[j]).0 <= sizes@[i as int].0 || sizes@[j].0 <= sizes@[i as int].1
                &&& sizes@[j].1 <= sizes@[i as int].0 || sizes@[j].1 <= sizes@[i as int].1
            },
{
    let n = sizes.len();
    if n == 0 {
        return None;
    }
    let mut best: usize = 0;
    let mut i: usize = 1;
    while i < n
        invariant
            n == sizes@.len(),
            1 <= i <= n,
            best < i,
            forall|j: int| 0 <= j < i ==> entry_key(#[trigger] sizes@[j]) <= entry_key(sizes@[best as int]),
            forall|j: int| best < j < i ==> entry_key(#[trigger] sizes@[j]) < entry_key(sizes@[best as int]),
        decreases n - i,
    {
        let (w, h) = sizes[i];
        let key = if w >= h { w } else { h };
        let (bw, bh) = sizes[best];
        let best_key = if bw >= bh { bw } else { bh };
        if key >= best_key {
            best = i;
        }
        i = i + 1;
    }
    proof {
        lemma_chosen_is_largest(sizes@, best as int);
    }
    Some(best)
}

/// Why an icon could not be made.
#[derive(Debug, Clone, Copy, PartialEq, Eq, Structural)]
pub enum IconError {
    /// The bytes are not an ICO file.
    Read,
    /// The file holds no image.
    NoEntries,
    /// The chosen image could not be decoded.
    Decode,
}

impl IconError {
    /// The message that reports the error.
    pub fn message(self) -> (r: &'static str)
        ensures
            r@ == match self {
                IconError::Read => "Failed to read icon"@,
                IconError::NoEntries => "Icon has no entries"@,
                IconError::Decode => "Failed to decode icon entry"@,
            },
    {
        match self {
            IconError::Read => "Failed to read icon",
            IconError::NoEntries => "Icon has no entries",
            IconError::Decode => "Failed to decode icon entry",
        }
    }
}

/// An image for the tray: RGBA pixels, row by row, and its size.
pub struct IconPixels {
    pub rgba: Vec<u8>,
    pub width: u32,
    pub height: u32,
}

/// The sizes of a list of entries.
pub open spec fn entry_sizes(entries: Seq<IconEntry>) -> Seq<(u32, u32)> {
    entries.map_values(|e: IconEntry| (e.0, e.1))
}

/// The ICO file `bytes` gives a tray image: it is read, it holds an image,
/// and the chosen image decodes (without looking beyond its colour table).
pub open spec fn icon_loads(bytes: Seq<u8>) -> bool {
    match ico_entries(bytes) {
        None => false,
        Some(es) => es.len() > 0 && forall|i: int|
            is_chosen_entry(entry_sizes(es), i) ==> !bmp_reads_past_color_table(es[i].2)
                && es[i].3 is Some,
    }
}

proof fn lemma_chosen_unique(sizes: Seq<(u32, u32)>, index: int)
    requires
        is_chosen_entry(sizes, index),
    ensures
        forall|i: int| is_chosen_entry(sizes, i) ==> i == index,
{
    assert forall|i: int| is_chosen_entry(sizes, i) implies i == index by {
        if i < index {
            assert(entry_key(sizes[index]) < entry_key(sizes[i]));
        } else if i > index {
            assert(entry_key(sizes[i]) < entry_key(sizes[index]));
        }
    }
}

/// Makes the tray image from the bytes of an ICO file: the largest of its
/// images (the last of them where several are equally large), decoded. Where
/// it cannot be made, tells why not: the bytes are not an ICO file, it holds
/// no image, or the chosen image does not decode (or would look a colour up
/// beyond its colour table).
pub fn try_load_icon(bytes: &[u8]) -> (r: Result<IconPixels, IconError>)
    ensures
        r is Ok <==> icon_loads(bytes@),
        match ico_entries(bytes@) {
            None => r matches Err(IconError::Read),
            Some(es) => if es.len() == 0 {
                r matches Err(IconError::NoEntries)
            } else {
                forall|i: int|
                    is_chosen_entry(entry_sizes(es), i) ==> if bmp_reads_past_color_table(es[i].2) {
                        r matches Err(IconError::Decode)
                    } else {
                        match es[i].3 {
                            None => r matches Err(IconError::Decode),
                            Some(px) => r matches Ok(p) && p.rgba@ == px && p.width == es[i].0
                                && p.height == es[i].1,
                        }
                    }
            },
        },
{
    let dir = match read_icon_dir(bytes) {
        Some(d) => d,
        None => return Err(IconError::Read),
    };
    let ghost es = icon_dir_entries(dir);
    let sizes = icon_entry_sizes(&dir);
    assert(sizes@ =~= entry_sizes(es));
    let index = match pick_icon_entry(&sizes) {
        Some(i) => i,
        None => return Err(IconError::NoEntries),
    };
    proof {
        lemma_chosen_unique(entry_sizes(es), index as int);
    }
    let data = icon_entry_data(&dir, index);
    if reads_past_color_table(data.as_slice()) {
        return Err(IconError::Decode);
    }
    match decode_icon_entry(&dir, index) {
        Some((rgba, width, height)) => Ok(IconPixels { rgba, width, height }),
        None => Err(IconError::Decode),
    }
}

// ---------------------------------------------------------------------------
// The event loop
// ---------------------------------------------------------------------------

/// An event of the tray's event loop, as far as the program tells events
/// apart.
#[derive(Debug, Clone, Copy, PartialEq, Eq, Structural)]
pub enum TrayEvent {
    /// A click on the tray icon: with the left button or not, and the
    /// button released or pressed.
    Click { left_button: bool, button_up: bool },
    /// Any other event of the tray icon.
    OtherTrayEvent,
    /// A menu entry was chosen (`None`: an entry that the program did not make).
    Menu(Option<MenuEntry>),
    /// Whether auto-start is on, in answer to `QueryAutostart`.
    AutostartStatus(bool),
    /// Any other event of the loop.
    Other,
}

/// What the event loop asks of the system, in order.
#[derive(Debug, Clone, Copy, PartialEq, Eq, Structural)]
pub enum LoopEffect {
    /// An effect of a change of mode.
    State(Effect),
    /// Ask whether auto-start is on, and hand the answer back as
    /// `AutostartStatus`.
    QueryAutostart,
    /// Switch auto-start on or off (the steps of `set_autostart`); the
    /// outcome is not looked at.
    SetAutostart(bool),
    /// Ask whether auto-start is on and show it on the auto-start entry.
    UpdateAutostartState,
    /// Show the tooltip and the icon of this mode on the tray icon.
    RefreshTray(Mode),
    /// Remove the tray icon.
    DropTray,
    /// Leave the event loop.
    Exit,
}

/// The effects of a change of mode, as effects of the loop.
pub open spec fn as_loop_effects(effects: Seq<Effect>) -> Seq<LoopEffect> {
    effects.map_values(|e: Effect| LoopEffect::State(e))
}

/// The refresh of the tray icon, where there still is one.
pub open spec fn refresh_if_present(present: bool, mode: Mode) -> Seq<LoopEffect> {
    if present {
        seq![LoopEffect::RefreshTray(mode)]
    } else {
        seq![]
    }
}

/// The mode that a menu entry selects, if it selects one.
pub open spec fn entry_mode(entry: MenuEntry) -> Option<Mode> {
    match entry {
        MenuEntry::Hold => Some(Mode::Hold),
        MenuEntry::Sleep30 => Some(Mode::ForceSleep30),
        MenuEntry::Sleep60 => Some(Mode::ForceSleep60),
        MenuEntry::Paused => Some(Mode::Paused),
        _ => None,
    }
}

/// Whether `items` lets the entry `e` be chosen (entries other than the four
/// mode entries are not disabled by a mode).
pub open spec fn entry_enabled(items: ModeItemsEnabled, e: MenuEntry) -> bool {
    match e {
        MenuEntry::Hold => items.hold,
        MenuEntry::Sleep30 => items.sleep30,
        MenuEntry::Sleep60 => items.sleep60,
        MenuEntry::Paused => items.paused,
        _ => true,
    }
}

/// Each mode entry selects the mode it names. Exactly the four mode entries
/// select a mode, no two of them the same one; in the mode that an entry
/// selects, that entry and no other mode entry is disabled; the entry of
/// 30 seconds, chosen in any other mode, forces a timeout of 30 seconds, and
/// that of one minute one of 60.
pub proof fn lemma_entry_selects_its_mode(
    e: MenuEntry,
    other: MenuEntry,
    from: Mode,
    forced: Option<u32>,
    snap: Option<(u32, u32)>,
)
    ensures
        entry_mode(e) is Some <==> (e == MenuEntry::Hold || e == MenuEntry::Sleep30 || e
            == MenuEntry::Sleep60 || e == MenuEntry::Paused),
        entry_mode(e) is Some && entry_mode(e) == entry_mode(other) ==> e == other,
        entry_mode(e) matches Some(m) ==> !entry_enabled(enabled_in(m), e),
        entry_mode(e) matches Some(m) ==> (other != e ==> entry_enabled(enabled_in(m), other)),
        e == MenuEntry::Sleep30 && from != Mode::ForceSleep30 ==> (entry_mode(e) matches Some(m)
            && forced_after(from, m, forced, snap) == Some(30u32)
            && mode_change_effects(from, m, forced, snap).contains(Effect::SetMonitorTimeout(30))),
        e == MenuEntry::Sleep60 && from != Mode::ForceSleep60 ==> (entry_mode(e) matches Some(m)
            && forced_after(from, m, forced, snap) == Some(60u32)
            && mode_change_effects(from, m, forced, snap).contains(Effect::SetMonitorTimeout(60))),
{
    if e == MenuEntry::Sleep30 && from != Mode::ForceSleep30 {
        let fx = mode_change_effects(from, Mode::ForceSleep30, forced, snap);
        let k = fx.len() - 2;
        assert(fx[k] == Effect::SetMonitorTimeout(30));
    }
    if e == MenuEntry::Sleep60 && from != Mode::ForceSleep60 {
        let fx = mode_change_effects(from, Mode::ForceSleep60, forced, snap);
        let k = fx.len() - 2;
        assert(fx[k] == Effect::SetMonitorTimeout(60));
    }
}

/// The state of the event loop: the program's state, and whether the tray
/// icon is still there.
pub struct TrayLoop {
    pub state: State,
    pub tray_present: bool,
}

fn push_state_effects(out: &mut Vec<LoopEffect>, effects: Vec<Effect>)
    ensures
        final(out)@ == old(out)@ + as_loop_effects(effects@),
{
    let n = effects.len();
    let mut i: usize = 0;
    while i < n
        invariant
            n == effects@.len(),
            i <= n,
            out@ == old(out)@ + as_loop_effects(effects@.take(i as int)),
        decreases n - i,
    {
        out.push(LoopEffect::State(effects[i]));
        assert(as_loop_effects(effects@.take(i + 1)) =~= as_loop_effects(effects@.take(i as int)).push(
            LoopEffect::State(effects@[i as int]),
        ));
        i = i + 1;
    }
    assert(effects@.take(n as int) =~= effects@);
}

fn push_refresh(out: &mut Vec<LoopEffect>, present: bool, mode: Mode)
    ensures
        final(out)@ == old(out)@ + refresh_if_present(present, mode),
{
    if present {
        out.push(LoopEffect::RefreshTray(mode));
    }
    assert(final(out)@ =~= old(out)@ + refresh_if_present(present, mode));
}

impl TrayLoop {
    /// The loop at start, with the tray icon shown.
    pub fn new(state: State) -> (r: TrayLoop)
        ensures
            r.state == state,
            r.tray_present,
    {
        TrayLoop { state, tray_present: true }
    }

    /// Handles one event. A left click (on release) swaps `Hold` and
    /// `Paused`; a mode entry selects its mode; the auto-start entry asks
    /// whether auto-start is on and then switches it over; the exit entry
    /// removes the tray icon and leaves the loop. After each of these but
    /// the first step of the auto-start entry, the tray icon, where it is
    /// still there, shows the current mode.
    pub fn handle_event(&mut self, event: TrayEvent) -> (r: Vec<LoopEffect>)
        ensures
            final(self).state.power_snapshot == old(self).state.power_snapshot,
            !old(self).tray_present ==> !final(self).tray_present && forall|i: int|
                0 <= i < r@.len() ==> !(#[trigger] r@[i] is RefreshTray),
            match event {
                TrayEvent::Click { left_button, button_up } => if left_button && button_up {
                    &&& final(self).state.current_mode == toggle_target(old(self).state.current_mode)
                    &&& final(self).state.forced_timeout == forced_after(
                        old(self).state.current_mode,
                        toggle_target(old(self).state.current_mode),
                        old(self).state.forced_timeout,
                        snapshot_timeouts(old(self).state.power_snapshot),
                    )
                    &&& final(self).state.items == (MenuItems {
                        enabled: enabled_in(toggle_target(old(self).state.current_mode)),
                        ..old(self).state.items
                    })
                    &&& final(self).tray_present == old(self).tray_present
                    &&& r@ == as_loop_effects(
                        mode_change_effects(
                            old(self).state.current_mode,
                            toggle_target(old(self).state.current_mode),
                            old(self).state.forced_timeout,
                            snapshot_timeouts(old(self).state.power_snapshot),
                        ),
                    ) + refresh_if_present(old(self).tray_present, final(self).state.current_mode)
                } else {
                    final(self).state == old(self).state && final(self).tray_present
                        == old(self).tray_present && r@.len() == 0
                },
                TrayEvent::Menu(Some(entry)) => match entry_mode(entry) {
                    Some(m) => {
                        &&& final(self).state.current_mode == m
                        &&& final(self).state.forced_timeout == forced_after(
                            old(self).state.current_mode,
                            m,
                            old(self).state.forced_timeout,
                            snapshot_timeouts(old(self).state.power_snapshot),
                        )
                        &&& final(self).state.items == if old(self).state.current_mode == m {
                            old(self).state.items
                        } else {
                            MenuItems { enabled: enabled_in(m), ..old(self).state.items }
                        }
                        &&& final(self).tray_present == old(self).tray_present
                        &&& r@ == as_loop_effects(
                            mode_change_effects(
                                old(self).state.current_mode,
                                m,
                                old(self).state.forced_timeout,
                                snapshot_timeouts(old(self).state.power_snapshot),
                            ),
                        )
                            + refresh_if_present(old(self).tray_present, m)
                    },
                    None => if entry == MenuEntry::Autostart {
                        final(self).state == old(self).state && final(self).tray_present
                            == old(self).tray_present && r@ == seq![LoopEffect::QueryAutostart]
                    } else {
                        final(self).state == old(self).state && !final(self).tray_present && r@
                            == seq![LoopEffect::DropTray, LoopEffect::Exit]
                    },
                },
                TrayEvent::Menu(None) => {
                    &&& final(self).state == old(self).state
                    &&& final(self).tray_present == old(self).tray_present
                    &&& r@ == refresh_if_present(old(self).tray_present, old(self).state.current_mode)
                },
                TrayEvent::AutostartStatus(enabled) => {
                    &&& final(self).state == old(self).state
                    &&& final(self).tray_present == old(self).tray_present
                    &&& r@ == seq![LoopEffect::SetAutostart(!enabled), LoopEffect::UpdateAutostartState]
                        + refresh_if_present(old(self).tray_present, old(self).state.current_mode)
                },
                TrayEvent::OtherTrayEvent | TrayEvent::Other => {
                    &&& final(self).state == old(self).state
                    &&& final(self).tray_present == old(self).tray_present
                    &&& r@.len() == 0
                },
            },
    {
        let mut out: Vec<LoopEffect> = Vec::new();
        match event {
            TrayEvent::Click { left_button, button_up } => {
                if left_button && button_up {
                    let effects = self.state.toggle_hold_pause();
                    push_state_effects(&mut out, effects);
                    push_refresh(&mut out, self.tray_present, self.state.current_mode);
                }
            },
            TrayEvent::Menu(Some(entry)) => {
                match entry {
                    MenuEntry::Hold => {
                        let effects = self.state.set_mode(Mode::Hold);
                        push_state_effects(&mut out, effects);
                    },
                    MenuEntry::Sleep30 => {
                        let effects = self.state.set_mode(Mode::ForceSleep30);
                        push_state_effects(&mut out, effects);
                    },
                    MenuEntry::Sleep60 => {
                        let effects = self.state.set_mode(Mode::ForceSleep60);
                        push_state_effects(&mut out, effects);
                    },
                    MenuEntry::Paused => {
                        let effects = self.state.set_mode(Mode::Paused);
                        push_state_effects(&mut out, effects);
                    },
                    MenuEntry::Autostart => {
                        out.push(LoopEffect::QueryAutostart);
                        assert(out@ =~= seq![LoopEffect::QueryAutostart]);
                        return out;
                    },
                    MenuEntry::Exit => {
                        self.tray_present = false;
                        out.push(LoopEffect::DropTray);
                        out.push(LoopEffect::Exit);
                        assert(out@ =~= seq![LoopEffect::DropTray, LoopEffect::Exit]);
                        return out;
                    },
                }
                push_refresh(&mut out, self.tray_present, self.state.current_mode);
            },
            TrayEvent::Menu(None) => {
                push_refresh(&mut out, self.tray_present, self.state.current_mode);
                assert(out@ =~= refresh_if_present(old(self).tray_present, old(self).state.current_mode));
            },
            TrayEvent::AutostartStatus(enabled) => {
                out.push(LoopEffect::SetAutostart(!enabled));
                out.push(LoopEffect::UpdateAutostartState);
                push_refresh(&mut out, self.tray_present, self.state.current_mode);
            },
            TrayEvent::OtherTrayEvent | TrayEvent::Other => {},
        }
        out
    }
}

} // verus!
