//! The tray icon: its menu, what each menu command does, and the settings
//! changes that the menu makes directly.
use vstd::prelude::*;
use crate::clicker::{ClickMode, mode_name};
use crate::config::Config;

verus! {

/// Menu command: show the main window.
pub const ID_SHOW: u32 = 1;
/// Menu command: start or stop clicking.
pub const ID_TOGGLE: u32 = 2;
/// Menu command: pick the target point.
pub const ID_PICK: u32 = 3;
/// Menu command: universal click mode.
pub const ID_MODE_UNIVERSAL: u32 = 10;
/// Menu command: background click mode.
pub const ID_MODE_BACKGROUND: u32 = 11;
/// Menu command: 50 ms interval.
pub const ID_INT_50: u32 = 20;
/// Menu command: 100 ms interval.
pub const ID_INT_100: u32 = 21;
/// Menu command: 200 ms interval.
pub const ID_INT_200: u32 = 22;
/// Menu command: 500 ms interval.
pub const ID_INT_500: u32 = 23;
/// Menu command: 10 s countdown.
pub const ID_DUR_10: u32 = 30;
/// Menu command: 30 s countdown.
pub const ID_DUR_30: u32 = 31;
/// Menu command: 1 min countdown.
pub const ID_DUR_60: u32 = 32;
/// Menu command: 5 min countdown.
pub const ID_DUR_300: u32 = 33;
/// Menu command: no countdown.
pub const ID_DUR_INF: u32 = 34;
/// Menu command: keep the window on top.
pub const ID_TOPMOST: u32 = 40;
/// Menu command: quit.
pub const ID_QUIT: u32 = 99;

/// The number of the tray icon.
pub const TRAY_ID: u32 = 1;
/// The first message number free for applications.
pub const WM_APP: u32 = 0x8000;
/// The message through which the tray icon reports mouse events.
pub const CALLBACK_MSG: u32 = WM_APP + 1;
/// Left mouse button released.
pub const WM_LBUTTONUP: u32 = 0x0202;
/// Right mouse button released.
pub const WM_RBUTTONUP: u32 = 0x0205;

/// Tray actions that only the window's own thread can carry out.
#[derive(Clone, Copy, PartialEq, Eq, Debug, Structural)]
pub enum TrayEvent {
    /// Open the point picker (the main window was already restored).
    Pick,
    /// Switch keeping the window on top.
    ToggleOnTop,
    /// Quit: the window saves the settings and closes.
    Quit,
}

/// The state that the window hands to the tray for its menu.
#[derive(Clone, Copy, PartialEq, Eq, Debug, Structural)]
pub struct TrayState {
    pub running: bool,
    pub has_point: bool,
    pub interval_ms: u64,
    pub duration_sec: u64,
    pub background_mode: bool,
    pub always_on_top: bool,
}

impl Default for TrayState {
    fn default() -> (s: TrayState)
        ensures
            s == (TrayState {
                running: false,
                has_point: false,
                interval_ms: 100,
                duration_sec: 30,
                background_mode: false,
                always_on_top: false,
            }),
    {
        TrayState {
            running: false,
            has_point: false,
            interval_ms: 100,
            duration_sec: 30,
            background_mode: false,
            always_on_top: false,
        }
    }
}

/// The interval presets of the menu: command and milliseconds.
pub open spec fn interval_presets() -> Seq<(u32, u64)> {
    seq![(ID_INT_50, 50u64), (ID_INT_100, 100u64), (ID_INT_200, 200u64), (ID_INT_500, 500u64)]
}

/// The countdown presets of the menu: command and seconds (0: no limit).
pub open spec fn duration_presets() -> Seq<(u32, u64)> {
    seq![
        (ID_DUR_10, 10u64),
        (ID_DUR_30, 30u64),
        (ID_DUR_60, 60u64),
        (ID_DUR_300, 300u64),
        (ID_DUR_INF, 0u64),
    ]
}

/// One entry of the tray menu.
#[derive(Clone, Copy, PartialEq, Eq, Debug, Structural)]
pub struct MenuItem {
    pub id: u32,
    pub checked: bool,
    pub grayed: bool,
}

/// Which text the start/stop entry shows.
#[derive(Clone, Copy, PartialEq, Eq, Debug, Structural)]
pub enum ToggleLabel {
    /// "Stop clicking (F6)".
    Stop,
    /// "Start clicking (F6)".
    Start,
}

/// The tray menu: the entries of the main menu and of its three submenus.
#[derive(Clone, Debug)]
pub struct TrayMenu {
    pub show: MenuItem,
    pub toggle: MenuItem,
    pub toggle_label: ToggleLabel,
    pub pick: MenuItem,
    pub modes: Vec<MenuItem>,
    pub intervals: Vec<MenuItem>,
    pub durations: Vec<MenuItem>,
    pub topmost: MenuItem,
    pub quit: MenuItem,
}

/// The tray menu as values.
pub struct TrayMenuView {
    pub show: MenuItem,
    pub toggle: MenuItem,
    pub toggle_label: ToggleLabel,
    pub pick: MenuItem,
    pub modes: Seq<MenuItem>,
    pub intervals: Seq<MenuItem>,
    pub durations: Seq<MenuItem>,
    pub topmost: MenuItem,
    pub quit: MenuItem,
}

impl View for TrayMenu {
    type V = TrayMenuView;

    open spec fn view(&self) -> TrayMenuView {
        TrayMenuView {
            show: self.show,
            toggle: self.toggle,
            toggle_label: self.toggle_label,
            pick: self.pick,
            modes: self.modes@,
            intervals: self.intervals@,
            durations: self.durations@,
            topmost: self.topmost,
            quit: self.quit,
        }
    }
}

/// The entries for a preset table: the one whose value is the current one
/// is checked; all are grayed while `locked`.
pub open spec fn preset_items(presets: Seq<(u32, u64)>, current: u64, locked: bool) -> Seq<MenuItem> {
    Seq::new(
        presets.len(),
        |i: int| MenuItem { id: presets[i].0, checked: presets[i].1 == current, grayed: locked },
    )
}

/// The tray menu for a state: the toggle offers to stop while clicking runs
/// and to start otherwise, and is grayed until a point is picked; picking and all settings are grayed while clicking runs; the
/// current mode, interval, countdown and the on-top switch are checked.
pub open spec fn menu_spec(st: TrayState) -> TrayMenuView {
    TrayMenuView {
        show: MenuItem { id: ID_SHOW, checked: false, grayed: false },
        toggle: MenuItem { id: ID_TOGGLE, checked: false, grayed: !st.has_point },
        toggle_label: if st.running {
            ToggleLabel::Stop
        } else {
            ToggleLabel::Start
        },
        pick: MenuItem { id: ID_PICK, checked: false, grayed: st.running },
        modes: seq![
            MenuItem { id: ID_MODE_UNIVERSAL, checked: !st.background_mode, grayed: st.running },
            MenuItem { id: ID_MODE_BACKGROUND, checked: st.background_mode, grayed: st.running },
        ],
        intervals: preset_items(interval_presets(), st.interval_ms, st.running),
        durations: preset_items(duration_presets(), st.duration_sec, st.running),
        topmost: MenuItem { id: ID_TOPMOST, checked: st.always_on_top, grayed: false },
        quit: MenuItem { id: ID_QUIT, checked: false, grayed: false },
    }
}

fn item(id: u32, checked: bool, grayed: bool) -> (m: MenuItem)
    ensures
        m == (MenuItem { id, checked, grayed }),
{
    MenuItem { id, checked, grayed }
}

/// The tray menu for the state the window last reported.
pub fn tray_menu(st: &TrayState) -> (m: TrayMenu)
    ensures
        m@ == menu_spec(*st),
{
    let lock = st.running;
    let mut modes: Vec<MenuItem> = Vec::new();
    modes.push(item(ID_MODE_UNIVERSAL, !st.background_mode, lock));
    modes.push(item(ID_MODE_BACKGROUND, st.background_mode, lock));
    let mut intervals: Vec<MenuItem> = Vec::new();
    intervals.push(item(ID_INT_50, st.interval_ms == 50, lock));
    intervals.push(item(ID_INT_100, st.interval_ms == 100, lock));
    intervals.push(item(ID_INT_200, st.interval_ms == 200, lock));
    intervals.push(item(ID_INT_500, st.interval_ms == 500, lock));
    let mut durations: Vec<MenuItem> = Vec::new();
    durations.push(item(ID_DUR_10, st.duration_sec == 10, lock));
    durations.push(item(ID_DUR_30, st.duration_sec == 30, lock));
    durations.push(item(ID_DUR_60, st.duration_sec == 60, lock));
    durations.push(item(ID_DUR_300, st.duration_sec == 300, lock));
    durations.push(item(ID_DUR_INF, st.duration_sec == 0, lock));
    let m = TrayMenu {
        show: item(ID_SHOW, false, false),
        toggle: item(ID_TOGGLE, false, !st.has_point),
        toggle_label: if st.running {
            ToggleLabel::Stop
        } else {
            ToggleLabel::Start
        },
        pick: item(ID_PICK, false, lock),
        modes,
        intervals,
        durations,
        topmost: item(ID_TOPMOST, st.always_on_top, false),
        quit: item(ID_QUIT, false, false),
    };
    assert(m@.modes =~= menu_spec(*st).modes);
    assert(m@.intervals =~= menu_spec(*st).intervals);
    assert(m@.durations =~= menu_spec(*st).durations);
    m
}

/// A change of the stored settings that the tray menu makes.
#[derive(Clone, Copy, PartialEq, Eq, Debug, Structural)]
pub enum ConfigChange {
    Mode(ClickMode),
    IntervalMs(u64),
    DurationSec(u64),
}

/// What a chosen tray menu command does.
#[derive(Clone, Copy, PartialEq, Eq, Debug, Structural)]
pub enum TrayCommand {
    /// Show the main window.
    ShowWindow,
    /// Start or stop clicking with the stored settings.
    Toggle,
    /// Show the main window and open the point picker.
    Pick,
    /// Change the stored settings and save them.
    Change(ConfigChange),
    /// Switch keeping the window on top.
    ToggleOnTop,
    /// Quit.
    Quit,
    /// Nothing (the menu was dismissed).
    Ignore,
}

/// What each menu command does.
pub open spec fn command_spec(cmd: u32) -> TrayCommand {
    if cmd == ID_SHOW {
        TrayCommand::ShowWindow
    } else if cmd == ID_TOGGLE {
        TrayCommand::Toggle
    } else if cmd == ID_PICK {
        TrayCommand::Pick
    } else if cmd == ID_MODE_UNIVERSAL {
        TrayCommand::Change(ConfigChange::Mode(ClickMode::Universal))
    } else if cmd == ID_MODE_BACKGROUND {
        TrayCommand::Change(ConfigChange::Mode(ClickMode::Background))
    } else if cmd == ID_INT_50 {
        TrayCommand::Change(ConfigChange::IntervalMs(50))
    } else if cmd == ID_INT_100 {
        TrayCommand::Change(ConfigChange::IntervalMs(100))
    } else if cmd == ID_INT_200 {
        TrayCommand::Change(ConfigChange::IntervalMs(200))
    } else if cmd == ID_INT_500 {
        TrayCommand::Change(ConfigChange::IntervalMs(500))
    } else if cmd == ID_DUR_10 {
        TrayCommand::Change(ConfigChange::DurationSec(10))
    } else if cmd == ID_DUR_30 {
        TrayCommand::Change(ConfigChange::DurationSec(30))
    } else if cmd == ID_DUR_60 {
        TrayCommand::Change(ConfigChange::DurationSec(60))
    } else if cmd == ID_DUR_300 {
        TrayCommand::Change(ConfigChange::DurationSec(300))
    } else if cmd == ID_DUR_INF {
        TrayCommand::Change(ConfigChange::DurationSec(0))
    } else if cmd == ID_TOPMOST {
        TrayCommand::ToggleOnTop
    } else if cmd == ID_QUIT {
        TrayCommand::Quit
    } else {
        TrayCommand::Ignore
    }
}

/// What the menu command that the user chose does.
pub fn tray_command(cmd: u32) -> (c: TrayCommand)
    ensures
        c == command_spec(cmd),
{
    if cmd == ID_SHOW {
        TrayCommand::ShowWindow
    } else if cmd == ID_TOGGLE {
        TrayCommand::Toggle
    } else if cmd == ID_PICK {
        TrayCommand::Pick
    } else if cmd == ID_MODE_UNIVERSAL {
        TrayCommand::Change(ConfigChange::Mode(ClickMode::Universal))
    } else if cmd == ID_MODE_BACKGROUND {
        TrayCommand::Change(ConfigChange::Mode(ClickMode::Background))
    } else if cmd == ID_INT_50 {
        TrayCommand::Change(ConfigChange::IntervalMs(50))
    } else if cmd == ID_INT_100 {
        TrayCommand::Change(ConfigChange::IntervalMs(100))
    } else if cmd == ID_INT_200 {
        TrayCommand::Change(ConfigChange::IntervalMs(200))
    } else if cmd == ID_INT_500 {
        TrayCommand::Change(ConfigChange::IntervalMs(500))
    } else if cmd == ID_DUR_10 {
        TrayCommand::Change(ConfigChange::DurationSec(10))
    } else if cmd == ID_DUR_30 {
        TrayCommand::Change(ConfigChange::DurationSec(30))
    } else if cmd == ID_DUR_60 {
        TrayCommand::Change(ConfigChange::DurationSec(60))
    } else if cmd == ID_DUR_300 {
        TrayCommand::Change(ConfigChange::DurationSec(300))
    } else if cmd == ID_DUR_INF {
        TrayCommand::Change(ConfigChange::DurationSec(0))
    } else if cmd == ID_TOPMOST {
        TrayCommand::ToggleOnTop
    } else if cmd == ID_QUIT {
        TrayCommand::Quit
    } else {
        TrayCommand::Ignore
    }
}

/// Applies a change that the tray menu makes to the stored settings.
pub fn update_config(cfg: &mut Config, change: ConfigChange)
    ensures
        final(cfg).point == old(cfg).point,
        final(cfg).interval_ms == (match change {
            ConfigChange::IntervalMs(v) => v,
            _ => old(cfg).interval_ms,
        }),
        final(cfg).duration_sec == (match change {
            ConfigChange::DurationSec(v) => v,
            _ => old(cfg).duration_sec,
        }),
        final(cfg).mode@ == (match change {
            ConfigChange::Mode(m) => mode_name(m),
            _ => old(cfg).mode@,
        }),
{
    match change {
        ConfigChange::Mode(m) => {
            cfg.mode = m.name().to_owned();
        },
        ConfigChange::IntervalMs(v) => {
            cfg.interval_ms = v;
        },
        ConfigChange::DurationSec(v) => {
            cfg.duration_sec = v;
        },
    }
}

/// While clicking runs, picking and every setting in the menu are grayed;
/// while it does not, none of them is. The toggle is grayed exactly until a
/// point is picked.
pub proof fn lemma_settings_locked_while_running(st: TrayState)
    ensures
        menu_spec(st).pick.grayed == st.running,
        forall|i: int|
            0 <= i < menu_spec(st).modes.len() ==> #[trigger] menu_spec(st).modes[i].grayed
                == st.running,
        forall|i: int|
            0 <= i < menu_spec(st).intervals.len() ==> #[trigger] menu_spec(st).intervals[i].grayed
                == st.running,
        forall|i: int|
            0 <= i < menu_spec(st).durations.len() ==> #[trigger] menu_spec(st).durations[i].grayed
                == st.running,
        menu_spec(st).toggle.grayed == !st.has_point,
{
}

/// Choosing an interval or countdown preset in the menu sets that value,
/// and a menu for that value marks exactly the chosen preset as checked.
pub proof fn lemma_chosen_preset_is_checked(st: TrayState, i: int)
    ensures
        0 <= i < interval_presets().len() ==> {
            let (id, v) = interval_presets()[i];
            &&& command_spec(id) == TrayCommand::Change(ConfigChange::IntervalMs(v))
            &&& forall|j: int|
                0 <= j < interval_presets().len() ==> (#[trigger] menu_spec(
                    TrayState { interval_ms: v, ..st },
                ).intervals[j]).checked == (j == i)
        },
        0 <= i < duration_presets().len() ==> {
            let (id, v) = duration_presets()[i];
            &&& command_spec(id) == TrayCommand::Change(ConfigChange::DurationSec(v))
            &&& forall|j: int|
                0 <= j < duration_presets().len() ==> (#[trigger] menu_spec(
                    TrayState { duration_sec: v, ..st },
                ).durations[j]).checked == (j == i)
        },
{
}

/// What a mouse event on the tray icon does.
#[derive(Clone, Copy, PartialEq, Eq, Debug, Structural)]
pub enum TrayIconAction {
    /// Left click: show the main window.
    ShowWindow,
    /// Right click: show the menu.
    ShowMenu,
    /// Another event of the icon: nothing.
    Nothing,
    /// Not a message of the icon: the default handling.
    Default,
}

/// What a message to the tray's hidden window does.
pub open spec fn icon_action_spec(msg: u32, id: u32, event: u32) -> TrayIconAction {
    if msg == CALLBACK_MSG && id == TRAY_ID {
        if event == WM_LBUTTONUP {
            TrayIconAction::ShowWindow
        } else if event == WM_RBUTTONUP {
            TrayIconAction::ShowMenu
        } else {
            TrayIconAction::Nothing
        }
    } else {
        TrayIconAction::Default
    }
}

/// What a message to the tray's hidden window does: the icon's number
/// travels in the low 32 bits of `wparam`, the mouse event in the low 32
/// bits of `lparam`.
pub fn tray_icon_action(msg: u32, wparam: usize, lparam: isize) -> (a: TrayIconAction)
    ensures
        a == icon_action_spec(msg, wparam as u32, lparam as u32),
{
    let id = wparam as u32;
    let event = lparam as u32;
    if msg == CALLBACK_MSG && id == TRAY_ID {
        if event == WM_LBUTTONUP {
            TrayIconAction::ShowWindow
        } else if event == WM_RBUTTONUP {
            TrayIconAction::ShowMenu
        } else {
            TrayIconAction::Nothing
        }
    } else {
        TrayIconAction::Default
    }
}

} // verus!

verus! {

/// For every state, the interval submenu has the four entries 50, 100,
/// 200 and 500 ms (commands 20..=23), and an entry is checked exactly when
/// the interval equals its value, so an interval that is no preset checks
/// none; likewise the countdown submenu (10 s, 30 s, 1 min, 5 min, no
/// limit; commands 30..=34) and the mode submenu (universal, background).
pub proof fn lemma_menu_checks_exactly_current_values(st: TrayState)
    ensures
        menu_spec(st).intervals.len() == 4,
        forall|j: int|
            0 <= j < 4 ==> {
                let v = seq![50u64, 100u64, 200u64, 500u64][j];
                &&& (#[trigger] menu_spec(st).intervals[j]).id == 20 + j
                &&& menu_spec(st).intervals[j].checked == (st.interval_ms == v)
            },
        menu_spec(st).durations.len() == 5,
        forall|j: int|
            0 <= j < 5 ==> {
                let v = seq![10u64, 30u64, 60u64, 300u64, 0u64][j];
                &&& (#[trigger] menu_spec(st).durations[j]).id == 30 + j
                &&& menu_spec(st).durations[j].checked == (st.duration_sec == v)
            },
        menu_spec(st).modes.len() == 2,
        menu_spec(st).modes[0].id == 10 && menu_spec(st).modes[0].checked == !st.background_mode,
        menu_spec(st).modes[1].id == 11 && menu_spec(st).modes[1].checked == st.background_mode,
{
}

/// Each settings entry of the menu sets the value that its check mark
/// shows: choosing an entry changes the setting to exactly the value for
/// which that entry is checked. The other entries carry out their own
/// commands.
pub proof fn lemma_menu_command_sets_its_value(st: TrayState)
    ensures
        forall|j: int|
            0 <= j < menu_spec(st).intervals.len() ==> {
                let v = seq![50u64, 100u64, 200u64, 500u64][j];
                &&& command_spec(#[trigger] menu_spec(st).intervals[j].id) == TrayCommand::Change(
                    ConfigChange::IntervalMs(v),
                )
                &&& menu_spec(st).intervals[j].checked <==> st.interval_ms == v
            },
        forall|j: int|
            0 <= j < menu_spec(st).durations.len() ==> {
                let v = seq![10u64, 30u64, 60u64, 300u64, 0u64][j];
                &&& command_spec(#[trigger] menu_spec(st).durations[j].id) == TrayCommand::Change(
                    ConfigChange::DurationSec(v),
                )
                &&& menu_spec(st).durations[j].checked <==> st.duration_sec == v
            },
        command_spec(menu_spec(st).modes[0].id) == TrayCommand::Change(
            ConfigChange::Mode(ClickMode::Universal),
        ),
        menu_spec(st).modes[0].checked <==> !st.background_mode,
        command_spec(menu_spec(st).modes[1].id) == TrayCommand::Change(
            ConfigChange::Mode(ClickMode::Background),
        ),
        menu_spec(st).modes[1].checked <==> st.background_mode,
        command_spec(menu_spec(st).show.id) == TrayCommand::ShowWindow,
        command_spec(menu_spec(st).toggle.id) == TrayCommand::Toggle,
        command_spec(menu_spec(st).pick.id) == TrayCommand::Pick,
        command_spec(menu_spec(st).topmost.id) == TrayCommand::ToggleOnTop,
        command_spec(menu_spec(st).quit.id) == TrayCommand::Quit,
{
}

} // verus!
