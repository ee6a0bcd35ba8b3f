//! The main window's state and the decisions it takes each frame: what it
//! restores at start, how it follows settings changed elsewhere, what its
//! status line says, and when the settings are saved.
use vstd::prelude::*;
use crate::clicker::{ClickMode, lemma_mode_name_round_trip, mode_name, mode_from_name};
use crate::config::Config;
use crate::text::{
    decimal, decimal_string, duration_field_value, fmt_secs, parse_duration_text, secs_text,
    duration_allowed, MAX_DURATION_SEC, MIN_DURATION_SEC,
};
use crate::tray::{
    command_spec, duration_presets, interval_presets, menu_spec, ConfigChange, ToggleLabel,
    TrayCommand, TrayEvent, TrayState,
};

verus! {

/// The shortest interval that the window keeps from stored settings, in
/// milliseconds.
pub const MIN_WINDOW_INTERVAL_MS: u64 = 1;

/// The longest interval that the window keeps from stored settings, in
/// milliseconds.
pub const MAX_WINDOW_INTERVAL_MS: u64 = 60000;

/// The colour in which the status line is shown.
#[derive(Clone, Copy, PartialEq, Eq, Debug, Structural)]
pub enum Tone {
    Primary,
    Accent,
    Warn,
    Subtle,
}

/// What the status line says.
#[derive(Clone, Copy, PartialEq, Eq, Debug)]
pub enum Status {
    /// The target point, and that F6 starts clicking.
    PointSet((i32, i32)),
    /// Ready: F2 or the button picks a point.
    Ready,
    /// A point must be picked first.
    NeedPoint,
    /// The picker is open.
    Picking,
    /// Picking was cancelled.
    PickCancelled,
    /// The window was hidden to the tray.
    MinimizedToTray,
    /// Clicking runs, at the point where there is one.
    Running(Option<(i32, i32)>),
    /// Clicking stopped after this many clicks.
    Stopped(u64),
}

/// The settings that are saved whenever they change.
#[derive(Clone, Copy, PartialEq, Eq, Debug)]
pub struct Settings {
    pub point: Option<(i32, i32)>,
    pub interval_ms: u64,
    pub duration_sec: u64,
    pub mode: ClickMode,
}

/// Which hotkeys could not be registered.
#[derive(Clone, Copy, PartialEq, Eq, Debug, Structural)]
pub struct HotkeyWarning {
    pub pick_failed: bool,
    pub toggle_failed: bool,
}

/// The state of the header's indicator.
#[derive(Clone, Copy, PartialEq, Eq, Debug, Structural)]
pub enum Header {
    Picking,
    Running,
    Idle,
}

/// What the window does for a tray event.
#[derive(Clone, Copy, PartialEq, Eq, Debug, Structural)]
pub enum TrayReaction {
    /// Show the window and open the picker.
    OpenPicker,
    /// Nothing beyond the state change.
    Nothing,
    /// Close the window for good.
    Close,
}

/// What the countdown field's text sets.
#[derive(Clone, Copy, PartialEq, Eq, Debug, Structural)]
pub enum DurationField {
    /// A countdown of that many seconds.
    Limited,
    /// No countdown (0).
    Unlimited,
    /// Nothing: the text is not an accepted countdown.
    Invalid,
}

/// The line under the start/stop button.
#[derive(Clone, Copy, PartialEq, Eq, Debug)]
pub enum StatLine {
    /// Clicking runs: the clicks so far and the whole seconds left, none
    /// where there is no countdown.
    Running { count: u64, remaining: Option<u64> },
    /// Clicking does not run: the clicks of the last session.
    Idle { count: u64 },
}

/// The line under the start/stop button, from the clicker's snapshot: the
/// time left is shown only while clicking runs.
pub fn stat_line(running: bool, count: u64, remaining: Option<u64>) -> (l: StatLine)
    ensures
        l == (if running {
            StatLine::Running { count, remaining }
        } else {
            StatLine::Idle { count }
        }),
{
    if running {
        StatLine::Running { count, remaining }
    } else {
        StatLine::Idle { count }
    }
}

/// The main window's state apart from what is drawn.
pub struct WindowModel {
    pub point: Option<(i32, i32)>,
    pub interval_ms: u64,
    /// The interval field's text, in seconds.
    pub interval_text: String,
    pub duration_sec: u64,
    /// The countdown field's text, in seconds.
    pub duration_text: String,
    pub mode: ClickMode,
    pub always_on_top: bool,
    pub picking: bool,
    /// Set when the window closes for good rather than hiding to the tray.
    pub quitting: bool,
    pub was_running: bool,
    pub last_saved: Settings,
    pub status: Status,
    pub tone: Tone,
    pub hotkey_warn: HotkeyWarning,
}

/// The interval that the window keeps from stored settings.
pub open spec fn window_interval(v: u64) -> u64 {
    if v < MIN_WINDOW_INTERVAL_MS {
        MIN_WINDOW_INTERVAL_MS
    } else if v > MAX_WINDOW_INTERVAL_MS {
        MAX_WINDOW_INTERVAL_MS
    } else {
        v
    }
}

/// The countdown that the window keeps from stored settings: the nearest
/// one that the countdown field accepts.
pub open spec fn window_duration(v: u64) -> u64 {
    if v > MAX_DURATION_SEC {
        MAX_DURATION_SEC
    } else if 0 < v < MIN_DURATION_SEC {
        MIN_DURATION_SEC
    } else {
        v
    }
}

/// The settings that the window restores from stored ones.
pub open spec fn restored_settings(cfg: Config) -> Settings {
    Settings {
        point: cfg.point,
        interval_ms: window_interval(cfg.interval_ms),
        duration_sec: window_duration(cfg.duration_sec),
        mode: mode_from_name(cfg.mode@),
    }
}

/// Whether stored settings hold exactly these settings.
pub open spec fn stores(cfg: Config, s: Settings) -> bool {
    &&& cfg.point == s.point
    &&& cfg.interval_ms == s.interval_ms
    &&& cfg.duration_sec == s.duration_sec
    &&& cfg.mode@ == mode_name(s.mode)
}

/// Settings within the ranges that the window keeps.
pub open spec fn settings_in_range(s: Settings) -> bool {
    &&& MIN_WINDOW_INTERVAL_MS <= s.interval_ms <= MAX_WINDOW_INTERVAL_MS
    &&& duration_allowed(s.duration_sec as int)
}

fn keep_interval(v: u64) -> (r: u64)
    ensures
        r == window_interval(v),
{
    if v < MIN_WINDOW_INTERVAL_MS {
        MIN_WINDOW_INTERVAL_MS
    } else if v > MAX_WINDOW_INTERVAL_MS {
        MAX_WINDOW_INTERVAL_MS
    } else {
        v
    }
}

fn keep_duration(v: u64) -> (r: u64)
    ensures
        r == window_duration(v),
{
    if v > MAX_DURATION_SEC {
        MAX_DURATION_SEC
    } else if 0 < v && v < MIN_DURATION_SEC {
        MIN_DURATION_SEC
    } else {
        v
    }
}

fn same_point(a: Option<(i32, i32)>, b: Option<(i32, i32)>) -> (r: bool)
    ensures
        r == (a == b),
{
    match (a, b) {
        (Some(p), Some(q)) => p.0 == q.0 && p.1 == q.1,
        (None, None) => true,
        _ => false,
    }
}

fn same_settings(a: &Settings, b: &Settings) -> (r: bool)
    ensures
        r == (*a == *b),
{
    same_point(a.point, b.point) && a.interval_ms == b.interval_ms && a.duration_sec
        == b.duration_sec && a.mode == b.mode
}

/// The window after following the shared copy of the settings: the
/// settings are the shared ones and a field's text is rewritten only where
/// its value changed.
pub open spec fn synced(before: WindowModel, shared: Config, after: WindowModel) -> bool {
    &&& after.settings_spec() == (Settings {
        point: shared.point,
        interval_ms: window_interval(shared.interval_ms),
        duration_sec: window_duration(shared.duration_sec),
        mode: mode_from_name(shared.mode@),
    })
    &&& after.interval_text@ == (if window_interval(shared.interval_ms) != before.interval_ms {
        secs_text(window_interval(shared.interval_ms) as nat)
    } else {
        before.interval_text@
    })
    &&& after.duration_text@ == (if window_duration(shared.duration_sec) != before.duration_sec {
        decimal(window_duration(shared.duration_sec) as nat)
    } else {
        before.duration_text@
    })
}

/// The state that the tray menu is built from: whether clicking runs and
/// the window's settings.
pub open spec fn tray_state_spec(m: WindowModel, running: bool) -> TrayState {
    TrayState {
        running,
        has_point: m.point is Some,
        interval_ms: m.interval_ms,
        duration_sec: m.duration_sec,
        background_mode: m.mode == ClickMode::Background,
        always_on_top: m.always_on_top,
    }
}

/// Whether settings changed since they were last saved.
pub open spec fn unsaved(m: WindowModel) -> bool {
    m.last_saved != m.settings_spec()
}

impl WindowModel {
    /// The settings the window holds.
    pub open spec fn settings_spec(&self) -> Settings {
        Settings {
            point: self.point,
            interval_ms: self.interval_ms,
            duration_sec: self.duration_sec,
            mode: self.mode,
        }
    }

    /// The settings the window holds.
    pub fn settings(&self) -> (s: Settings)
        ensures
            s == self.settings_spec(),
    {
        Settings {
            point: self.point,
            interval_ms: self.interval_ms,
            duration_sec: self.duration_sec,
            mode: self.mode,
        }
    }

    /// The window at start, restored from the stored settings: the interval
    /// is kept within 1 ms..=60 s and the countdown at 0 or within
    /// 10 s..=10 h; both
    /// fields show their values; nothing counts as unsaved.
    pub fn new(cfg: &Config) -> (m: WindowModel)
        ensures
            m.settings_spec() == restored_settings(*cfg),
            settings_in_range(m.settings_spec()),
            m.interval_text@ == secs_text(m.interval_ms as nat),
            m.duration_text@ == decimal(m.duration_sec as nat),
            !m.always_on_top,
            !m.picking,
            !m.quitting,
            !m.was_running,
            m.last_saved == m.settings_spec(),
            m.status == (match cfg.point {
                Some(p) => Status::PointSet(p),
                None => Status::Ready,
            }),
            m.tone == Tone::Subtle,
            m.hotkey_warn == (HotkeyWarning { pick_failed: false, toggle_failed: false }),
    {
        let point = cfg.point;
        let mode = ClickMode::from_name(cfg.mode.as_str());
        let interval_ms = keep_interval(cfg.interval_ms);
        let duration_sec = keep_duration(cfg.duration_sec);
        let status = match point {
            Some(p) => Status::PointSet(p),
            None => Status::Ready,
        };
        WindowModel {
            point,
            interval_ms,
            interval_text: fmt_secs(interval_ms),
            duration_sec,
            duration_text: decimal_string(duration_sec),
            mode,
            always_on_top: false,
            picking: false,
            quitting: false,
            was_running: false,
            last_saved: Settings { point, interval_ms, duration_sec, mode },
            status,
            tone: Tone::Subtle,
            hotkey_warn: HotkeyWarning { pick_failed: false, toggle_failed: false },
        }
    }

    /// Follows settings that the tray changed in the shared copy: each
    /// setting takes the shared value, and a field's text is rewritten only
    /// where its value changed.
    pub fn sync_shared(&mut self, shared: &Config)
        ensures
            synced(*old(self), *shared, *final(self)),
            final(self).point == shared.point,
            final(self).interval_ms == window_interval(shared.interval_ms),
            final(self).duration_sec == window_duration(shared.duration_sec),
            settings_in_range(final(self).settings_spec()),
            final(self).mode == mode_from_name(shared.mode@),
            final(self).interval_text@ == (if window_interval(shared.interval_ms) != old(
                self,
            ).interval_ms {
                secs_text(window_interval(shared.interval_ms) as nat)
            } else {
                old(self).interval_text@
            }),
            final(self).duration_text@ == (if window_duration(shared.duration_sec) != old(
                self,
            ).duration_sec {
                decimal(window_duration(shared.duration_sec) as nat)
            } else {
                old(self).duration_text@
            }),
            final(self).always_on_top == old(self).always_on_top,
            final(self).picking == old(self).picking,
            final(self).quitting == old(self).quitting,
            final(self).was_running == old(self).was_running,
            final(self).last_saved == old(self).last_saved,
            final(self).status == old(self).status,
            final(self).tone == old(self).tone,
            final(self).hotkey_warn == old(self).hotkey_warn,
    {
        self.point = shared.point;
        let interval_ms = keep_interval(shared.interval_ms);
        if interval_ms != self.interval_ms {
            self.interval_ms = interval_ms;
            self.interval_text = fmt_secs(interval_ms);
        }
        let duration_sec = keep_duration(shared.duration_sec);
        if duration_sec != self.duration_sec {
            self.duration_sec = duration_sec;
            self.duration_text = decimal_string(duration_sec);
        }
        self.mode = ClickMode::from_name(shared.mode.as_str());
    }

    /// Writes the window's settings into the shared copy.
    pub fn write_settings(&self, cfg: &mut Config)
        ensures
            stores(*final(cfg), self.settings_spec()),
    {
        cfg.point = self.point;
        cfg.interval_ms = self.interval_ms;
        cfg.duration_sec = self.duration_sec;
        cfg.mode = self.mode.name().to_owned();
    }

    /// The start/stop button: whether the toggle goes ahead. An idle
    /// clicker without a point does not start; the status line then asks
    /// for a point.
    pub fn request_toggle(&mut self, running: bool) -> (go: bool)
        ensures
            go == (old(self).point is Some || running),
            go ==> *final(self) == *old(self),
            !go ==> *final(self) == (WindowModel {
                status: Status::NeedPoint,
                tone: Tone::Warn,
                ..*old(self)
            }),
    {
        if self.point.is_none() && !running {
            self.status = Status::NeedPoint;
            self.tone = Tone::Warn;
            return false;
        }
        true
    }

    /// Opens the picker unless it is open already; returns whether it
    /// opened.
    pub fn begin_pick(&mut self) -> (opened: bool)
        ensures
            opened == !old(self).picking,
            !opened ==> *final(self) == *old(self),
            opened ==> *final(self) == (WindowModel {
                picking: true,
                status: Status::Picking,
                tone: Tone::Warn,
                ..*old(self)
            }),
    {
        if self.picking {
            return false;
        }
        self.picking = true;
        self.status = Status::Picking;
        self.tone = Tone::Warn;
        true
    }

    /// Records which hotkeys could be registered.
    pub fn on_hotkey_registration(&mut self, pick_ok: bool, toggle_ok: bool)
        ensures
            *final(self) == (WindowModel {
                hotkey_warn: HotkeyWarning { pick_failed: !pick_ok, toggle_failed: !toggle_ok },
                ..*old(self)
            }),
    {
        self.hotkey_warn = HotkeyWarning { pick_failed: !pick_ok, toggle_failed: !toggle_ok };
    }

    /// The picker ended: a picked point becomes the target.
    pub fn finish_pick(&mut self, picked: Option<(i32, i32)>)
        ensures
            *final(self) == (match picked {
                Some(p) => WindowModel {
                    picking: false,
                    point: Some(p),
                    status: Status::PointSet(p),
                    tone: Tone::Primary,
                    ..*old(self)
                },
                None => WindowModel {
                    picking: false,
                    status: Status::PickCancelled,
                    tone: Tone::Subtle,
                    ..*old(self)
                },
            }),
    {
        self.picking = false;
        match picked {
            Some(p) => {
                self.point = Some(p);
                self.status = Status::PointSet(p);
                self.tone = Tone::Primary;
            },
            None => {
                self.status = Status::PickCancelled;
                self.tone = Tone::Subtle;
            },
        }
    }

    /// A tray event that the window carries out.
    pub fn on_tray_event(&mut self, ev: TrayEvent) -> (r: TrayReaction)
        ensures
            ev == TrayEvent::Pick ==> r == TrayReaction::OpenPicker && *final(self) == *old(self),
            ev == TrayEvent::ToggleOnTop ==> r == TrayReaction::Nothing && *final(self) == (
            WindowModel { always_on_top: !old(self).always_on_top, ..*old(self) }),
            ev == TrayEvent::Quit ==> r == TrayReaction::Close && *final(self) == (WindowModel {
                quitting: true,
                ..*old(self)
            }),
    {
        match ev {
            TrayEvent::Pick => TrayReaction::OpenPicker,
            TrayEvent::ToggleOnTop => {
                self.always_on_top = !self.always_on_top;
                TrayReaction::Nothing
            },
            TrayEvent::Quit => {
                self.quitting = true;
                TrayReaction::Close
            },
        }
    }

    /// The header's indicator: picking before running before idle.
    pub fn header(&self, running: bool) -> (h: Header)
        ensures
            h == (if self.picking {
                Header::Picking
            } else if running {
                Header::Running
            } else {
                Header::Idle
            }),
    {
        if self.picking {
            Header::Picking
        } else if running {
            Header::Running
        } else {
            Header::Idle
        }
    }

    /// The window's close button: unless the window is quitting it hides to
    /// the tray instead, and the status line says so (in the same colour).
    /// Returns whether the close is turned into hiding.
    pub fn on_close_requested(&mut self) -> (hide: bool)
        ensures
            hide == !old(self).quitting,
            hide ==> *final(self) == (WindowModel {
                status: Status::MinimizedToTray,
                ..*old(self)
            }),
            !hide ==> *final(self) == *old(self),
    {
        if !self.quitting {
            self.status = Status::MinimizedToTray;
            true
        } else {
            false
        }
    }

    /// Follows the clicker's running state, whichever path started or
    /// stopped it: a start shows the point being clicked, a stop shows the
    /// number of clicks.
    pub fn observe_running(&mut self, running: bool, count: u64)
        ensures
            final(self).was_running == running,
            running && !old(self).was_running ==> final(self).status == Status::Running(
                old(self).point,
            ) && final(self).tone == Tone::Accent,
            !running && old(self).was_running ==> final(self).status == Status::Stopped(count)
                && final(self).tone == Tone::Subtle,
            running == old(self).was_running ==> final(self).status == old(self).status
                && final(self).tone == old(self).tone,
            *final(self) == (WindowModel {
                was_running: running,
                status: final(self).status,
                tone: final(self).tone,
                ..*old(self)
            }),
    {
        if running && !self.was_running {
            self.status = Status::Running(self.point);
            self.tone = Tone::Accent;
        }
        if !running && self.was_running {
            self.status = Status::Stopped(count);
            self.tone = Tone::Subtle;
        }
        self.was_running = running;
    }

    /// The state that the tray menu is built from.
    pub fn tray_state(&self, running: bool) -> (st: TrayState)
        ensures
            st == tray_state_spec(*self, running),
    {
        TrayState {
            running,
            has_point: self.point.is_some(),
            interval_ms: self.interval_ms,
            duration_sec: self.duration_sec,
            background_mode: match self.mode {
                ClickMode::Background => true,
                ClickMode::Universal => false,
            },
            always_on_top: self.always_on_top,
        }
    }

    /// Whether the settings changed since they were last saved; if so they
    /// count as saved from now on (the caller writes and saves them).
    pub fn take_unsaved(&mut self) -> (changed: bool)
        ensures
            changed == unsaved(*old(self)),
            !unsaved(*final(self)),
            *final(self) == (WindowModel { last_saved: old(self).settings_spec(), ..*old(self) }),
    {
        let cur = self.settings();
        if same_settings(&cur, &self.last_saved) {
            false
        } else {
            self.last_saved = cur;
            true
        }
    }

    /// Reads the countdown field: an accepted countdown becomes the
    /// countdown; any other text leaves it as it was.
    pub fn apply_duration_text(&mut self) -> (f: DurationField)
        ensures
            match duration_field_value(old(self).duration_text@) {
                Some(v) => {
                    &&& *final(self) == (WindowModel { duration_sec: v as u64, ..*old(self) })
                    &&& f == (if v == 0 {
                        DurationField::Unlimited
                    } else {
                        DurationField::Limited
                    })
                },
                None => *final(self) == *old(self) && f == DurationField::Invalid,
            },
    {
        match parse_duration_text(self.duration_text.as_str()) {
            Some(v) => {
                self.duration_sec = v;
                if v == 0 {
                    DurationField::Unlimited
                } else {
                    DurationField::Limited
                }
            },
            None => DurationField::Invalid,
        }
    }
}

/// Settings are kept across runs: the window restores exactly the
/// settings it stored, for every setting within the window's ranges.
pub proof fn lemma_settings_persist(cfg: Config, s: Settings)
    requires
        stores(cfg, s),
        settings_in_range(s),
    ensures
        restored_settings(cfg) == s,
{
    lemma_mode_name_round_trip(s.mode);
}

/// Writing the window's settings into the shared copy and following the
/// shared copy on the next frame leaves the window's settings and field
/// texts as they were.
pub proof fn lemma_sync_after_write_is_identity(m: WindowModel, cfg: Config, after: WindowModel)
    requires
        stores(cfg, m.settings_spec()),
        settings_in_range(m.settings_spec()),
        synced(m, cfg, after),
    ensures
        after.settings_spec() == m.settings_spec(),
        after.interval_text@ == m.interval_text@,
        after.duration_text@ == m.duration_text@,
{
    lemma_mode_name_round_trip(m.mode);
}

/// A choice made in the tray menu shows in the next tray menu: once the
/// choice is stored in the shared settings and the window has followed
/// them, the menu built from the window marks exactly the chosen interval,
/// countdown or mode.
pub proof fn lemma_tray_choice_is_checked_next_time(
    before: WindowModel,
    cfg: Config,
    after: WindowModel,
    running: bool,
    i: int,
)
    requires
        synced(before, cfg, after),
    ensures
        0 <= i < interval_presets().len() && command_spec(interval_presets()[i].0)
            == TrayCommand::Change(ConfigChange::IntervalMs(cfg.interval_ms)) ==> forall|j: int|
            0 <= j < interval_presets().len() ==> (#[trigger] menu_spec(
                tray_state_spec(after, running),
            ).intervals[j]).checked == (j == i),
        0 <= i < duration_presets().len() && command_spec(duration_presets()[i].0)
            == TrayCommand::Change(ConfigChange::DurationSec(cfg.duration_sec)) ==> forall|j: int|
            0 <= j < duration_presets().len() ==> (#[trigger] menu_spec(
                tray_state_spec(after, running),
            ).durations[j]).checked == (j == i),
        cfg.mode@ == mode_name(ClickMode::Background) ==> menu_spec(
            tray_state_spec(after, running),
        ).modes[1].checked && !menu_spec(tray_state_spec(after, running)).modes[0].checked,
        cfg.mode@ == mode_name(ClickMode::Universal) ==> menu_spec(
            tray_state_spec(after, running),
        ).modes[0].checked && !menu_spec(tray_state_spec(after, running)).modes[1].checked,
{
    lemma_mode_name_round_trip(ClickMode::Background);
    lemma_mode_name_round_trip(ClickMode::Universal);
}

/// The tray mirrors the window: for every window state, the tray's toggle
/// entry is grayed exactly while the window has no point, it offers to stop
/// exactly while clicking runs, the settings entries are grayed exactly
/// while clicking runs, and the checked entries are the window's interval,
/// countdown, mode and on-top switch.
pub proof fn lemma_tray_mirrors_window(m: WindowModel, running: bool)
    ensures
        tray_state_spec(m, running).has_point == (m.point is Some),
        menu_spec(tray_state_spec(m, running)).toggle.grayed == (m.point is None),
        menu_spec(tray_state_spec(m, running)).toggle_label == (if running {
            ToggleLabel::Stop
        } else {
            ToggleLabel::Start
        }),
        menu_spec(tray_state_spec(m, running)).pick.grayed == running,
        tray_state_spec(m, running).running == running,
        tray_state_spec(m, running).interval_ms == m.interval_ms,
        tray_state_spec(m, running).duration_sec == m.duration_sec,
        tray_state_spec(m, running).background_mode == (m.mode == ClickMode::Background),
        menu_spec(tray_state_spec(m, running)).modes[1].checked == (m.mode == ClickMode::Background),
        menu_spec(tray_state_spec(m, running)).topmost.checked == m.always_on_top,
{
}

} // verus!
