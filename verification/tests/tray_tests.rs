use auto_clicker::clicker::ClickMode;
use auto_clicker::config::Config;
use auto_clicker::hotkey::{hotkey_action, HotkeyAction, WM_HOTKEY};
use auto_clicker::tray::{
    tray_command, tray_icon_action, tray_menu, update_config, ConfigChange, MenuItem, TrayCommand,
    TrayIconAction, TrayState, ToggleLabel, CALLBACK_MSG, ID_DUR_INF, ID_INT_200, ID_MODE_BACKGROUND, ID_PICK,
    ID_QUIT, ID_SHOW, ID_TOGGLE, ID_TOPMOST,
};

#[test]
fn tray_state_default() {
    let st = TrayState::default();
    assert!(!st.running && !st.has_point && !st.background_mode && !st.always_on_top);
    assert_eq!(st.interval_ms, 100);
    assert_eq!(st.duration_sec, 30);
}

#[test]
fn menu_checks_current_settings() {
    let st = TrayState { interval_ms: 200, duration_sec: 0, background_mode: true, has_point: true, ..TrayState::default() };
    let m = tray_menu(&st);
    assert_eq!(m.show, MenuItem { id: ID_SHOW, checked: false, grayed: false });
    assert_eq!(m.toggle, MenuItem { id: ID_TOGGLE, checked: false, grayed: false });
    assert_eq!(m.pick, MenuItem { id: ID_PICK, checked: false, grayed: false });
    assert_eq!(m.modes.iter().map(|i| i.checked).collect::<Vec<_>>(), vec![false, true]);
    assert_eq!(m.intervals.iter().map(|i| i.checked).collect::<Vec<_>>(), vec![false, false, true, false]);
    assert_eq!(m.intervals[2].id, ID_INT_200);
    assert_eq!(m.durations.iter().map(|i| i.checked).collect::<Vec<_>>(), vec![false, false, false, false, true]);
    assert_eq!(m.durations[4].id, ID_DUR_INF);
    assert_eq!(m.topmost, MenuItem { id: ID_TOPMOST, checked: false, grayed: false });
    assert_eq!(m.quit, MenuItem { id: ID_QUIT, checked: false, grayed: false });
}

#[test]
fn menu_locks_settings_while_running() {
    let st = TrayState { running: true, has_point: true, always_on_top: true, ..TrayState::default() };
    let m = tray_menu(&st);
    assert!(m.pick.grayed);
    assert!(m.modes.iter().chain(m.intervals.iter()).chain(m.durations.iter()).all(|i| i.grayed));
    assert!(!m.toggle.grayed && !m.show.grayed && !m.topmost.grayed && !m.quit.grayed);
    assert!(m.topmost.checked);
    assert_eq!(m.toggle_label, ToggleLabel::Stop);
    let m = tray_menu(&TrayState::default());
    assert_eq!(m.toggle_label, ToggleLabel::Start);
    assert!(m.toggle.grayed);
    assert!(!m.pick.grayed);
    assert!(m.modes.iter().chain(m.intervals.iter()).chain(m.durations.iter()).all(|i| !i.grayed));
}

#[test]
fn commands() {
    assert_eq!(tray_command(ID_SHOW), TrayCommand::ShowWindow);
    assert_eq!(tray_command(ID_TOGGLE), TrayCommand::Toggle);
    assert_eq!(tray_command(ID_PICK), TrayCommand::Pick);
    assert_eq!(tray_command(ID_MODE_BACKGROUND), TrayCommand::Change(ConfigChange::Mode(ClickMode::Background)));
    assert_eq!(tray_command(ID_INT_200), TrayCommand::Change(ConfigChange::IntervalMs(200)));
    assert_eq!(tray_command(ID_DUR_INF), TrayCommand::Change(ConfigChange::DurationSec(0)));
    assert_eq!(tray_command(ID_TOPMOST), TrayCommand::ToggleOnTop);
    assert_eq!(tray_command(ID_QUIT), TrayCommand::Quit);
    assert_eq!(tray_command(0), TrayCommand::Ignore);
    assert_eq!(tray_command(12345), TrayCommand::Ignore);
}

#[test]
fn chosen_preset_becomes_checked() {
    let mut c = Config::default();
    for m in tray_menu(&TrayState::default()).intervals {
        if let TrayCommand::Change(ch) = tray_command(m.id) {
            update_config(&mut c, ch);
        }
        let st = TrayState { interval_ms: c.interval_ms, ..TrayState::default() };
        let menu = tray_menu(&st);
        assert!(menu.intervals.iter().all(|i| i.checked == (i.id == m.id)));
    }
}

#[test]
fn update_config_changes_one_field() {
    let mut c = Config { point: Some((3, 4)), interval_ms: 77, duration_sec: 9, mode: "universal".to_string() };
    update_config(&mut c, ConfigChange::Mode(ClickMode::Background));
    assert_eq!(c.mode, "background");
    assert_eq!((c.point, c.interval_ms, c.duration_sec), (Some((3, 4)), 77, 9));
    update_config(&mut c, ConfigChange::IntervalMs(500));
    assert_eq!((c.interval_ms, c.duration_sec), (500, 9));
    update_config(&mut c, ConfigChange::DurationSec(60));
    assert_eq!((c.interval_ms, c.duration_sec, c.mode.as_str()), (500, 60, "background"));
}

#[test]
fn icon_events() {
    assert_eq!(tray_icon_action(CALLBACK_MSG, 1, 0x0202), TrayIconAction::ShowWindow);
    assert_eq!(tray_icon_action(CALLBACK_MSG, 1, 0x0205), TrayIconAction::ShowMenu);
    assert_eq!(tray_icon_action(CALLBACK_MSG, 1, 0x0200), TrayIconAction::Nothing);
    assert_eq!(tray_icon_action(CALLBACK_MSG, 2, 0x0202), TrayIconAction::Default);
    assert_eq!(tray_icon_action(0x0010, 1, 0x0202), TrayIconAction::Default);
}

#[test]
fn hotkeys() {
    assert_eq!(hotkey_action(WM_HOTKEY, 1, false), HotkeyAction::OpenPicker);
    assert_eq!(hotkey_action(WM_HOTKEY, 1, true), HotkeyAction::Nothing);
    assert_eq!(hotkey_action(WM_HOTKEY, 2, true), HotkeyAction::Toggle);
    assert_eq!(hotkey_action(WM_HOTKEY, 2, false), HotkeyAction::Toggle);
    assert_eq!(hotkey_action(WM_HOTKEY, 3, false), HotkeyAction::Nothing);
    assert_eq!(hotkey_action(0x0100, 1, false), HotkeyAction::Nothing);
}
