use auto_clicker::clicker::ClickMode;
use auto_clicker::config::Config;
use auto_clicker::icon::load_window_icon;
use auto_clicker::tray::{
    tray_command, tray_menu, update_config, TrayCommand, TrayEvent, TrayState, ID_DUR_60,
    ID_MODE_BACKGROUND,
};
use auto_clicker::window::{
    stat_line, DurationField, Header, HotkeyWarning, Settings, StatLine, Status, Tone, TrayReaction,
    WindowModel,
};

fn stored(point: Option<(i32, i32)>, interval_ms: u64, duration_sec: u64, mode: &str) -> Config {
    Config { point, interval_ms, duration_sec, mode: mode.to_string() }
}

#[test]
fn start_restores_and_normalises() {
    let m = WindowModel::new(&stored(Some((5, -6)), 0, 99_999, "background"));
    assert_eq!(m.point, Some((5, -6)));
    assert_eq!(m.interval_ms, 1);
    assert_eq!(m.interval_text, "0.001");
    assert_eq!(m.duration_sec, 36000);
    assert_eq!(m.duration_text, "36000");
    assert_eq!(m.mode, ClickMode::Background);
    assert_eq!(m.status, Status::PointSet((5, -6)));
    assert_eq!(m.tone, Tone::Subtle);
    let m = WindowModel::new(&Config::default());
    assert_eq!(m.status, Status::Ready);
    assert_eq!(m.interval_text, "0.1");
    assert_eq!(m.duration_text, "30");
    let m = WindowModel::new(&stored(None, 70_000, 5, "universal"));
    assert_eq!((m.interval_ms, m.duration_sec), (60000, 10));
    assert_eq!(m.duration_text, "10");
    assert_eq!(m.hotkey_warn, HotkeyWarning { pick_failed: false, toggle_failed: false });
}

#[test]
fn settings_survive_a_restart() {
    let mut m = WindowModel::new(&Config::default());
    m.point = Some((100, 200));
    m.interval_ms = 250;
    m.duration_sec = 0;
    m.mode = ClickMode::Background;
    let mut cfg = Config::default();
    m.write_settings(&mut cfg);
    let again = WindowModel::new(&cfg);
    assert_eq!(again.settings(), m.settings());
}

#[test]
fn sync_follows_tray_changes_and_keeps_unchanged_text() {
    let mut m = WindowModel::new(&Config::default());
    m.interval_text = "0.10".to_string();
    m.sync_shared(&stored(Some((1, 1)), 100, 60, "background"));
    assert_eq!(m.interval_text, "0.10");
    assert_eq!(m.duration_sec, 60);
    assert_eq!(m.duration_text, "60");
    assert_eq!(m.mode, ClickMode::Background);
    assert_eq!(m.point, Some((1, 1)));
    m.sync_shared(&stored(None, 500, 60, "universal"));
    assert_eq!(m.interval_text, "0.5");
    assert_eq!(m.point, None);
}

#[test]
fn write_then_sync_changes_nothing() {
    let mut m = WindowModel::new(&stored(Some((9, 9)), 1234, 77, "background"));
    let before = (m.settings(), m.interval_text.clone(), m.duration_text.clone());
    let mut cfg = Config::default();
    m.write_settings(&mut cfg);
    m.sync_shared(&cfg);
    assert_eq!((m.settings(), m.interval_text.clone(), m.duration_text.clone()), before);
}

#[test]
fn toggle_request_needs_a_point() {
    let mut m = WindowModel::new(&Config::default());
    assert!(!m.request_toggle(false));
    assert_eq!((m.status, m.tone), (Status::NeedPoint, Tone::Warn));
    assert!(m.request_toggle(true));
    m.point = Some((0, 0));
    m.status = Status::Ready;
    assert!(m.request_toggle(false));
    assert_eq!(m.status, Status::Ready);
}

#[test]
fn picking_flow() {
    let mut m = WindowModel::new(&Config::default());
    assert!(m.begin_pick());
    assert!(m.picking);
    assert_eq!((m.status, m.tone), (Status::Picking, Tone::Warn));
    assert_eq!(m.header(true), Header::Picking);
    assert!(!m.begin_pick());
    m.finish_pick(Some((-40, 30)));
    assert!(!m.picking);
    assert_eq!(m.point, Some((-40, 30)));
    assert_eq!((m.status, m.tone), (Status::PointSet((-40, 30)), Tone::Primary));
    assert!(m.begin_pick());
    m.finish_pick(None);
    assert_eq!(m.point, Some((-40, 30)));
    assert_eq!((m.status, m.tone), (Status::PickCancelled, Tone::Subtle));
    assert_eq!(m.header(true), Header::Running);
    assert_eq!(m.header(false), Header::Idle);
}

#[test]
fn tray_events_and_closing() {
    let mut m = WindowModel::new(&Config::default());
    assert_eq!(m.on_tray_event(TrayEvent::Pick), TrayReaction::OpenPicker);
    assert_eq!(m.on_tray_event(TrayEvent::ToggleOnTop), TrayReaction::Nothing);
    assert!(m.always_on_top);
    m.tone = Tone::Accent;
    assert!(m.on_close_requested());
    assert_eq!((m.status, m.tone), (Status::MinimizedToTray, Tone::Accent));
    assert_eq!(m.on_tray_event(TrayEvent::Quit), TrayReaction::Close);
    assert!(m.quitting);
    m.status = Status::Ready;
    assert!(!m.on_close_requested());
    assert_eq!(m.status, Status::Ready);
}

#[test]
fn running_transitions_update_status() {
    let mut m = WindowModel::new(&stored(Some((3, 4)), 100, 30, "universal"));
    m.observe_running(true, 0);
    assert_eq!((m.status, m.tone), (Status::Running(Some((3, 4))), Tone::Accent));
    m.status = Status::MinimizedToTray;
    m.observe_running(true, 5);
    assert_eq!(m.status, Status::MinimizedToTray);
    m.observe_running(false, 42);
    assert_eq!((m.status, m.tone), (Status::Stopped(42), Tone::Subtle));
    assert!(!m.was_running);
}

#[test]
fn hotkey_registration_warnings() {
    let mut m = WindowModel::new(&Config::default());
    m.on_hotkey_registration(false, true);
    assert_eq!(m.hotkey_warn, HotkeyWarning { pick_failed: true, toggle_failed: false });
}

#[test]
fn tray_state_mirrors_window() {
    let mut m = WindowModel::new(&stored(Some((1, 2)), 200, 0, "background"));
    m.always_on_top = true;
    assert_eq!(
        m.tray_state(true),
        TrayState { running: true, has_point: true, interval_ms: 200, duration_sec: 0, background_mode: true, always_on_top: true }
    );
}

#[test]
fn settings_saved_once_per_change() {
    let mut m = WindowModel::new(&Config::default());
    assert!(!m.take_unsaved());
    m.interval_ms = 300;
    assert!(m.take_unsaved());
    assert!(!m.take_unsaved());
    assert_eq!(m.last_saved, Settings { point: None, interval_ms: 300, duration_sec: 30, mode: ClickMode::Universal });
}

#[test]
fn duration_field_sets_countdown() {
    let mut m = WindowModel::new(&Config::default());
    m.duration_text = " 120 ".to_string();
    assert_eq!(m.apply_duration_text(), DurationField::Limited);
    assert_eq!(m.duration_sec, 120);
    m.duration_text = "0".to_string();
    assert_eq!(m.apply_duration_text(), DurationField::Unlimited);
    assert_eq!(m.duration_sec, 0);
    m.duration_text = "40000".to_string();
    assert_eq!(m.apply_duration_text(), DurationField::Invalid);
    assert_eq!(m.duration_sec, 0);
    m.duration_text = "5".to_string();
    assert_eq!(m.apply_duration_text(), DurationField::Invalid);
    assert_eq!(m.duration_sec, 0);
}

#[test]
fn icon_decodes_png_bytes() {
    let mut img = image::RgbaImage::new(2, 1);
    img.put_pixel(0, 0, image::Rgba([1, 2, 3, 4]));
    img.put_pixel(1, 0, image::Rgba([5, 6, 7, 8]));
    let mut bytes: Vec<u8> = Vec::new();
    img.write_to(&mut std::io::Cursor::new(&mut bytes), image::ImageFormat::Png).unwrap();
    let icon = load_window_icon(&bytes).unwrap();
    assert_eq!((icon.width, icon.height), (2, 1));
    assert_eq!(icon.rgba, vec![1, 2, 3, 4, 5, 6, 7, 8]);
    assert!(load_window_icon(&[1, 2, 3]).is_none());
}

#[test]
fn tray_choice_is_checked_in_next_menu() {
    let mut shared = Config::default();
    let mut m = WindowModel::new(&shared);
    for id in [ID_DUR_60, ID_MODE_BACKGROUND] {
        if let TrayCommand::Change(ch) = tray_command(id) {
            update_config(&mut shared, ch);
        }
    }
    m.sync_shared(&shared);
    let menu = tray_menu(&m.tray_state(false));
    assert!(menu.durations.iter().all(|i| i.checked == (i.id == ID_DUR_60)));
    assert!(menu.modes[1].checked && !menu.modes[0].checked);
    assert_eq!(m.duration_text, "60");
}

#[test]
fn sync_keeps_settings_in_range() {
    let mut m = WindowModel::new(&Config::default());
    m.sync_shared(&stored(None, 0, 99_999, "universal"));
    assert_eq!((m.interval_ms, m.duration_sec), (1, 36000));
    assert_eq!((m.interval_text.as_str(), m.duration_text.as_str()), ("0.001", "36000"));
    m.sync_shared(&stored(None, 1_000_000, 3, "universal"));
    assert_eq!((m.interval_ms, m.duration_sec), (60000, 10));
    assert_eq!((m.interval_text.as_str(), m.duration_text.as_str()), ("60", "10"));
}

#[test]
fn shared_settings_seeded_from_window_stay_in_range() {
    let mut shared = stored(Some((1, 2)), 0, 7, "background");
    let mut m = WindowModel::new(&shared);
    m.write_settings(&mut shared);
    assert_eq!((shared.interval_ms, shared.duration_sec), (1, 10));
    let before = m.settings();
    m.sync_shared(&shared);
    assert_eq!(m.settings(), before);
}

#[test]
fn stat_lines() {
    assert_eq!(stat_line(true, 3, Some(7)), StatLine::Running { count: 3, remaining: Some(7) });
    assert_eq!(stat_line(true, 3, None), StatLine::Running { count: 3, remaining: None });
    assert_eq!(stat_line(false, 3, Some(7)), StatLine::Idle { count: 3 });
}
