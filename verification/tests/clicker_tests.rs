use auto_clicker::clicker::{
    toggle, ClickMode, ClickPlan, ClickSession, ClickStats, ToggleDecision, MAX_INTERVAL_MS,
    MIN_INTERVAL_MS,
};
use auto_clicker::config::Config;

#[test]
fn mode_names() {
    assert_eq!(ClickMode::Universal.name(), "universal");
    assert_eq!(ClickMode::Background.name(), "background");
    assert_eq!(ClickMode::from("background"), ClickMode::Background);
    assert_eq!(ClickMode::from("universal"), ClickMode::Universal);
    assert_eq!(ClickMode::from("Background"), ClickMode::Universal);
    assert_eq!(ClickMode::from(""), ClickMode::Universal);
    assert_eq!(ClickMode::from_name(ClickMode::Background.name()), ClickMode::Background);
}

#[test]
fn plan_clamps_interval_and_sets_deadline() {
    let p = ClickPlan::new((5, 6), 1, 30, ClickMode::Universal);
    assert_eq!(p.interval_ms, 1);
    assert_eq!(p.deadline_secs, Some(30));
    let p = ClickPlan::new((5, 6), 0, 30, ClickMode::Universal);
    assert_eq!(p.interval_ms, MIN_INTERVAL_MS);
    assert_eq!(MIN_INTERVAL_MS, 1);
    let p = ClickPlan::new((5, 6), 7, 30, ClickMode::Universal);
    assert_eq!(p.interval_ms, 7);
    let p = ClickPlan::new((5, 6), 1_000_000, 0, ClickMode::Background);
    assert_eq!(p.interval_ms, MAX_INTERVAL_MS);
    assert_eq!(p.deadline_secs, None);
    let p = ClickPlan::new((-3, 4), 250, 10, ClickMode::Universal);
    assert_eq!(p.interval_ms, 250);
    assert_eq!(p.point, (-3, 4));
}

#[test]
fn session_counts_delivered_clicks_and_stops_at_deadline() {
    let plan = ClickPlan::new((0, 0), 100, 2, ClickMode::Universal);
    let mut s = ClickSession::start(plan);
    assert!(s.after_click(true, 0));
    assert!(s.after_click(false, 500));
    assert!(s.after_click(true, 1999));
    assert_eq!(s.count, 2);
    assert!(!s.after_click(true, 2000));
    assert_eq!(s.count, 3);
}

#[test]
fn session_without_deadline_never_ends_by_itself() {
    let plan = ClickPlan::new((0, 0), 100, 0, ClickMode::Universal);
    let mut s = ClickSession::start(plan);
    assert!(s.after_click(true, u64::MAX));
    assert_eq!(s.count, 1);
}

#[test]
fn session_waits_in_slices_until_interval() {
    let s = ClickSession::start(ClickPlan::new((0, 0), 100, 0, ClickMode::Universal));
    assert!(s.keep_waiting(0, 0, false));
    assert!(s.keep_waiting(99, 5000, false));
    assert!(!s.keep_waiting(100, 5000, false));
    assert!(!s.keep_waiting(20, 20, true));
    assert_eq!(s.wait_slice(0), 10);
    assert_eq!(s.wait_slice(95), 5);
    assert_eq!(s.wait_slice(99), 1);
    let fast = ClickSession::start(ClickPlan::new((0, 0), 3, 0, ClickMode::Universal));
    assert_eq!(fast.wait_slice(0), 3);
    assert_eq!(fast.wait_slice(2), 1);
}

#[test]
fn countdown_ends_a_long_wait() {
    // A 60 s interval with a 10 s countdown: the wait ends at the deadline
    // and no further click begins.
    let s = ClickSession::start(ClickPlan::new((0, 0), 60_000, 10, ClickMode::Universal));
    assert!(s.may_click(0));
    assert!(s.keep_waiting(9_000, 9_999, false));
    assert!(!s.keep_waiting(10_000, 10_000, false));
    assert!(!s.keep_waiting(20_000, 20_000, false));
    assert!(!s.may_click(10_000));
    assert!(!s.may_click(60_000));
    assert!(s.may_click(9_999));
}

#[test]
fn remaining_time_never_grows() {
    let st = ClickStats::started(&ClickPlan::new((0, 0), 100, 5, ClickMode::Universal));
    let mut last = st.remaining_secs(0).unwrap();
    assert_eq!(last, 5);
    for e in (0..7000).step_by(250) {
        let r = st.remaining_secs(e).unwrap();
        assert!(r <= last && r <= 5);
        last = r;
    }
    assert_eq!(last, 0);
}

#[test]
fn stats_remaining_seconds() {
    let plan = ClickPlan::new((0, 0), 100, 30, ClickMode::Universal);
    let st = ClickStats::started(&plan);
    assert!(st.running);
    assert_eq!(st.count, 0);
    assert_eq!(st.remaining_secs(0), Some(30));
    assert_eq!(st.remaining_secs(1), Some(29));
    assert_eq!(st.remaining_secs(29_999), Some(0));
    assert_eq!(st.remaining_secs(1000), Some(29));
    assert_eq!(st.remaining_secs(40_000), Some(0));
    let stopped = ClickStats { count: 7, ..st }.stopped();
    assert_eq!(stopped, ClickStats { count: 7, running: false, deadline: None });
    assert_eq!(stopped.remaining_secs(5), None);
    assert_eq!(ClickStats::idle(), ClickStats { count: 0, running: false, deadline: None });
}

fn cfg(point: Option<(i32, i32)>) -> Config {
    Config { point, interval_ms: 5, duration_sec: 0, mode: "background".to_string() }
}

#[test]
fn toggle_decisions() {
    assert_eq!(toggle(true, &cfg(Some((1, 2)))), ToggleDecision::Stop);
    assert_eq!(toggle(true, &cfg(None)), ToggleDecision::Stop);
    assert_eq!(toggle(false, &cfg(None)), ToggleDecision::NoPoint);
    let d = toggle(false, &cfg(Some((1, 2))));
    assert_eq!(
        d,
        ToggleDecision::Start(ClickPlan {
            point: (1, 2),
            interval_ms: 5,
            deadline_secs: None,
            mode: ClickMode::Background,
        })
    );
    assert!(d.running_after());
    assert!(!toggle(true, &cfg(Some((1, 2)))).running_after());
}

#[test]
fn toggle_twice_starts_then_stops() {
    let c = cfg(Some((10, 20)));
    let first = toggle(false, &c);
    assert!(first.running_after());
    let second = toggle(first.running_after(), &c);
    assert_eq!(second, ToggleDecision::Stop);
    assert!(!second.running_after());
}

#[test]
fn config_default() {
    let c = Config::default();
    assert_eq!(c.point, None);
    assert_eq!(c.interval_ms, 100);
    assert_eq!(c.duration_sec, 30);
    assert_eq!(c.mode, "universal");
}

use auto_clicker::clicker::{ClickRun, Phase, RunAction, RunEvent};

fn check(elapsed_ms: u64, waited_ms: u64, stop: bool) -> RunEvent {
    RunEvent::Check { elapsed_ms, waited_ms, stop_requested: stop }
}

#[test]
fn run_counts_delivered_clicks_and_waits() {
    let mut run = ClickRun::start(ClickPlan::new((1, 1), 25, 0, ClickMode::Universal));
    assert_eq!(run.step(check(0, 0, false)), RunAction::Click);
    assert_eq!(run.step(RunEvent::Clicked { delivered: true, elapsed_ms: 1 }), RunAction::Continue);
    assert_eq!(run.step(check(2, 1, false)), RunAction::Sleep(10));
    assert_eq!(run.step(check(20, 19, false)), RunAction::Sleep(6));
    assert_eq!(run.step(check(26, 25, false)), RunAction::Click);
    assert_eq!(run.step(RunEvent::Clicked { delivered: false, elapsed_ms: 27 }), RunAction::Continue);
    assert_eq!(run.session.count, 1);
    assert_eq!(run.step(RunEvent::Clicked { delivered: true, elapsed_ms: 28 }), RunAction::Ignore);
    assert_eq!(run.session.count, 1);
    assert_eq!(run.step(check(30, 2, true)), RunAction::Finish);
    assert_eq!(run.phase, Phase::Done);
    assert_eq!(run.step(check(31, 0, false)), RunAction::Finish);
    assert_eq!(run.session.count, 1);
}

#[test]
fn run_ends_at_deadline_during_long_wait() {
    let mut run = ClickRun::start(ClickPlan::new((1, 1), 60_000, 10, ClickMode::Background));
    assert_eq!(run.step(check(0, 0, false)), RunAction::Click);
    assert_eq!(run.step(RunEvent::Clicked { delivered: true, elapsed_ms: 5 }), RunAction::Continue);
    assert_eq!(run.step(check(9_995, 9_990, false)), RunAction::Sleep(10));
    assert_eq!(run.step(check(10_001, 9_996, false)), RunAction::Finish);
    assert_eq!(run.step(check(60_000, 0, false)), RunAction::Finish);
    assert_eq!(run.session.count, 1);
}

#[test]
fn run_stops_after_click_past_deadline() {
    let mut run = ClickRun::start(ClickPlan::new((1, 1), 100, 1, ClickMode::Universal));
    assert_eq!(run.step(check(999, 0, false)), RunAction::Click);
    assert_eq!(run.step(RunEvent::Clicked { delivered: true, elapsed_ms: 1000 }), RunAction::Finish);
    assert_eq!(run.session.count, 1);
    assert_eq!(run.phase, Phase::Done);
}
