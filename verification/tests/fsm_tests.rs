use desktop_pet::fsm::{FsmState, IDE_KEYWORDS};
use desktop_pet::types::{CpuLoad, PetState, TelemetryEvent, VitalsVector};
use desktop_pet::vitals::VitalsEngine;
use std::time::Duration;

fn pct(percent: u64) -> CpuLoad {
    CpuLoad { busy: percent, total: 100 }
}

fn secs(n: u64) -> u128 {
    Duration::from_secs(n).as_nanos()
}

fn points(v: i64) -> f64 {
    v as f64 / 1_000_000.0
}

#[test]
fn test_ide_active_transition() {
    let mut fsm = FsmState::new();
    let vitals = VitalsVector::default();

    let event = TelemetryEvent::ActiveWindow {
        class: "Code".to_string(),
        title: "main.rs".to_string(),
    };
    fsm.handle_event(&event);
    fsm.update(secs(1), &vitals);
    assert_eq!(fsm.current_state, PetState::Working);

    let event2 = TelemetryEvent::ActiveWindow {
        class: "Firefox".to_string(),
        title: "Mozilla Firefox".to_string(),
    };
    fsm.handle_event(&event2);
    fsm.update(secs(1), &vitals);
    assert_eq!(fsm.current_state, PetState::Idle);
}

#[test]
fn test_sleeping_transition() {
    let mut fsm = FsmState::new();
    let mut vitals = VitalsVector::default();

    fsm.handle_event(&TelemetryEvent::IdleTime(301));
    fsm.update(secs(1), &vitals);
    assert_eq!(fsm.current_state, PetState::Sleeping);

    // Cannot wake up if energy is low
    vitals.energy = 20_000_000;
    fsm.handle_event(&TelemetryEvent::IdleTime(5));
    fsm.update(secs(1), &vitals);
    assert_eq!(fsm.current_state, PetState::Sleeping);

    // Can wake up when energy > 30 and idle < 10
    vitals.energy = 35_000_000;
    fsm.update(secs(1), &vitals);
    assert_eq!(fsm.current_state, PetState::Idle);
}

#[test]
fn test_celebrating_revert() {
    let mut fsm = FsmState::new();
    let vitals = VitalsVector::default();

    fsm.handle_event(&TelemetryEvent::ActiveWindow {
        class: "zed".to_string(),
        title: "project".to_string(),
    });
    fsm.update(secs(1), &vitals);
    assert_eq!(fsm.current_state, PetState::Working);

    fsm.handle_event(&TelemetryEvent::DevCommit {
        repo: "test".to_string(),
        hash: "abc".to_string(),
    });
    assert_eq!(fsm.current_state, PetState::Celebrating);

    fsm.update(secs(3), &vitals);
    assert_eq!(fsm.current_state, PetState::Celebrating);

    fsm.update(secs(3), &vitals);
    assert_eq!(fsm.current_state, PetState::Working);
}

#[test]
fn test_distressed_transition() {
    let mut fsm = FsmState::new();
    let vitals = VitalsVector::default();

    fsm.handle_event(&TelemetryEvent::CpuUsage(pct(90)));
    for _ in 0..60 {
        fsm.update(secs(1), &vitals);
    }
    assert_ne!(fsm.current_state, PetState::Distressed);

    fsm.update(secs(1), &vitals);
    assert_eq!(fsm.current_state, PetState::Distressed);

    fsm.handle_event(&TelemetryEvent::CpuUsage(pct(50)));
    fsm.update(secs(1), &vitals);
    assert_eq!(fsm.current_state, PetState::Idle);
}

#[test]
fn test_mock_tick_stream_fsm_and_vitals() {
    let mut vitals_engine = VitalsEngine::new();
    let mut fsm = FsmState::new();

    // Initial state check
    assert_eq!(fsm.current_state, PetState::Idle);
    assert_eq!(points(vitals_engine.vector().energy), 100.0);
    assert_eq!(points(vitals_engine.vector().hunger), 0.0);

    // Stream event: Active window matching IDE -> WORKING state
    let event = TelemetryEvent::ActiveWindow {
        class: "Alacritty".to_string(),
        title: "nvim main.rs".to_string(),
    };
    fsm.handle_event(&event);
    fsm.update(secs(1), vitals_engine.vector());
    assert_eq!(fsm.current_state, PetState::Working);

    // Run 10 ticks while working
    for _ in 0..10 {
        vitals_engine.apply_tick(1000, fsm.current_state, fsm.cpu_usage);
        fsm.update(secs(1), vitals_engine.vector());
    }

    // Energy drops: 100 - (0.05 * 10) = 99.5
    // Focus rises: 50 + (0.10 * 10) = 51.0
    // Hunger rises: 0 + (0.05 * 10) = 0.5
    assert!((points(vitals_engine.vector().energy) - 99.5).abs() < 1e-3);
    assert!((points(vitals_engine.vector().focus) - 51.0).abs() < 1e-3);
    assert!((points(vitals_engine.vector().hunger) - 0.5).abs() < 1e-3);

    // Stream event: DevCommit -> CELEBRATING state
    fsm.handle_event(&TelemetryEvent::DevCommit {
        repo: "desktop-pet".to_string(),
        hash: "abcdef".to_string(),
    });
    assert_eq!(fsm.current_state, PetState::Celebrating);

    // Tick for 4 seconds -> still celebrating
    for _ in 0..4 {
        vitals_engine.apply_tick(1000, fsm.current_state, fsm.cpu_usage);
        fsm.update(secs(1), vitals_engine.vector());
    }
    assert_eq!(fsm.current_state, PetState::Celebrating);

    // Tick 1 more second (total 5s) -> revert to WORKING
    vitals_engine.apply_tick(1000, fsm.current_state, fsm.cpu_usage);
    fsm.update(secs(1), vitals_engine.vector());
    assert_eq!(fsm.current_state, PetState::Working);

    // UserClick event boost
    vitals_engine.apply_user_click();
    assert!((points(vitals_engine.vector().affection) - 84.8).abs() < 1e-1); // 80 - 16*0.02 + 5.0 = 84.68
}

#[test]
fn test_mock_tick_stream_distressed_and_sleeping() {
    let mut vitals_engine = VitalsEngine::new();
    let mut fsm = FsmState::new();

    // High CPU for > 60 seconds
    fsm.handle_event(&TelemetryEvent::CpuUsage(pct(90)));
    for _ in 0..61 {
        vitals_engine.apply_tick(1000, fsm.current_state, fsm.cpu_usage);
        fsm.update(secs(1), vitals_engine.vector());
    }
    assert_eq!(fsm.current_state, PetState::Distressed);

    // Lower CPU usage -> reverts to Idle
    fsm.handle_event(&TelemetryEvent::CpuUsage(pct(20)));
    vitals_engine.apply_tick(1000, fsm.current_state, fsm.cpu_usage);
    fsm.update(secs(1), vitals_engine.vector());
    assert_eq!(fsm.current_state, PetState::Idle);

    // Idle time > 300 -> SLEEPING
    fsm.handle_event(&TelemetryEvent::IdleTime(305));
    vitals_engine.apply_tick(1000, fsm.current_state, fsm.cpu_usage);
    fsm.update(secs(1), vitals_engine.vector());
    assert_eq!(fsm.current_state, PetState::Sleeping);
}

#[test]
fn fsm_reports_whether_state_changed() {
    let mut fsm = FsmState::new();
    let vitals = VitalsVector::default();
    assert!(!fsm.handle_event(&TelemetryEvent::CpuUsage(pct(10))));
    assert!(fsm.handle_event(&TelemetryEvent::DevCommit {
        repo: "r".to_string(),
        hash: "h".to_string(),
    }));
    assert_eq!(fsm.previous_state, Some(PetState::Idle));
    assert_eq!(fsm.celebration_timer, Some(5_000_000_000));
    assert!(!fsm.update(secs(2), &vitals));
    assert_eq!(fsm.celebration_timer, Some(3_000_000_000));
    assert!(fsm.update(secs(3), &vitals));
    assert_eq!(fsm.current_state, PetState::Idle);
    assert_eq!(fsm.celebration_timer, None);
    assert_eq!(fsm.previous_state, None);
}

#[test]
fn fsm_second_commit_restarts_celebration() {
    let mut fsm = FsmState::new();
    let vitals = VitalsVector::default();
    let commit = TelemetryEvent::DevCommit { repo: "r".to_string(), hash: "h".to_string() };
    fsm.handle_event(&commit);
    fsm.update(secs(4), &vitals);
    assert!(!fsm.handle_event(&commit));
    assert_eq!(fsm.celebration_timer, Some(5_000_000_000));
    fsm.update(secs(4), &vitals);
    assert_eq!(fsm.current_state, PetState::Celebrating);
    fsm.update(secs(1), &vitals);
    assert_eq!(fsm.current_state, PetState::Idle);
}

#[test]
fn fsm_sleep_overrides_celebration() {
    let mut fsm = FsmState::new();
    let mut vitals = VitalsVector::default();
    fsm.handle_event(&TelemetryEvent::DevCommit { repo: "r".to_string(), hash: "h".to_string() });
    vitals.energy = 5_000_000;
    fsm.update(secs(1), &vitals);
    assert_eq!(fsm.current_state, PetState::Sleeping);
    assert_eq!(fsm.celebration_timer, None);
    assert_eq!(fsm.previous_state, None);
}

#[test]
fn fsm_window_keywords_ignore_case_and_match_titles() {
    let mut fsm = FsmState::new();
    fsm.handle_event(&TelemetryEvent::ActiveWindow {
        class: "org.wezfurlong.WEZTERM".to_string(),
        title: "shell".to_string(),
    });
    assert!(fsm.is_ide_active);
    fsm.handle_event(&TelemetryEvent::ActiveWindow {
        class: "firefox".to_string(),
        title: "Editing in NEOVIM".to_string(),
    });
    assert!(fsm.is_ide_active);
    fsm.handle_event(&TelemetryEvent::ActiveWindow {
        class: "firefox".to_string(),
        title: "News".to_string(),
    });
    assert!(!fsm.is_ide_active);
}

#[test]
fn fsm_distress_returns_to_work_when_editor_focused() {
    let mut fsm = FsmState::new();
    let vitals = VitalsVector::default();
    fsm.handle_event(&TelemetryEvent::CpuUsage(pct(90)));
    fsm.update(secs(61), &vitals);
    assert_eq!(fsm.current_state, PetState::Distressed);
    fsm.handle_event(&TelemetryEvent::ActiveWindow { class: "kitty".to_string(), title: "".to_string() });
    fsm.handle_event(&TelemetryEvent::CpuUsage(pct(85)));
    fsm.update(secs(1), &vitals);
    assert_eq!(fsm.current_state, PetState::Working);
    assert_eq!(fsm.distressed_high_cpu_duration, 0);
}

#[test]
fn fsm_default_is_new() {
    assert_eq!(FsmState::default(), FsmState::new());
}

#[test]
fn fsm_cpu_just_above_85_percent_is_high() {
    let vitals = VitalsVector::default();
    let mut fsm = FsmState::new();
    fsm.handle_event(&TelemetryEvent::CpuUsage(CpuLoad { busy: 85_004, total: 100_000 }));
    fsm.update(secs(61), &vitals);
    assert_eq!(fsm.current_state, PetState::Distressed);
    let mut calm = FsmState::new();
    calm.handle_event(&TelemetryEvent::CpuUsage(CpuLoad { busy: 17, total: 20 }));
    calm.update(secs(61), &vitals);
    assert_eq!(calm.current_state, PetState::Idle);
    assert_eq!(calm.distressed_high_cpu_duration, 0);
}

#[test]
fn ide_keywords_name_editors_and_terminals() {
    assert_eq!(IDE_KEYWORDS.len(), 7);
    assert!(IDE_KEYWORDS.contains(&"kitty"));
    assert!(IDE_KEYWORDS.contains(&"nvim"));
}
