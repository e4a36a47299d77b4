use desktop_pet::types::{CpuLoad, PetState, VitalsVector};

fn pct(percent: u64) -> CpuLoad {
    CpuLoad { busy: percent, total: 100 }
}
use desktop_pet::vitals::VitalsEngine;

fn pts(v: i64) -> f64 {
    v as f64 / 1_000_000.0
}

#[test]
fn test_initial_vector() {
    let engine = VitalsEngine::new();
    assert_eq!(pts(engine.vector().energy), 100.0);
    assert_eq!(pts(engine.vector().hunger), 0.0);
    assert_eq!(pts(engine.vector().focus), 50.0);
    assert_eq!(pts(engine.vector().affection), 80.0);
    assert_eq!(pts(engine.vector().stress), 0.0);
}

#[test]
fn test_tick_idle() {
    let mut engine = VitalsEngine::new();
    engine.apply_tick(1000, PetState::Idle, pct(10));
    assert!((pts(engine.vector().energy) - 99.95).abs() < 1e-4);
    assert!((pts(engine.vector().hunger) - 0.05).abs() < 1e-4);
    assert!((pts(engine.vector().focus) - 49.95).abs() < 1e-4);
    assert!((pts(engine.vector().affection) - 79.98).abs() < 1e-4);
    assert!((pts(engine.vector().stress) - 0.0).abs() < 1e-4);
}

#[test]
fn test_user_click() {
    let mut engine = VitalsEngine::new();
    engine.vector_mut().stress = 10_000_000;
    engine.vector_mut().energy = 50_000_000;
    engine.apply_user_click();
    assert_eq!(pts(engine.vector().affection), 85.0);
    assert_eq!(pts(engine.vector().energy), 52.0);
    assert_eq!(pts(engine.vector().stress), 5.0);
}

#[test]
fn test_dt_cap() {
    let mut engine = VitalsEngine::new();
    engine.apply_tick(120_000, PetState::Idle, pct(10));
    // Effective dt should be capped at 60 s
    assert!((pts(engine.vector().hunger) - 3.0).abs() < 1e-4);
}

#[test]
fn vitals_negative_tick_changes_nothing() {
    let mut engine = VitalsEngine::new();
    engine.apply_tick(-5000, PetState::Working, pct(90));
    assert_eq!(*engine.vector(), VitalsVector::default());
}

#[test]
fn vitals_sleep_work_and_pressure_rates() {
    let mut engine = VitalsEngine::new();
    engine.vector_mut().energy = 10_000_000;
    engine.apply_tick(10_000, PetState::Sleeping, pct(90));
    assert_eq!(engine.vector().energy, 15_000_000); // +0.5/s
    assert_eq!(engine.vector().stress, 2_000_000); // +0.2/s under high CPU
    engine.apply_tick(10_000, PetState::Working, pct(0));
    assert_eq!(engine.vector().focus, 50_000_000 - 500_000 + 1_000_000);
    assert_eq!(engine.vector().stress, 1_000_000); // -0.1/s
}

#[test]
fn vitals_hunger_pressure_raises_stress() {
    let mut engine = VitalsEngine::new();
    engine.vector_mut().hunger = 80_000_000;
    engine.apply_tick(1000, PetState::Idle, pct(0));
    assert_eq!(engine.vector().hunger, 80_050_000);
    assert_eq!(engine.vector().stress, 200_000);
}

#[test]
fn vitals_stay_in_range() {
    let v = VitalsVector {
        energy: -5,
        hunger: 500_000_000,
        focus: i64::MAX,
        affection: i64::MIN,
        stress: 42,
    };
    let engine = VitalsEngine::from_vector(v);
    assert_eq!(
        *engine.vector(),
        VitalsVector { energy: 0, hunger: 100_000_000, focus: 100_000_000, affection: 0, stress: 42 }
    );
    let mut engine = VitalsEngine::new();
    for _ in 0..10 {
        engine.apply_user_click();
    }
    assert_eq!(engine.vector().affection, 100_000_000);
    assert_eq!(engine.vector().stress, 0);
    assert_eq!(engine.vector().energy, 100_000_000);
}

#[test]
fn vitals_default_is_new() {
    assert_eq!(VitalsEngine::default(), VitalsEngine::new());
}
