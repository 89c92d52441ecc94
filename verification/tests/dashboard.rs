use oxide_motive::esp32_hmi::init_display;
use oxide_motive::telemetry::{overheat_warning, telemetry_in_bounds};

#[test]
fn it_works() {
    init_display();
}

#[test]
fn test_ui_update() {
    assert!(!overheat_warning(95));
    assert!(!overheat_warning(100));
    assert!(overheat_warning(101));
}

#[test]
fn test_telemetry_validation() {
    assert!(telemetry_in_bounds(3500, 85));
    assert!(!telemetry_in_bounds(3500, 101));
    assert!(!telemetry_in_bounds(20000, 85));
}

#[test]
fn telemetry_bounds_are_inclusive() {
    assert!(telemetry_in_bounds(16000, 100));
    assert!(!telemetry_in_bounds(16001, 100));
    assert!(!telemetry_in_bounds(16000, 101));
    assert!(telemetry_in_bounds(0, 0));
}

#[test]
fn overheat_warning_below_freezing() {
    assert!(!overheat_warning(-40));
    assert!(overheat_warning(i16::MAX));
}
