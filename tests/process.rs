use ecal::error::CalError;
use ecal::process::{
    check_c_text, init_outcome, ok, sleep_millis, Cal, InitStatus, NodeState, SeverityLevel,
    MAX_SLEEP_MS,
};

#[test]
fn ecal_init_and_finalize() {
    // A fresh initialization of unit "kcal_init_test" answers 0.
    assert!(check_c_text("kcal_init_test").is_ok());
    assert!(init_outcome(0).is_ok());
    assert_eq!(sleep_millis(10), 10);
    let mut cal = Cal::new("kcal_init_test", 0).unwrap();
    cal.finalize();
    assert!(!cal.is_active());
}

#[test]
fn ecal_init_and_finalize_raii() {
    let cal = Cal::new("kcal_tests", 0);
    assert!(cal.is_ok());
    let _cal = cal.unwrap();
    assert!(ok(1));
}

#[test]
fn ecal_set_state() {
    let cal = Cal::new("kcal_tests", 0);
    assert!(cal.is_ok());
    let mut cal = cal.unwrap();
    cal.set_state(NodeState::Healthy, SeverityLevel::Level1, "All good in the hood!")
        .expect("Unable to set eCAL node state.");
    assert_eq!(sleep_millis(20), 20);
    assert!(ok(1));
    assert_eq!(cal.status_message(), "All good in the hood!");
}

#[test]
fn init_status_mapping() {
    assert_eq!(init_outcome(-1), Err(CalError::InitializationFailed));
    assert_eq!(init_outcome(0), Ok(InitStatus::Fresh));
    assert_eq!(init_outcome(1), Ok(InitStatus::AlreadyInitialized));
    assert_eq!(init_outcome(7), Ok(InitStatus::Unexpected(7)));
}

#[test]
fn already_initialized_is_not_an_error() {
    let cal = Cal::new("unit", 1).unwrap();
    assert!(cal.is_active());
    assert_eq!(cal.unit_name(), "unit");
}

#[test]
fn failed_initialization_gives_no_guard() {
    assert!(matches!(Cal::new("unit", -1), Err(CalError::InitializationFailed)));
}

#[test]
fn unit_name_with_nul_is_refused() {
    assert!(matches!(Cal::new("bad\0name", 0), Err(CalError::Unknown(_))));
}

#[test]
fn new_guard_reports_healthy() {
    let cal = Cal::new("unit", 0).unwrap();
    assert_eq!(cal.state(), NodeState::Healthy);
    assert_eq!(cal.level(), SeverityLevel::Level1);
    assert_eq!(cal.status_message(), "ok");
}

#[test]
fn set_state_with_nul_changes_nothing() {
    let mut cal = Cal::new("unit", 0).unwrap();
    let r = cal.set_state(NodeState::Failed, SeverityLevel::Level5, "broken\0text");
    assert!(matches!(r, Err(CalError::Unknown(_))));
    assert_eq!(cal.state(), NodeState::Healthy);
    assert_eq!(cal.level(), SeverityLevel::Level1);
    assert_eq!(cal.status_message(), "ok");
}

#[test]
fn set_state_records_report() {
    let mut cal = Cal::new("unit", 0).unwrap();
    cal.set_state(NodeState::Warning, SeverityLevel::Level3, "low disk").unwrap();
    assert_eq!(cal.state(), NodeState::Warning);
    assert_eq!(cal.level(), SeverityLevel::Level3);
    assert_eq!(cal.status_message(), "low disk");
}

#[test]
fn native_code_table() {
    assert_eq!(NodeState::Unknown.native_code(), 0);
    assert_eq!(NodeState::Healthy.native_code(), 1);
    assert_eq!(NodeState::Warning.native_code(), 2);
    assert_eq!(NodeState::Critical.native_code(), 3);
    assert_eq!(NodeState::Failed.native_code(), 4);
    assert_eq!(SeverityLevel::Level1.native_code(), 1);
    assert_eq!(SeverityLevel::Level2.native_code(), 2);
    assert_eq!(SeverityLevel::Level3.native_code(), 3);
    assert_eq!(SeverityLevel::Level4.native_code(), 4);
    assert_eq!(SeverityLevel::Level5.native_code(), 5);
}

#[test]
fn health_and_sleep_conversions() {
    assert!(!ok(0));
    assert!(ok(-3));
    assert_eq!(sleep_millis(0), 0);
    assert_eq!(sleep_millis(u128::MAX), MAX_SLEEP_MS);
}
