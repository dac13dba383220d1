use overlay_backend::error::Error;
use overlay_backend::startup::{RegistrationMethod, StartupState};

fn fresh() -> StartupState {
    StartupState::new(false, false, None, true, true)
}

#[test]
fn enable_then_check_reports_active() {
    let mut s = fresh();
    let live = String::from("C:\\Apps\\Overlay");
    let r = s.enable_auto_startup(&live, true, true, true);
    assert_eq!(r, Ok(RegistrationMethod::TaskScheduler));
    assert!(s.check_auto_startup());
}

#[test]
fn disable_then_check_reports_inactive() {
    let mut s = fresh();
    let live = String::from("C:\\Apps\\Overlay");
    s.enable_auto_startup(&live, true, true, true).unwrap();
    assert_eq!(s.disable_auto_startup(), Ok(()));
    assert!(!s.check_auto_startup());
}

#[test]
fn disable_with_nothing_registered_is_safe() {
    let mut s = fresh();
    assert_eq!(s.disable_auto_startup(), Ok(()));
    assert!(!s.check_auto_startup());
}

#[test]
fn disable_removes_both_registrations() {
    let mut s = StartupState::new(true, true, None, true, true);
    s.disable_auto_startup().unwrap();
    assert!(!s.task_registered);
    assert!(!s.shortcut_present);
}

#[test]
fn enable_without_executable_fails_not_found() {
    let mut s = fresh();
    let live = String::from("C:\\Apps\\Overlay");
    let r = s.enable_auto_startup(&live, true, false, true);
    assert_eq!(r, Err(Error::NotFound));
    assert!(!s.check_auto_startup());
    assert_eq!(s.stored_path, Some(live));
}

#[test]
fn enable_with_failed_registration_is_a_hard_failure() {
    let mut s = fresh();
    let live = String::from("C:\\Apps\\Overlay");
    let r = s.enable_auto_startup(&live, true, true, false);
    assert_eq!(r, Err(Error::ExternalCommandFailure));
    assert!(!s.task_registered);
    assert!(!s.shortcut_present);
}

#[test]
fn enable_overwrites_stored_path() {
    let mut s = StartupState::new(false, false, Some(String::from("C:\\Old")), true, true);
    let live = String::from("C:\\New");
    s.enable_auto_startup(&live, true, true, true).unwrap();
    assert_eq!(s.stored_path, Some(String::from("C:\\New")));
}

#[test]
fn shortcut_fallback_reports_its_method() {
    let mut s = fresh();
    let r = s.create_startup_shortcut(true);
    assert_eq!(r, Ok(RegistrationMethod::StartupFolder));
    assert!(s.check_auto_startup());
}

#[test]
fn failed_shortcut_creation_changes_nothing() {
    let mut s = fresh();
    let r = s.create_startup_shortcut(false);
    assert_eq!(r, Err(Error::ExternalCommandFailure));
    assert!(!s.check_auto_startup());
}

#[test]
fn failed_path_write_reports_io_failure() {
    let mut s = fresh();
    let live = String::from("C:\\Apps\\Overlay");
    assert_eq!(s.enable_auto_startup(&live, false, true, true), Err(Error::IOFailure));
    assert_eq!(s.stored_path, None);
    assert!(!s.task_registered);
    assert_eq!(s.store_app_path(&live, false), Err(Error::IOFailure));
    assert_eq!(s.stored_path, None);
}

#[test]
fn store_app_path_persists() {
    let mut s = fresh();
    let live = String::from("C:\\Apps\\Overlay");
    assert_eq!(s.store_app_path(&live, true), Ok(()));
    assert_eq!(s.stored_path, Some(live));
}

#[test]
fn resolve_prefers_stored_path_trimmed() {
    let s = StartupState::new(false, false, Some(String::from("  C:\\Apps\\Overlay \n")), true,
        true);
    let live = String::from("C:\\Fallback");
    assert_eq!(s.resolve_install_path(&live), "C:\\Apps\\Overlay");
}

#[test]
fn resolve_falls_back_to_live_directory() {
    let s = fresh();
    let live = String::from("C:\\Fallback");
    assert_eq!(s.resolve_install_path(&live), "C:\\Fallback");
}

#[test]
fn capability_probes_report_the_environment() {
    let s = StartupState::new(false, false, None, true, false);
    assert!(s.check_task_scheduler_available());
    assert!(!s.check_startup_folder_available());
}

#[test]
fn method_names_are_stable() {
    assert_eq!(RegistrationMethod::TaskScheduler.name(), "task_scheduler");
    assert_eq!(RegistrationMethod::StartupFolder.name(), "startup_folder");
}

#[test]
fn error_codes_are_stable() {
    assert_eq!(Error::NotFound.code(), "not_found");
    assert_eq!(Error::InvalidArgument.code(), "invalid_argument");
    assert_eq!(Error::ExternalCommandFailure.code(), "external_command_failure");
    assert_eq!(Error::IOFailure.code(), "io_failure");
    assert_eq!(Error::EnvironmentMissing.code(), "environment_missing");
}
