use appshell::events::drop_response;
use appshell::file_read::file_read_response;
use appshell::greeting::greet;
use appshell::startup::{Platform, SetupAction, SetupPhase, SetupSequencer};

#[test]
fn greet_formats_the_name() {
    let r = greet("World".to_string());
    assert_eq!(r, "Hello, World! You've been greeted from Rust!");
    assert!(r.contains("World"));
    assert!(r.contains('!'));
}

#[test]
fn greet_empty_name_is_nonempty() {
    let r = greet(String::new());
    assert!(!r.is_empty());
    assert_eq!(r, "Hello, ! You've been greeted from Rust!");
}

#[test]
fn file_read_response_passes_contents_through() {
    let r = file_read_response(Ok("abc".to_string()));
    assert_eq!(r, Ok("abc".to_string()));
}

#[test]
fn file_read_response_keeps_the_error_text() {
    let r = file_read_response(Err("No such file or directory (os error 2)".to_string()));
    assert_eq!(r, Err("No such file or directory (os error 2)".to_string()));
}

#[test]
fn file_read_response_names_a_blank_error() {
    let r = file_read_response(Err(String::new()));
    let msg = r.unwrap_err();
    assert!(!msg.is_empty());
    assert_eq!(msg, "unknown error");
}

#[test]
fn drop_with_payload_and_window_emits_file_open() {
    let r = drop_response(Some("/tmp/foo.txt".to_string()), true);
    let e = r.expect("an event must be emitted");
    assert_eq!(e.event, "file-open");
    assert_eq!(e.payload, "/tmp/foo.txt");
}

#[test]
fn drop_without_payload_emits_nothing() {
    assert!(drop_response(None, true).is_none());
    assert!(drop_response(None, false).is_none());
}

#[test]
fn drop_without_window_emits_nothing() {
    assert!(drop_response(Some("/tmp/foo.txt".to_string()), false).is_none());
}

#[test]
fn setup_runs_all_steps_in_order_without_shadow() {
    let mut s = SetupSequencer::new(Platform::Other);
    assert_eq!(s.next_action(), SetupAction::ResolveMainWindow);
    s.advance(true);
    assert_eq!(s.next_action(), SetupAction::ShowWindow);
    s.advance(true);
    assert_eq!(s.next_action(), SetupAction::RegisterDropListener);
    s.advance(true);
    assert_eq!(s.next_action(), SetupAction::Done);
    assert_eq!(s.phase, SetupPhase::Ready);
}

#[test]
fn setup_applies_shadow_on_windows_and_macos() {
    for p in [Platform::Windows, Platform::MacOs] {
        let mut s = SetupSequencer::new(p);
        assert_eq!(s.next_action(), SetupAction::ResolveMainWindow);
        s.advance(true);
        assert_eq!(s.next_action(), SetupAction::ApplyShadow);
        s.advance(true);
        assert_eq!(s.next_action(), SetupAction::ShowWindow);
        s.advance(true);
        assert_eq!(s.next_action(), SetupAction::RegisterDropListener);
        s.advance(true);
        assert_eq!(s.next_action(), SetupAction::Done);
    }
}

#[test]
fn missing_window_is_fatal() {
    let mut s = SetupSequencer::new(Platform::Windows);
    s.advance(false);
    assert_eq!(s.phase, SetupPhase::Failed);
    assert_eq!(s.next_action(), SetupAction::Abort);
}

#[test]
fn shadow_failure_is_fatal() {
    let mut s = SetupSequencer::new(Platform::MacOs);
    s.advance(true);
    assert_eq!(s.next_action(), SetupAction::ApplyShadow);
    s.advance(false);
    assert_eq!(s.next_action(), SetupAction::Abort);
}

#[test]
fn show_failure_is_fatal() {
    let mut s = SetupSequencer::new(Platform::Other);
    s.advance(true);
    assert_eq!(s.next_action(), SetupAction::ShowWindow);
    s.advance(false);
    assert_eq!(s.next_action(), SetupAction::Abort);
}

#[test]
fn failed_setup_stays_failed() {
    let mut s = SetupSequencer::new(Platform::Other);
    s.advance(false);
    s.advance(true);
    assert_eq!(s.phase, SetupPhase::Failed);
    assert_eq!(s.next_action(), SetupAction::Abort);
}
