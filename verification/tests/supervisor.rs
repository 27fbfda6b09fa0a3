use glosaurus::supervisor::{backend_file_name, Platform, Status, Supervisor, TerminateAction};

fn running_supervisor(platform: Platform) -> Supervisor {
    Supervisor::started(
        platform,
        String::from("/opt/app/bin/backend"),
        Some(String::from("/opt/app")),
        4242,
    )
}

#[test]
fn started_holds_the_process_as_running() {
    let s = running_supervisor(Platform::Unix);
    assert_eq!(s.status, Status::Running);
    assert_eq!(s.platform, Platform::Unix);
    assert_eq!(s.executable, "/opt/app/bin/backend");
    assert_eq!(s.working_dir, Some(String::from("/opt/app")));
    assert_eq!(s.pid, 4242);
}

#[test]
fn terminate_asks_for_a_graceful_signal_where_the_platform_has_one() {
    let mut s = running_supervisor(Platform::Unix);
    assert_eq!(s.terminate(), Some(TerminateAction::GracefulSignal));
    assert_eq!(s.status, Status::Terminated);
}

#[test]
fn terminate_kills_forcibly_where_no_graceful_signal_exists() {
    let mut s = running_supervisor(Platform::Windows);
    assert_eq!(s.terminate(), Some(TerminateAction::ForceKill));
    assert_eq!(s.status, Status::Terminated);
}

#[test]
fn terminate_twice_is_idempotent() {
    let mut s = running_supervisor(Platform::Unix);
    assert_eq!(s.terminate(), Some(TerminateAction::GracefulSignal));
    assert_eq!(s.terminate(), None);
    assert_eq!(s.terminate(), None);
    assert_eq!(s.status, Status::Terminated);
}

#[test]
fn terminate_after_the_process_exited_asks_nothing() {
    let mut s = running_supervisor(Platform::Unix);
    s.exited();
    assert_eq!(s.status, Status::Terminated);
    assert_eq!(s.terminate(), None);
    assert_eq!(s.status, Status::Terminated);
}

#[test]
fn backend_file_name_carries_the_platform_suffix() {
    assert_eq!(backend_file_name(Platform::Windows), "backend.exe");
    assert_eq!(backend_file_name(Platform::Unix), "backend");
}
