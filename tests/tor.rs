use servoshell::tor::{
    binary_path_from_listing, bootstrap_timed_out, classify_bootstrap_line, stop, BootstrapLine, ProcessStatus, TorState,
};

#[test]
fn stop_forgets_the_daemon() {
    let mut state = TorState::new();
    assert!(!stop(&mut state));
    state.started(9050);
    assert!(stop(&mut state));
    assert!(!state.running);
    assert_eq!(state.socks_port, None);
}

#[test]
fn reuse_port_only_while_running() {
    let mut state = TorState::new();
    assert_eq!(state.reuse_port(ProcessStatus::Running), None);
    state.started(9150);
    assert_eq!(state.reuse_port(ProcessStatus::Running), Some(9150));
    assert_eq!(state.reuse_port(ProcessStatus::Unknown), None);
    assert!(state.running);
    assert_eq!(state.reuse_port(ProcessStatus::Exited), None);
    assert!(!state.running);
    assert_eq!(state.socks_port, None);
}

#[test]
fn bootstrap_lines() {
    assert!(matches!(
        classify_bootstrap_line("Jan 01 [notice] Bootstrapped 100% (done): Done"),
        BootstrapLine::Ready
    ));
    assert!(matches!(classify_bootstrap_line("Jan 01 [err] bad"), BootstrapLine::Error));
    assert!(matches!(classify_bootstrap_line("Bootstrapped 90%"), BootstrapLine::Other));
}

#[test]
fn binary_path_is_first_trimmed_line() {
    assert_eq!(binary_path_from_listing("/usr/bin/tor\n/other/tor\n").as_deref(), Some("/usr/bin/tor"));
    assert_eq!(binary_path_from_listing("  C:\\tor\\tor.exe\r\n").as_deref(), Some("C:\\tor\\tor.exe"));
    assert_eq!(binary_path_from_listing(""), None);
    assert_eq!(binary_path_from_listing("   \nx"), None);
}

#[test]
fn bootstrap_timeout_is_strictly_after_a_minute() {
    assert!(!bootstrap_timed_out(59, 999_999_999));
    assert!(!bootstrap_timed_out(60, 0));
    assert!(bootstrap_timed_out(60, 1));
    assert!(bootstrap_timed_out(61, 0));
}
