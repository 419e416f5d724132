//! Tests for the server-facing operations.  The library never spawns a
//! process itself, so each test holds an operation to its observable
//! boundary: the exact command the library issues for the given inputs, and
//! the reading of the control plane's answer.  Running those commands
//! against a live server is the surrounding program's job.

use tmuxrs::error::TmuxrsError;
use tmuxrs::session::SessionManager;
use tmuxrs::tmux::{session_present, TmuxCommand};

/// What the control plane answers for a session that is not there: the
/// probe fails, and any failure reads as "absent".
fn absent_probe_outcome() -> Result<String, TmuxrsError> {
    Err(TmuxrsError::TmuxError("can't find session".to_string()))
}

/// What the control plane answers for a present session: the probe
/// succeeds with empty output.
fn present_probe_outcome() -> Result<String, TmuxrsError> {
    Ok(String::new())
}

/// Tests for session existence checking.
#[test]
fn mod_test_session_exists_check() {
    let session_name = "tmx-session-exists-check";
    let socket = "/tmp/tmx-test-sockets/s";

    // The probe aimed at the isolated server.
    let probe = TmuxCommand::session_exists_with_socket(session_name, Some(socket));
    assert_eq!(probe.args, vec!["has-session", "-t", session_name]);
    assert_eq!(
        probe.full_args(),
        vec!["-S", socket, "has-session", "-t", session_name]
    );

    // A failed probe outcome reads as absent.
    assert!(!session_present(&absent_probe_outcome()));

    // Creating the session is one detached new-session at the working
    // directory, on the same socket.
    let create = TmuxCommand::new_session_with_socket(session_name, "/tmp", Some(socket));
    assert_eq!(
        create.args,
        vec!["new-session", "-d", "-s", session_name, "-c", "/tmp"]
    );

    // A successful probe outcome reads as present.
    assert!(session_present(&present_probe_outcome()));

    // The probe for another name has the same shape, and a failure again
    // reads as absent.
    let non_existent = TmuxCommand::session_exists_with_socket("definitely-does-not-exist", Some(socket));
    assert_eq!(
        non_existent.args,
        vec!["has-session", "-t", "definitely-does-not-exist"]
    );
    assert!(!session_present(&absent_probe_outcome()));
}

#[test]
fn test_create_session_simple() {
    // Creating a session in a scratch working directory issues exactly one
    // detached new-session there.
    let create = TmuxCommand::new_session_with_socket(
        "tmx-create-session",
        "/tmp/tmx-scratch",
        Some("/tmp/tmx-test-sockets/s1"),
    );
    assert_eq!(
        create.args,
        vec!["new-session", "-d", "-s", "tmx-create-session", "-c", "/tmp/tmx-scratch"]
    );
    assert_eq!(create.socket_path, Some("/tmp/tmx-test-sockets/s1".to_string()));

    // A successful probe outcome reads as present.
    assert!(session_present(&present_probe_outcome()));
}

#[test]
fn mod_test_stop_nonexistent_session() {
    let session_manager = SessionManager::new();
    let name = "definitely-does-not-exist";

    // A failed probe outcome reads as absent.
    let probe_result = session_present(&absent_probe_outcome());
    assert!(!probe_result);

    let result = session_manager.stop_session(name, probe_result);

    // Stopping a non-existent session should fail gracefully
    assert!(result.is_err(), "Stopping non-existent session should fail");

    let error = result.unwrap_err();
    assert!(
        error.message().contains("can't find session")
            || error.message().contains("session not found")
            || error.message().contains("does not exist"),
        "Error should indicate session not found: {}",
        error.message()
    );
}

/// Tests for tmux session creation using isolated servers
#[test]
fn mod_test_create_session() {
    let socket = "/tmp/tmx-test-sockets/s2";
    let create = TmuxCommand::new_session_with_socket("tmx-tmux-create-session", "/tmp", Some(socket));
    assert_eq!(
        create.args,
        vec!["new-session", "-d", "-s", "tmx-tmux-create-session", "-c", "/tmp"]
    );
    // Every command of the run stays on the isolated server.
    assert_eq!(create.full_args()[0], "-S");
    assert_eq!(create.full_args()[1], socket);

    // A successful probe outcome reads as present.
    assert!(session_present(&present_probe_outcome()));
}

/// Tests for window creation within existing sessions
#[test]
fn mod_test_create_window() {
    let socket = "/tmp/tmx-test-sockets/s3";
    let session_name = "tmx-tmux-create-window";

    let create = TmuxCommand::new_session_with_socket(session_name, ".", Some(socket));
    assert_eq!(
        create.args,
        vec!["new-session", "-d", "-s", session_name, "-c", "."]
    );

    // The window is created bare: no command argument, ever.
    let window = TmuxCommand::new_window_with_socket(session_name, "test-window", None, None, Some(socket));
    assert_eq!(
        window.args,
        vec!["new-window", "-t", session_name, "-n", "test-window"]
    );
    assert_eq!(window.socket_path, Some(socket.to_string()));
}

/// Tests for sending key commands to tmux windows
#[test]
fn mod_test_send_keys() {
    let socket = "/tmp/tmx-test-sockets/s4";
    let session_name = "tmx-tmux-send-keys";

    let window = TmuxCommand::new_window_with_socket(session_name, "test-window", None, None, Some(socket));
    assert_eq!(
        window.args,
        vec!["new-window", "-t", session_name, "-n", "test-window"]
    );

    // The command text goes in afterwards, followed by a virtual Enter.
    let keys = TmuxCommand::send_keys_with_socket(session_name, "test-window", "echo hello", Some(socket));
    assert_eq!(
        keys.args,
        vec![
            "send-keys",
            "-t",
            "tmx-tmux-send-keys:test-window",
            "echo hello",
            "Enter"
        ]
    );
    assert_eq!(keys.socket_path, Some(socket.to_string()));
}

/// Tests for advanced tmux operations with isolated servers
#[test]
fn test_isolated_server_operations() {
    let socket = "/tmp/tmx-test-sockets/s5";
    let session_name = "tmx-isolated-operations";

    let create = TmuxCommand::new_session_with_socket(session_name, ".", Some(socket));
    assert_eq!(create.args[0], "new-session");

    let window1 = TmuxCommand::new_window_with_socket(session_name, "window1", None, None, Some(socket));
    let window2 = TmuxCommand::new_window_with_socket(session_name, "window2", None, None, Some(socket));
    assert_eq!(
        window1.args,
        vec!["new-window", "-t", session_name, "-n", "window1"]
    );
    assert_eq!(
        window2.args,
        vec!["new-window", "-t", session_name, "-n", "window2"]
    );

    let keys1 = TmuxCommand::send_keys_with_socket(session_name, "window1", "echo 'window 1'", Some(socket));
    let keys2 = TmuxCommand::send_keys_with_socket(session_name, "window2", "echo 'window 2'", Some(socket));
    assert_eq!(
        keys1.args,
        vec![
            "send-keys",
            "-t",
            "tmx-isolated-operations:window1",
            "echo 'window 1'",
            "Enter"
        ]
    );
    assert_eq!(
        keys2.args,
        vec![
            "send-keys",
            "-t",
            "tmx-isolated-operations:window2",
            "echo 'window 2'",
            "Enter"
        ]
    );

    let split_h = TmuxCommand::split_window_horizontal_with_socket(
        session_name,
        "window1",
        "echo 'split horizontal'",
        None,
        Some(socket),
    );
    assert_eq!(
        split_h.args,
        vec![
            "split-window",
            "-h",
            "-t",
            "tmx-isolated-operations:window1",
            "echo 'split horizontal'"
        ]
    );

    let split_v = TmuxCommand::split_window_vertical_with_socket(
        session_name,
        "window2",
        "echo 'split vertical'",
        None,
        Some(socket),
    );
    assert_eq!(
        split_v.args,
        vec![
            "split-window",
            "-v",
            "-t",
            "tmx-isolated-operations:window2",
            "echo 'split vertical'"
        ]
    );

    let layout = TmuxCommand::select_layout_with_socket(session_name, "window1", "main-vertical", Some(socket));
    assert_eq!(
        layout.args,
        vec![
            "select-layout",
            "-t",
            "tmx-isolated-operations:window1",
            "main-vertical"
        ]
    );

    // All of it aimed at the one isolated server.
    for cmd in [&create, &window1, &window2, &keys1, &keys2, &split_h, &split_v, &layout] {
        assert_eq!(cmd.socket_path, Some(socket.to_string()));
    }
}
