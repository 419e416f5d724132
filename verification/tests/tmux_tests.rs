use tmuxrs::error::TmuxrsError;
use tmuxrs::tmux::{
    classify_output, interactive_exit_error, no_tty_error, pane_target, parse_first_window_index,
    session_present, spawn_failed_error, wait_failed_error, window_target, TmuxCommand,
};

#[test]
fn test_tmux_command_builder_basic() {
    let cmd = TmuxCommand::new().arg("list-sessions");
    assert_eq!(cmd.args, vec!["list-sessions"]);
    assert_eq!(cmd.socket_path, None);
}

#[test]
fn test_tmux_command_builder_multiple_args() {
    let cmd = TmuxCommand::new()
        .arg("new-session")
        .arg("-d")
        .arg("-s")
        .arg("test-session");
    assert_eq!(cmd.args, vec!["new-session", "-d", "-s", "test-session"]);
}

#[test]
fn test_tmux_command_with_socket() {
    let temp_dir = tempfile::TempDir::new().unwrap();
    let socket_path = temp_dir.path().join("tmux.sock");

    let cmd = TmuxCommand::with_socket(socket_path.to_string_lossy().as_ref());
    assert_eq!(
        cmd.socket_path,
        Some(socket_path.to_string_lossy().to_string())
    );
    assert!(cmd.args.is_empty());
}

#[test]
fn test_tmux_command_socket_builder() {
    let temp_dir = tempfile::TempDir::new().unwrap();
    let socket_path = temp_dir.path().join("tmux.sock");

    let cmd = TmuxCommand::new()
        .socket(socket_path.to_string_lossy().as_ref())
        .arg("list-sessions");
    assert_eq!(
        cmd.socket_path,
        Some(socket_path.to_string_lossy().to_string())
    );
    assert_eq!(cmd.args, vec!["list-sessions"]);
}

#[test]
fn test_window_target_formatting() {
    // Test that window targets are formatted correctly
    let session = "my-session";
    let window = "my-window";
    let target = format!("{session}:{window}");
    assert_eq!(target, "my-session:my-window");
}

#[test]
fn test_pane_target_formatting() {
    // Test that pane targets are formatted correctly
    let session = "my-session";
    let window = "my-window";
    let pane = 2;
    let target = format!("{session}:{window}.{pane}");
    assert_eq!(target, "my-session:my-window.2");
}

#[test]
fn test_arg_into_string() {
    // Test that arg() accepts various sources of string data
    let cmd = TmuxCommand::new()
        .arg("literal")
        .arg(String::from("owned").as_str())
        .arg(String::from("borrowed").as_str());
    assert_eq!(cmd.args, vec!["literal", "owned", "borrowed"]);
}

#[test]
fn test_path_conversion() {
    let temp_dir = tempfile::TempDir::new().unwrap();
    let path = temp_dir.path().join("workspace");

    // Test that paths are correctly converted to strings
    let path_str = path.to_string_lossy();
    assert!(!path_str.is_empty());
    assert!(!path_str.contains('\0')); // No null bytes
}

#[test]
fn test_empty_window_name_handling() {
    // Test split window target formatting with empty window name
    let session = "test-session";
    let window = "";

    let target = if window.is_empty() {
        session.to_string()
    } else {
        format!("{session}:{window}")
    };
    assert_eq!(target, "test-session");
}

#[test]
fn test_command_trimming() {
    // Test that commands are properly trimmed
    let test_command = "  echo hello  ";
    assert_eq!(test_command.trim(), "echo hello");
    assert!(!test_command.trim().is_empty());

    let empty_command = "   ";
    assert!(empty_command.trim().is_empty());
}

#[test]
fn test_target_helpers_match_formatting() {
    assert_eq!(window_target("my-session", "my-window"), "my-session:my-window");
    assert_eq!(pane_target("my-session", "my-window", 2), "my-session:my-window.2");
    assert_eq!(pane_target("s", "w", 10), "s:w.10");
    assert_eq!(pane_target("s", "w", 0), "s:w.0");
}

#[test]
fn test_session_exists_command_shape() {
    let cmd = TmuxCommand::session_exists("alpha");
    assert_eq!(cmd.args, vec!["has-session", "-t", "alpha"]);
    assert_eq!(cmd.socket_path, None);

    let cmd = TmuxCommand::session_exists_with_socket("alpha", Some("/tmp/sock"));
    assert_eq!(cmd.args, vec!["has-session", "-t", "alpha"]);
    assert_eq!(cmd.socket_path, Some("/tmp/sock".to_string()));
}

#[test]
fn test_new_session_command_shape() {
    let cmd = TmuxCommand::new_session("proj", "/tmp");
    assert_eq!(cmd.args, vec!["new-session", "-d", "-s", "proj", "-c", "/tmp"]);
}

#[test]
fn test_set_index_command_shapes() {
    let cmd = TmuxCommand::set_base_index("proj");
    assert_eq!(cmd.args, vec!["set-option", "-t", "proj", "base-index", "0"]);
    let cmd = TmuxCommand::set_pane_base_index("proj");
    assert_eq!(cmd.args, vec!["set-option", "-t", "proj", "pane-base-index", "0"]);
}

#[test]
fn test_new_window_command_shape() {
    let cmd = TmuxCommand::new_window("proj", "editor", None, Some("/tmp"));
    assert_eq!(
        cmd.args,
        vec!["new-window", "-t", "proj", "-n", "editor", "-c", "/tmp"]
    );
    let cmd = TmuxCommand::new_window("proj", "editor", Some("vim"), None);
    assert_eq!(cmd.args, vec!["new-window", "-t", "proj", "-n", "editor", "vim"]);
}

#[test]
fn test_send_keys_command_shapes() {
    let cmd = TmuxCommand::send_keys("proj", "editor", "vim");
    assert_eq!(cmd.args, vec!["send-keys", "-t", "proj:editor", "vim", "Enter"]);
    let cmd = TmuxCommand::send_keys_to_pane("proj", "editor", 2, "top");
    assert_eq!(cmd.args, vec!["send-keys", "-t", "proj:editor.2", "top", "Enter"]);
}

#[test]
fn test_split_window_command_shapes() {
    // A blank command is left out so the shell can initialize first.
    let cmd = TmuxCommand::split_window_horizontal("proj", "editor", "", Some("/tmp"));
    assert_eq!(
        cmd.args,
        vec!["split-window", "-h", "-t", "proj:editor", "-c", "/tmp"]
    );
    let cmd = TmuxCommand::split_window_horizontal("proj", "editor", "  ", None);
    assert_eq!(cmd.args, vec!["split-window", "-h", "-t", "proj:editor"]);
    let cmd = TmuxCommand::split_window_vertical("proj", "", "top", None);
    assert_eq!(cmd.args, vec!["split-window", "-v", "-t", "proj", "top"]);
}

#[test]
fn test_layout_and_lifecycle_command_shapes() {
    let cmd = TmuxCommand::select_layout("proj", "editor", "tiled");
    assert_eq!(cmd.args, vec!["select-layout", "-t", "proj:editor", "tiled"]);
    let cmd = TmuxCommand::rename_window("proj", "1", "main");
    assert_eq!(cmd.args, vec!["rename-window", "-t", "proj:1", "main"]);
    let cmd = TmuxCommand::attach_session("proj");
    assert_eq!(cmd.args, vec!["attach-session", "-t", "proj"]);
    let cmd = TmuxCommand::kill_session("proj");
    assert_eq!(cmd.args, vec!["kill-session", "-t", "proj"]);
    let cmd = TmuxCommand::kill_server();
    assert_eq!(cmd.args, vec!["kill-server"]);
    let cmd = TmuxCommand::list_window_indexes("proj");
    assert_eq!(
        cmd.args,
        vec!["list-windows", "-t", "proj", "-F", "#{window_index}"]
    );
}

#[test]
fn test_full_args_socket_prefix() {
    let cmd = TmuxCommand::session_exists_with_socket("alpha", Some("/tmp/sock"));
    assert_eq!(
        cmd.full_args(),
        vec!["-S", "/tmp/sock", "has-session", "-t", "alpha"]
    );
    let cmd = TmuxCommand::session_exists("alpha");
    assert_eq!(cmd.full_args(), vec!["has-session", "-t", "alpha"]);
}

#[test]
fn test_parse_first_window_index_lines() {
    assert_eq!(parse_first_window_index("0\n1\n2\n"), "0");
    assert_eq!(parse_first_window_index("3"), "3");
    assert_eq!(parse_first_window_index(""), "");
}

#[test]
fn test_session_present_classification() {
    // The existence check reads any failure as "absent", and reads the same
    // outcome the same way every time it is asked.
    let ok: Result<String, TmuxrsError> = Ok(String::new());
    let err: Result<String, TmuxrsError> = Err(TmuxrsError::TmuxError("no server".to_string()));
    assert!(session_present(&ok));
    assert!(!session_present(&err));
    assert_eq!(session_present(&ok), session_present(&ok));
    assert_eq!(session_present(&err), session_present(&err));
}

#[test]
fn test_classify_output() {
    // Exit status 0 yields the captured output; any other exit yields the
    // captured standard-error text verbatim.
    let ok = classify_output(true, "out".to_string(), "err".to_string());
    assert_eq!(ok.unwrap(), "out");
    let err = classify_output(false, "out".to_string(), "can't find session".to_string());
    assert_eq!(
        err.unwrap_err().message(),
        "tmux command failed: can't find session"
    );
}

#[test]
fn test_fixed_error_texts() {
    assert_eq!(
        no_tty_error().message(),
        "tmux command failed: Failed to attach: No TTY available (running in non-interactive environment like Docker)"
    );
    assert_eq!(
        spawn_failed_error("No such file or directory").message(),
        "tmux command failed: Failed to execute tmux: No such file or directory"
    );
    assert_eq!(
        wait_failed_error("interrupted").message(),
        "tmux command failed: Failed to wait for tmux: interrupted"
    );
    assert_eq!(
        interactive_exit_error(1).message(),
        "tmux command failed: tmux command failed with exit code: 1"
    );
    assert_eq!(
        interactive_exit_error(-1).message(),
        "tmux command failed: tmux command failed with exit code: -1"
    );
}
