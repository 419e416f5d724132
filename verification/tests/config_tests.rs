use tmuxrs::config::{Config, PaneCommands, PaneConfig, WindowConfig, WindowLayout};

#[test]
fn test_parse_empty_pane_as_empty_string() {
    let yaml_content = r#"
layout: main-vertical
panes:
  - vim
  - ""
  - top
"#;

    let layout_config = WindowLayout::parse_str(yaml_content).unwrap();
    assert_eq!(layout_config.panes.len(), 3);

    // Second pane should be empty string
    match &layout_config.panes[1] {
        PaneConfig::Simple(cmd) if cmd.is_empty() => {} // Expected
        _ => panic!("Expected empty string pane config for empty string"),
    }
}

#[test]
fn test_parse_empty_pane_as_null() {
    let yaml_content = r#"
layout: main-vertical
panes:
  - vim
  - ~
  - top
"#;

    let layout_config = WindowLayout::parse_str(yaml_content).unwrap();
    assert_eq!(layout_config.panes.len(), 3);

    // Second pane should be null
    match &layout_config.panes[1] {
        PaneConfig::Null => {} // Expected
        _ => panic!("Expected null pane config for null value"),
    }
}

#[test]
fn test_parse_named_pane_single_command() {
    let yaml_content = r#"
layout: main-vertical
panes:
  - editor: vim
  - console: bash
"#;

    let layout_config = WindowLayout::parse_str(yaml_content).unwrap();
    assert_eq!(layout_config.panes.len(), 2);

    // First pane should be named "editor" with command "vim"
    match &layout_config.panes[0] {
        PaneConfig::Named { name, value } => {
            assert_eq!(name, "editor");
            if let PaneCommands::One(cmd) = value {
                assert_eq!(cmd, "vim");
            } else {
                panic!("Expected string command");
            }
        }
        _ => panic!("Expected named pane config"),
    }
}

#[test]
fn test_parse_named_pane_empty_command() {
    let yaml_content = r#"
layout: main-vertical
panes:
  - editor: vim
  - console: ""
"#;

    let layout_config = WindowLayout::parse_str(yaml_content).unwrap();
    assert_eq!(layout_config.panes.len(), 2);

    // Second pane should be named "console" with empty command
    match &layout_config.panes[1] {
        PaneConfig::Named { name, value } => {
            assert_eq!(name, "console");
            if let PaneCommands::One(cmd) = value {
                assert_eq!(cmd, "");
            } else {
                panic!("Expected string command");
            }
        }
        _ => panic!("Expected named pane config with empty command"),
    }
}

#[test]
fn test_parse_multiple_commands_array() {
    let yaml_content = r#"
layout: main-vertical
panes:
  - vim
  - [cd frontend, npm start]
"#;

    let layout_config = WindowLayout::parse_str(yaml_content).unwrap();
    assert_eq!(layout_config.panes.len(), 2);

    // Second pane should be multiple commands
    match &layout_config.panes[1] {
        PaneConfig::Multiple(commands) => {
            assert_eq!(commands.len(), 2);
            assert_eq!(commands[0], "cd frontend");
            assert_eq!(commands[1], "npm start");
        }
        _ => panic!("Expected multiple commands pane config"),
    }
}

#[test]
fn test_parse_named_pane_multiple_commands() {
    let yaml_content = r#"
layout: main-vertical
panes:
  - editor: vim
  - server: [cd backend, rails server]
"#;

    let layout_config = WindowLayout::parse_str(yaml_content).unwrap();
    assert_eq!(layout_config.panes.len(), 2);

    // Second pane should be named with multiple commands
    match &layout_config.panes[1] {
        PaneConfig::Named { name, value } => {
            assert_eq!(name, "server");
            if let PaneCommands::Many(commands) = value {
                assert_eq!(commands.len(), 2);
                assert_eq!(commands[0], "cd backend");
                assert_eq!(commands[1], "rails server");
            } else {
                panic!("Expected sequence of commands");
            }
        }
        _ => panic!("Expected named multiple commands pane config"),
    }
}

#[test]
fn test_backward_compatibility_simple_strings() {
    let yaml_content = r#"
layout: main-vertical
panes:
  - vim
  - npm start
  - top
"#;

    let layout_config = WindowLayout::parse_str(yaml_content).unwrap();
    assert_eq!(layout_config.panes.len(), 3);

    // All panes should parse as simple commands (backward compatibility)
    match &layout_config.panes[0] {
        PaneConfig::Simple(cmd) => assert_eq!(cmd, "vim"),
        _ => panic!("Expected simple pane config for backward compatibility"),
    }

    match &layout_config.panes[1] {
        PaneConfig::Simple(cmd) => assert_eq!(cmd, "npm start"),
        _ => panic!("Expected simple pane config for backward compatibility"),
    }

    match &layout_config.panes[2] {
        PaneConfig::Simple(cmd) => assert_eq!(cmd, "top"),
        _ => panic!("Expected simple pane config for backward compatibility"),
    }
}

#[test]
fn test_pane_config_commands_simple() {
    let pane = PaneConfig::Simple("vim".to_string());
    assert_eq!(pane.commands(), vec!["vim"]);

    let empty_pane = PaneConfig::Simple("".to_string());
    assert_eq!(empty_pane.commands(), Vec::<String>::new());
}

#[test]
fn test_pane_config_commands_multiple() {
    let pane = PaneConfig::Multiple(vec!["cd frontend".to_string(), "npm start".to_string()]);
    assert_eq!(pane.commands(), vec!["cd frontend", "npm start"]);
}

#[test]
fn test_pane_config_commands_null() {
    let pane = PaneConfig::Null;
    assert_eq!(pane.commands(), Vec::<String>::new());
}

#[test]
fn test_pane_config_commands_named_single() {
    let pane = PaneConfig::Named {
        name: "editor".to_string(),
        value: PaneCommands::One("vim".to_string()),
    };

    assert_eq!(pane.commands(), vec!["vim"]);
    assert_eq!(pane.name(), Some("editor".to_string()));
}

#[test]
fn test_pane_config_commands_named_multiple() {
    let pane = PaneConfig::Named {
        name: "server".to_string(),
        value: PaneCommands::Many(vec!["cd backend".to_string(), "rails server".to_string()]),
    };

    assert_eq!(pane.commands(), vec!["cd backend", "rails server"]);
    assert_eq!(pane.name(), Some("server".to_string()));
}

#[test]
fn test_pane_config_is_empty() {
    assert!(PaneConfig::Simple("".to_string()).is_empty());
    assert!(PaneConfig::Null.is_empty());
    assert!(!PaneConfig::Simple("vim".to_string()).is_empty());
    assert!(!PaneConfig::Multiple(vec!["test".to_string()]).is_empty());
}

#[test]
fn test_pane_config_blank_commands() {
    // Whitespace-only commands run nothing, like empty ones.
    assert!(PaneConfig::Simple("  ".to_string()).is_empty());
    assert_eq!(PaneConfig::Simple("  ".to_string()).commands(), Vec::<String>::new());
    let named_blank = PaneConfig::Named {
        name: "idle".to_string(),
        value: PaneCommands::One("   ".to_string()),
    };
    assert!(named_blank.is_empty());
    assert_eq!(named_blank.name(), Some("idle".to_string()));
    assert_eq!(PaneConfig::Simple("vim".to_string()).name(), None);
}

#[test]
fn test_parse_whole_document() {
    let yaml_content = r#"
name: test-session
root: ~/projects/test
windows:
  - editor: vim
  - server: rails server
"#;

    let config = Config::parse_str(yaml_content).unwrap();
    assert_eq!(config.name, "test-session");
    assert_eq!(config.root, Some("~/projects/test".to_string()));
    assert_eq!(config.windows.len(), 2);
    match &config.windows[0] {
        WindowConfig::Complex { name, command } => {
            assert_eq!(name, "editor");
            assert_eq!(command, "vim");
        }
        _ => panic!("Expected named window"),
    }
}

#[test]
fn test_parse_document_shapes() {
    // Shape priority: a scalar is a bare command, a single-entry mapping a
    // named window, and a mapping under the name a layout window.
    let yaml_content = r#"
name: mixed
windows:
  - echo hi
  - editor: vim
  - main:
      layout: tiled
      panes:
        - vim
        - top
"#;
    let config = Config::parse_str(yaml_content).unwrap();
    assert_eq!(config.name, "mixed");
    assert_eq!(config.root, None);
    assert_eq!(config.windows.len(), 3);
    assert!(matches!(&config.windows[0], WindowConfig::Simple(c) if c == "echo hi"));
    match &config.windows[2] {
        WindowConfig::WithLayout { name, layout } => {
            assert_eq!(name, "main");
            assert_eq!(layout.layout, Some("tiled".to_string()));
            assert_eq!(layout.panes.len(), 2);
        }
        _ => panic!("Expected layout window"),
    }
}

#[test]
fn test_parse_invalid_document_is_refused() {
    // Not YAML at all.
    assert!(Config::parse_str("invalid yaml content {{{").is_err());
    // Missing required entries.
    assert!(Config::parse_str("name: x").is_err());
    assert!(Config::parse_str("windows:\n  - echo hi").is_err());
    // A window of the wrong shape.
    assert!(Config::parse_str("name: x\nwindows:\n  - 17").is_err());
}

#[test]
fn test_layout_panes_round_trip() {
    // Parsing a layout window with panes [vim, "", top] yields three panes:
    // a bare vim command, a pane that runs nothing, and a bare top command,
    // in that order.
    let yaml_content = r#"
layout: main-vertical
panes:
  - vim
  - ""
  - top
"#;
    let layout = WindowLayout::parse_str(yaml_content).unwrap();
    assert_eq!(layout.panes.len(), 3);
    assert!(matches!(&layout.panes[0], PaneConfig::Simple(c) if c == "vim"));
    assert!(layout.panes[1].commands().is_empty());
    assert!(matches!(&layout.panes[2], PaneConfig::Simple(c) if c == "top"));
}

#[test]
fn test_detect_session_name() {
    let cases = ["web-app", "my-project", "tmuxrs", "backend-api", "123-numbers"];
    for dir_name in cases {
        let path = format!("/tmp/{dir_name}");
        let detected = Config::detect_session_name(&path).unwrap();
        assert_eq!(detected, dir_name, "Failed to detect session name for directory: {dir_name}");
    }
    // Trailing separators are ignored.
    assert_eq!(Config::detect_session_name("/tmp/proj/").unwrap(), "proj");
    assert_eq!(Config::detect_session_name("plain").unwrap(), "plain");
    // A trailing `.` component is transparent, as the final path component
    // is read.
    assert_eq!(Config::detect_session_name("/tmp/proj/.").unwrap(), "proj");
    assert_eq!(Config::detect_session_name("/tmp/proj/.//.").unwrap(), "proj");
    // No base name at all: empty, separators only, or a trailing `..`.
    assert!(Config::detect_session_name("").is_err());
    assert!(Config::detect_session_name("///").is_err());
    assert!(Config::detect_session_name("/tmp/proj/..").is_err());
    assert!(Config::detect_session_name(".").is_err());
    assert!(Config::detect_session_name("..").is_err());
    // Dots inside a component are ordinary characters.
    assert_eq!(Config::detect_session_name("/tmp/my.project").unwrap(), "my.project");
    assert_eq!(Config::detect_session_name("/tmp/...").unwrap(), "...");
}

#[test]
fn test_get_config_file_path() {
    let config_path = Config::get_config_file_path("test-session").unwrap();

    // Should be ~/.config/tmuxrs/test-session.yml
    assert!(config_path.contains(".config/tmuxrs"));
    assert!(config_path.ends_with("test-session.yml"));
}

#[test]
fn test_has_yaml_extension() {
    assert!(tmuxrs::config::has_yaml_extension("project1.yml"));
    assert!(tmuxrs::config::has_yaml_extension("project2.yaml"));
    assert!(!tmuxrs::config::has_yaml_extension("readme.txt"));
    assert!(!tmuxrs::config::has_yaml_extension(".yml"));
    assert!(!tmuxrs::config::has_yaml_extension("yml"));
}
