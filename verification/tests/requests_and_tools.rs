use std::sync::Arc;

use rmcp::model::{JsonObject, Tool, ToolAnnotations};

use secret_handoff::allowlist::{
    check_allowlist_size, check_operation, check_read_size, select_operation, Operation,
    MAX_OPERATIONS, MAX_OPERATION_ARGS, MAX_OPERATION_FILE_BYTES,
};
use secret_handoff::environment::{
    check_state_dir, choose_directory, config_file_suffix, fixed_search_path,
    safe_local_environment, state_dir_found, state_dir_suffix, DirectoryChoice, PathProbe,
};
use secret_handoff::framing::BoundedLineReader;
use secret_handoff::requests::{
    capture_request, check_argument_size, failed_worker, invalid_arguments, parse_cli,
    reconciles_first, takes_work_slot, tool_catalog, tool_kind, CliRequest, ToolKind,
    DEFAULT_TTL_SECONDS, MAX_TOOL_ARGUMENT_BYTES,
};
use secret_handoff::textmap::TextMap;

fn line(words: &[&str]) -> Vec<String> {
    let mut args = vec!["codex-secret-handoff-mcp".to_owned()];
    args.extend(words.iter().map(|word| word.to_string()));
    args
}

fn refused(words: &[&str]) -> String {
    parse_cli(&line(words)).err().expect("refused")
}

#[test]
fn catalog_has_redacted_tool_contracts() {
    let catalog = tool_catalog()
        .into_iter()
        .map(|tool| {
            Tool::new(tool.name, tool.description, Arc::new(JsonObject::new())).with_annotations(
                ToolAnnotations::from_raw(
                    None,
                    Some(tool.read_only),
                    Some(tool.destructive),
                    Some(tool.idempotent),
                    Some(tool.open_world),
                ),
            )
        })
        .collect::<Vec<_>>();
    let rendered = serde_json::to_string(&catalog).expect("catalog JSON");
    assert!(rendered.contains("secret_handoff_capture"));
    assert!(rendered.contains("destructiveHint"));
    assert!(!rendered.contains("secret_value"));
    assert!(!rendered.contains("plaintext"));
}

#[test]
fn listed_tools_are_found_and_annotated() {
    let catalog = tool_catalog();
    let kinds = [ToolKind::Capture, ToolKind::Status, ToolKind::Delete, ToolKind::Run];
    assert_eq!(catalog.len(), 4);
    for (tool, kind) in catalog.iter().zip(kinds) {
        assert_eq!(tool.kind, kind);
        assert_eq!(tool_kind(&tool.name), Some(kind));
        assert_eq!(tool.read_only, kind == ToolKind::Status);
        assert_eq!(tool.destructive, matches!(kind, ToolKind::Delete | ToolKind::Run));
        assert_eq!(tool.idempotent, matches!(kind, ToolKind::Status | ToolKind::Delete));
        assert_eq!(tool.open_world, kind == ToolKind::Run);
        assert_eq!(reconciles_first(kind), kind != ToolKind::Status);
        assert_eq!(
            takes_work_slot(Some(kind)),
            matches!(kind, ToolKind::Capture | ToolKind::Run)
        );
    }
    assert_eq!(tool_kind("secret_handoff_reveal"), None);
    assert!(!takes_work_slot(None));
    assert_eq!(
        invalid_arguments(ToolKind::Delete),
        "invalid delete arguments; check documented field names and types"
    );
    assert_eq!(failed_worker(ToolKind::Run), "run worker failed");
    assert!(check_argument_size(MAX_TOOL_ARGUMENT_BYTES).is_ok());
    assert_eq!(
        check_argument_size(MAX_TOOL_ARGUMENT_BYTES + 1).err().as_deref(),
        Some("tool arguments exceed the configured limit")
    );
}

#[test]
fn single_use_is_the_default() {
    let request = capture_request("github".into(), "publish".into(), None, None);
    assert!(request.single_use);
    assert_eq!(request.ttl_seconds, DEFAULT_TTL_SECONDS);
    let request = capture_request("github".into(), "publish".into(), Some(5), Some(false));
    assert!(!request.single_use);
    assert_eq!(request.ttl_seconds, 5);
    match parse_cli(&line(&["capture", "--target", "github", "--label", "publish"])) {
        Ok(CliRequest::Capture(request)) => {
            assert_eq!(request.target, "github");
            assert_eq!(request.label, "publish");
            assert_eq!(request.ttl_seconds, 900);
            assert!(request.single_use);
        }
        other => panic!("unexpected request: {other:?}"),
    }
    let words = ["capture", "--reusable", "--label", "x", "--ttl-seconds", "+60", "--target", "y"];
    match parse_cli(&line(&words)) {
        Ok(CliRequest::Capture(request)) => {
            assert_eq!(request.ttl_seconds, 60);
            assert!(!request.single_use);
        }
        other => panic!("unexpected request: {other:?}"),
    }
}

#[test]
fn commands_are_recognized() {
    assert!(matches!(parse_cli(&Vec::new()), Ok(CliRequest::Serve)));
    assert!(matches!(parse_cli(&line(&[])), Ok(CliRequest::Serve)));
    assert!(matches!(parse_cli(&line(&["serve", "rest"])), Ok(CliRequest::Serve)));
    assert!(matches!(parse_cli(&line(&["status"])), Ok(CliRequest::Status { wanted: None })));
    match parse_cli(&line(&["status", "sh_1"])) {
        Ok(CliRequest::Status { wanted }) => assert_eq!(wanted.as_deref(), Some("sh_1")),
        other => panic!("unexpected request: {other:?}"),
    }
    match parse_cli(&line(&["delete", "sh_2"])) {
        Ok(CliRequest::Delete { handle }) => assert_eq!(handle, "sh_2"),
        other => panic!("unexpected request: {other:?}"),
    }
    match parse_cli(&line(&["run", "--operation", "publish", "--handle", "sh_3"])) {
        Ok(CliRequest::Run { handle, operation }) => {
            assert_eq!(handle, "sh_3");
            assert_eq!(operation, "publish");
        }
        other => panic!("unexpected request: {other:?}"),
    }
}

#[test]
fn incomplete_commands_are_refused() {
    assert_eq!(refused(&["reveal"]), "commands: serve, capture, status, delete, run");
    assert_eq!(refused(&["delete"]), "handle is required");
    assert_eq!(refused(&["run", "--operation", "x"]), "handle is required");
    assert_eq!(refused(&["run", "--handle", "x"]), "operation is required");
    assert_eq!(refused(&["run", "--operation", "x", "--handle"]), "handle is required");
    assert_eq!(refused(&["run", "--handle", "x", "--operation"]), "operation is required");
    assert_eq!(refused(&["capture"]), "target is required");
    assert_eq!(refused(&["capture", "--target", "x"]), "label is required");
    assert_eq!(refused(&["capture", "--label", "x", "--target"]), "target is required");
    assert_eq!(refused(&["capture", "--ttl-seconds"]), "ttl_seconds is required");
    assert_eq!(refused(&["capture", "--ttl-seconds", "-1"]), "ttl_seconds must be an integer");
    assert_eq!(
        refused(&["capture", "--ttl-seconds", "18446744073709551616"]),
        "ttl_seconds must be an integer"
    );
    assert_eq!(refused(&["capture", "--secret", "x"]), "unknown capture argument");
}

fn operation(command: &str, args: &[&str], secret_env: &str) -> Operation {
    Operation {
        command: command.to_owned(),
        args: args.iter().map(|arg| arg.to_string()).collect(),
        secret_env: secret_env.to_owned(),
    }
}

#[test]
fn only_listed_operations_run() {
    let mut operations = TextMap::new();
    operations
        .insert("github-publish".into(), operation("/usr/bin/gh", &["api", "user"], "GH_TOKEN"));
    operations.insert("relative".into(), operation("gh", &[], "GH_TOKEN"));
    let found = select_operation(&operations, "github-publish").expect("listed");
    assert_eq!(found.command, "/usr/bin/gh");
    assert_eq!(found.args, vec!["api".to_owned(), "user".to_owned()]);
    assert_eq!(found.secret_env, "GH_TOKEN");
    assert_eq!(
        select_operation(&operations, "other").err().as_deref(),
        Some("operation is not allowlisted")
    );
    assert_eq!(
        select_operation(&operations, "relative").err().as_deref(),
        Some("operation allowlist entry is invalid")
    );
    for index in 0..MAX_OPERATIONS {
        operations.insert(format!("op{index}"), operation("/bin/true", &[], "TOKEN"));
    }
    assert_eq!(
        select_operation(&operations, "github-publish").err().as_deref(),
        Some("operation allowlist exceeds the configured entry limit")
    );
}

#[test]
fn operations_are_checked_in_full() {
    let invalid = Some("operation allowlist entry is invalid");
    let check = |operation: Operation| check_operation(&operation).err();
    assert_eq!(check(operation("/bin/true", &["-x", "ä"], "_A9")), None);
    let reserved = ["PATH", "LD_PRELOAD", "LD_LIBRARY_PATH", "BASH_ENV", "ENV"];
    for name in ["", "9A", "A-B", "Ä"].into_iter().chain(reserved) {
        assert_eq!(check(operation("/bin/true", &[], name)).as_deref(), invalid, "{name}");
    }
    assert_eq!(check(operation("/bin/true", &[], "PYTHONINSPECT")).as_deref(), invalid);
    assert_eq!(check(operation("/bin/true", &[], &"A".repeat(128))), None);
    assert_eq!(check(operation("/bin/true", &[], &"A".repeat(129))).as_deref(), invalid);
    assert_eq!(check(operation("/bin/true", &["a\nb"], "A")).as_deref(), invalid);
    assert_eq!(check(operation("/bin/true", &[&"a".repeat(4096)], "A")), None);
    assert_eq!(check(operation("/bin/true", &[&"a".repeat(4097)], "A")).as_deref(), invalid);
    let many = vec!["a"; MAX_OPERATION_ARGS + 1];
    assert_eq!(
        check(operation("/bin/true", &many, "A")).as_deref(),
        Some("operation allowlist entry has too many arguments")
    );
    assert!(check_allowlist_size(MAX_OPERATION_FILE_BYTES).is_ok());
    assert_eq!(
        check_allowlist_size(MAX_OPERATION_FILE_BYTES + 1).err().as_deref(),
        Some("operation allowlist exceeds the configured limit")
    );
    assert!(check_read_size(7, 7).is_ok());
    assert_eq!(
        check_read_size(8, 7).err().as_deref(),
        Some("secure file exceeds the configured limit")
    );
}

#[test]
fn only_long_lines_are_refused() {
    let mut reader = BoundedLineReader::new(4);
    assert!(reader.accept(b"abcd\nab").is_ok());
    assert_eq!(reader.line_length, 2);
    assert!(reader.accept(b"cd").is_ok());
    assert!(reader.accept(b"").is_ok());
    assert_eq!(
        reader.accept(b"e\n").err().as_deref(),
        Some("MCP frame exceeds the configured limit")
    );
    assert!(reader.rejected);
    assert!(reader.accept(b"\n").is_err());
    let mut empty = BoundedLineReader::new(0);
    assert!(empty.accept(b"\n\n").is_ok());
    assert!(empty.accept(b"x").is_err());
}

#[test]
fn directories_are_chosen_by_the_most_particular_variable() {
    assert_eq!(choose_directory(Some("/a"), Some("/b")), DirectoryChoice::Own);
    assert_eq!(choose_directory(Some(" \t"), Some("/b")), DirectoryChoice::Shared);
    assert_eq!(choose_directory(None, Some("")), DirectoryChoice::Home);
    assert_eq!(state_dir_suffix(DirectoryChoice::Own), "");
    assert_eq!(state_dir_suffix(DirectoryChoice::Home), ".local/state/codex-secret-handoff");
    assert_eq!(
        config_file_suffix(DirectoryChoice::Shared),
        "codex-secret-handoff/operations.json"
    );
    assert!(check_state_dir("/home/me/.local/state").is_ok());
    for path in ["", "state", "./state"] {
        assert_eq!(
            check_state_dir(path),
            Err("state directory must be an absolute path".to_owned()),
            "{path}"
        );
    }
    assert_eq!(state_dir_found(PathProbe::Present, true), Ok(true));
    assert_eq!(state_dir_found(PathProbe::Missing, true), Ok(false));
    assert_eq!(
        state_dir_found(PathProbe::Missing, false).err().as_deref(),
        Some("state directory has no valid name")
    );
    assert_eq!(
        state_dir_found(PathProbe::Symlink, true).err().as_deref(),
        Some("state directory cannot contain symlink components")
    );
    assert_eq!(
        state_dir_found(PathProbe::Unreadable, true).err().as_deref(),
        Some("state directory cannot be inspected")
    );
}

#[test]
fn helpers_inherit_a_minimal_environment() {
    let names = safe_local_environment();
    assert_eq!(names.len(), 9);
    assert!(names.contains(&"DISPLAY".to_owned()));
    assert!(names.contains(&"DBUS_SESSION_BUS_ADDRESS".to_owned()));
    assert!(!names.contains(&"PATH".to_owned()));
    assert!(!names.contains(&"HOME".to_owned()));
    assert_eq!(fixed_search_path(), "/usr/bin:/bin");
}
