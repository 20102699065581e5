use myshell::dispatch::{execute_checked, os_request, OsRequest, OsResponse};
use myshell::handlers::{EnvState, FsEntry, Platform, ProcOutput, VolStat};
use myshell::models::{Command, CommandError};
use myshell::parser::parse_command;

fn fresh_env() -> EnvState {
    EnvState { path: None }
}

#[test]
fn requests_match_each_command() {
    assert!(matches!(os_request(&Command::Dir, Platform::Linux), OsRequest::ListCurrentDir));
    assert!(matches!(os_request(&Command::Vol, Platform::Linux), OsRequest::StatCurrentDir));
    assert!(matches!(os_request(&Command::Help, Platform::Linux), OsRequest::Nothing));
    assert!(matches!(os_request(&Command::Exit, Platform::Linux), OsRequest::Nothing));
    match os_request(&Command::Vol, Platform::Windows) {
        OsRequest::RunProgram(args) => assert_eq!(args, ["cmd", "/C", "vol"]),
        _ => panic!("expected RunProgram"),
    }
    match os_request(&Command::TaskList, Platform::Linux) {
        OsRequest::RunProgram(args) => assert_eq!(args, ["ps", "-e", "-o", "pid,comm"]),
        _ => panic!("expected RunProgram"),
    }
    match os_request(&Command::Notepad, Platform::Linux) {
        OsRequest::SpawnProgram(args) => assert_eq!(args, ["gedit"]),
        _ => panic!("expected SpawnProgram"),
    }
    match os_request(&Command::Ping(Some("host".to_string())), Platform::Linux) {
        OsRequest::RunProgram(args) => assert_eq!(args, ["ping", "-c", "4", "host"]),
        _ => panic!("expected RunProgram"),
    }
    assert!(matches!(
        os_request(&Command::Ping(None), Platform::Linux),
        OsRequest::Nothing
    ));
}

#[test]
fn dispatched_echo_prints_one_line() {
    let mut env = fresh_env();
    let cmd = parse_command("echo a b");
    let r = execute_checked(cmd, &mut env, Platform::Linux, OsResponse::Nothing);
    assert_eq!(r.lines, ["a b"]);
    assert!(r.steps.is_empty());
    assert!(r.error.is_none());
}

#[test]
fn dispatched_help_prints_the_table() {
    let mut env = fresh_env();
    let r = execute_checked(Command::Help, &mut env, Platform::Linux, OsResponse::Nothing);
    assert_eq!(r.lines.len(), 11);
    assert_eq!(r.lines[0], "Available commands:");
    assert!(r.error.is_none());
}

#[test]
fn dispatched_dir_formats_the_listing() {
    let mut env = fresh_env();
    let listing = Ok((
        "/tmp".to_string(),
        vec![FsEntry { name: "a".to_string(), is_dir: false }],
    ));
    let r = execute_checked(
        Command::Dir,
        &mut env,
        Platform::Linux,
        OsResponse::DirListing(listing),
    );
    assert_eq!(r.lines, ["Contents of \"/tmp\"", "\"a\" - File"]);
    assert!(r.error.is_none());
}

#[test]
fn dispatched_vol_formats_the_statistics() {
    let mut env = fresh_env();
    let st = VolStat { fs_id: 5, blocks_free: 10, block_size: 512 };
    let r = execute_checked(
        Command::Vol,
        &mut env,
        Platform::Linux,
        OsResponse::VolInfo(Ok(st)),
    );
    assert_eq!(r.lines, ["Filesystem Type: 5, Available Space: 5120 bytes"]);
    assert!(r.error.is_none());
}

#[test]
fn dispatched_path_set_updates_the_environment() {
    let mut env = fresh_env();
    let cmd = parse_command("path set /opt/bin");
    let r = execute_checked(cmd, &mut env, Platform::Linux, OsResponse::Nothing);
    assert_eq!(r.lines, ["PATH has been set to: /opt/bin"]);
    assert!(r.error.is_none());
    assert_eq!(env.path.as_deref(), Some("/opt/bin"));
}

#[test]
fn dispatched_ping_failure_maps_to_command_failed() {
    let mut env = fresh_env();
    let cmd = Command::Ping(Some("10.255.255.1".to_string()));
    let out = ProcOutput { success: false, stdout: String::new() };
    let r = execute_checked(
        cmd,
        &mut env,
        Platform::Linux,
        OsResponse::ProcResult(Ok(out)),
    );
    assert!(r.lines.is_empty());
    match r.error {
        Some(CommandError::CommandFailed(m)) => assert_eq!(m, "Ping to 10.255.255.1 failed"),
        _ => panic!("expected CommandFailed"),
    }
}

#[test]
fn dispatched_exit_and_unknown_are_not_found() {
    let mut env = fresh_env();
    let r = execute_checked(Command::Exit, &mut env, Platform::Linux, OsResponse::Nothing);
    match r.error {
        Some(CommandError::NotFound(m)) => assert_eq!(m, "Command not found\n"),
        _ => panic!("expected NotFound"),
    }
    let r = execute_checked(Command::Unknown, &mut env, Platform::Linux, OsResponse::Nothing);
    assert!(matches!(r.error, Some(CommandError::NotFound(_))));
}

#[test]
fn dispatched_tasklist_numbers_lines() {
    let mut env = fresh_env();
    let out = ProcOutput { success: true, stdout: "x\ny\n".to_string() };
    let r = execute_checked(
        Command::TaskList,
        &mut env,
        Platform::Linux,
        OsResponse::ProcResult(Ok(out)),
    );
    assert_eq!(r.lines, ["1: x", "2: y"]);
    assert!(r.error.is_none());
}

#[test]
fn only_path_changes_the_environment() {
    let mut env = EnvState { path: Some("before".to_string()) };
    let cmd = parse_command("echo hello");
    let _ = execute_checked(cmd, &mut env, Platform::Linux, OsResponse::Nothing);
    assert_eq!(env.path.as_deref(), Some("before"));
    let r = execute_checked(
        Command::Help,
        &mut env,
        Platform::Linux,
        OsResponse::Nothing,
    );
    assert!(r.error.is_none());
    assert_eq!(env.path.as_deref(), Some("before"));
}
