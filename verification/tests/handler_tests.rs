use myshell::handlers::{
    execute_dir, execute_echo, execute_help, execute_notepad, execute_path, execute_ping,
    execute_tasklist, execute_vol, execute_vol_windows, notepad_program, ping_request,
    tasklist_program, vol_program, EnvState, FsEntry, Platform, ProcOutput, VolStat,
};
use myshell::models::CommandError;

fn io_err() -> std::io::Error {
    std::io::Error::new(std::io::ErrorKind::Other, "boom")
}

#[test]
fn help_lists_the_ten_builtins() {
    let lines = execute_help().unwrap();
    assert_eq!(lines.len(), 11);
    assert_eq!(lines[0], "Available commands:");
    assert_eq!(lines[1], "dir        - Lists the contents of a directory.");
    assert_eq!(lines[5], "tasklist   - Displays a list of currently running processes.");
    assert_eq!(lines[10], "exit       - Exit the Shell");
}

#[test]
fn help_is_idempotent() {
    let first = execute_help().unwrap();
    let second = execute_help().unwrap();
    assert_eq!(first, second);
}

#[test]
fn echo_joins_present_arguments_with_single_spaces() {
    let args = vec![
        Some("a".to_string()),
        None,
        Some("b".to_string()),
        None,
    ];
    assert_eq!(execute_echo(&args).unwrap(), "a b");
}

#[test]
fn echo_of_nothing_is_empty() {
    let args: Vec<Option<String>> = vec![None, None, None, None];
    assert_eq!(execute_echo(&args).unwrap(), "");
}

#[test]
fn echo_of_all_four_arguments() {
    let args = vec![
        Some("one".to_string()),
        Some("two".to_string()),
        Some("three".to_string()),
        Some("four".to_string()),
    ];
    assert_eq!(execute_echo(&args).unwrap(), "one two three four");
}

#[test]
fn path_without_subcommand_reports_the_value() {
    let mut env = EnvState { path: Some("/usr/bin:/bin".to_string()) };
    let msg = execute_path(&None, &None, &mut env).unwrap();
    assert_eq!(msg, "Current PATH: /usr/bin:/bin");
    assert_eq!(env.path.as_deref(), Some("/usr/bin:/bin"));
}

#[test]
fn path_without_subcommand_reports_when_unset() {
    let mut env = EnvState { path: None };
    let msg = execute_path(&None, &None, &mut env).unwrap();
    assert_eq!(msg, "PATH variable is not set.");
}

#[test]
fn path_set_then_display_round_trips() {
    let mut env = EnvState { path: None };
    let sub = Some("set".to_string());
    let value = Some("X".to_string());
    let msg = execute_path(&sub, &value, &mut env).unwrap();
    assert_eq!(msg, "PATH has been set to: X");
    assert_eq!(env.path.as_deref(), Some("X"));
    let report = execute_path(&None, &None, &mut env).unwrap();
    assert_eq!(report, "Current PATH: X");
    assert!(report.contains("X"));
}

#[test]
fn path_set_without_value_is_missing_arguments() {
    let mut env = EnvState { path: Some("keep".to_string()) };
    let sub = Some("set".to_string());
    let r = execute_path(&sub, &None, &mut env);
    assert!(matches!(r, Err(CommandError::MissingArguments(_))));
    assert_eq!(env.path.as_deref(), Some("keep"));
}

#[test]
fn path_unknown_subcommand_is_invalid_argument() {
    let mut env = EnvState { path: Some("keep".to_string()) };
    let sub = Some("bogus".to_string());
    let r = execute_path(&sub, &None, &mut env);
    assert!(matches!(r, Err(CommandError::InvalidArgument(_))));
    assert_eq!(env.path.as_deref(), Some("keep"));
}

#[test]
fn path_clear_empties_the_variable() {
    let mut env = EnvState { path: Some("something".to_string()) };
    let sub = Some("clear".to_string());
    let msg = execute_path(&sub, &None, &mut env).unwrap();
    assert_eq!(msg, "PATH has been cleared.");
    assert_eq!(env.path.as_deref(), Some(""));
}

#[test]
fn dir_lists_entries_with_their_kind() {
    let entries = vec![
        FsEntry { name: "src".to_string(), is_dir: true },
        FsEntry { name: "notes.txt".to_string(), is_dir: false },
    ];
    let lines = execute_dir(Ok(("/home/someone".to_string(), entries))).unwrap();
    assert_eq!(lines.len(), 3);
    assert_eq!(lines[0], "Contents of \"/home/someone\"");
    assert_eq!(lines[1], "\"src\" - Directory");
    assert_eq!(lines[2], "\"notes.txt\" - File");
}

#[test]
fn dir_failure_is_io_error() {
    let r = execute_dir(Err(io_err()));
    assert!(matches!(r, Err(CommandError::IOError(_))));
}

#[test]
fn vol_reports_id_and_exact_free_space() {
    let st = VolStat { fs_id: 42, blocks_free: 3, block_size: 4096 };
    let lines = execute_vol(Ok(st)).unwrap();
    assert_eq!(lines, vec!["Filesystem Type: 42, Available Space: 12288 bytes"]);
}

#[test]
fn vol_free_space_product_does_not_overflow() {
    let st = VolStat { fs_id: 7, blocks_free: u64::MAX, block_size: u64::MAX };
    let lines = execute_vol(Ok(st)).unwrap();
    assert_eq!(
        lines,
        vec!["Filesystem Type: 7, Available Space: 340282366920938463426481119284349108225 bytes"]
    );
}

#[test]
fn vol_failure_is_io_error() {
    let r = execute_vol(Err(io_err()));
    assert!(matches!(r, Err(CommandError::IOError(_))));
}

#[test]
fn vol_windows_prints_raw_output() {
    let out = ProcOutput { success: true, stdout: "Volume in drive C is OS".to_string() };
    let lines = execute_vol_windows(Ok(out)).unwrap();
    assert_eq!(lines, vec!["Volume Info (Windows): Volume in drive C is OS"]);
}

#[test]
fn tasklist_numbers_each_output_line() {
    let out = ProcOutput { success: true, stdout: "  PID COMMAND\n    1 init\n  202 sh\n".to_string() };
    let lines = execute_tasklist(Ok(out)).unwrap();
    assert_eq!(lines, vec!["1:   PID COMMAND", "2:     1 init", "3:   202 sh"]);
}

#[test]
fn tasklist_of_empty_output_prints_nothing() {
    let out = ProcOutput { success: true, stdout: String::new() };
    let lines = execute_tasklist(Ok(out)).unwrap();
    assert!(lines.is_empty());
}

#[test]
fn tasklist_nonzero_exit_is_command_failed() {
    let out = ProcOutput { success: false, stdout: String::new() };
    let r = execute_tasklist(Ok(out));
    match r {
        Err(CommandError::CommandFailed(m)) => {
            assert_eq!(m, "The process list command exited unsuccessfully");
        }
        _ => panic!("expected CommandFailed"),
    }
}

#[test]
fn tasklist_spawn_failure_is_command_failed() {
    let r = execute_tasklist(Err(io_err()));
    match r {
        Err(CommandError::CommandFailed(m)) => {
            assert!(m.starts_with("Failed to run the process list command: "));
        }
        _ => panic!("expected CommandFailed"),
    }
}

#[test]
fn notepad_success_reports_it() {
    let lines = execute_notepad(Ok(())).unwrap();
    assert_eq!(lines, vec!["Notepad opened!"]);
}

#[test]
fn notepad_spawn_failure_is_command_failed() {
    let r = execute_notepad(Err(io_err()));
    match r {
        Err(CommandError::CommandFailed(m)) => {
            assert!(m.starts_with("Failed to open Notepad: "));
        }
        _ => panic!("expected CommandFailed"),
    }
}

#[test]
fn ping_without_address_is_missing_arguments() {
    let r = ping_request(&None, Platform::Linux);
    assert!(matches!(r, Err(CommandError::MissingArguments(_))));
}

#[test]
fn ping_request_uses_the_platform_count_flag() {
    let args = ping_request(&Some("example.com".to_string()), Platform::Linux).unwrap();
    assert_eq!(args, vec!["ping", "-c", "4", "example.com"]);
    let args = ping_request(&Some("example.com".to_string()), Platform::Windows).unwrap();
    assert_eq!(args, vec!["ping", "-n", "4", "example.com"]);
    let args = ping_request(&Some("example.com".to_string()), Platform::MacOs).unwrap();
    assert_eq!(args, vec!["ping", "-c", "4", "example.com"]);
}

#[test]
fn ping_success_prints_the_output() {
    let out = ProcOutput { success: true, stdout: "4 packets transmitted".to_string() };
    let lines = execute_ping("example.com", Ok(out)).unwrap();
    assert_eq!(lines, vec!["4 packets transmitted"]);
}

#[test]
fn ping_nonzero_exit_is_command_failed() {
    let out = ProcOutput { success: false, stdout: String::new() };
    let r = execute_ping("10.255.255.1", Ok(out));
    match r {
        Err(CommandError::CommandFailed(m)) => {
            assert_eq!(m, "Ping to 10.255.255.1 failed");
        }
        _ => panic!("expected CommandFailed"),
    }
}

#[test]
fn ping_spawn_failure_is_command_failed() {
    let r = execute_ping("example.com", Err(io_err()));
    match r {
        Err(CommandError::CommandFailed(m)) => {
            assert!(m.starts_with("Failed to execute ping: "));
        }
        _ => panic!("expected CommandFailed"),
    }
}

#[test]
fn platform_tables_name_the_right_tools() {
    assert_eq!(tasklist_program(Platform::Windows), vec!["tasklist"]);
    assert_eq!(tasklist_program(Platform::Linux), vec!["ps", "-e", "-o", "pid,comm"]);
    assert_eq!(tasklist_program(Platform::MacOs), vec!["ps", "-e", "-o", "pid,comm"]);
    assert_eq!(notepad_program(Platform::Windows), vec!["notepad.exe"]);
    assert_eq!(notepad_program(Platform::MacOs), vec!["open", "-a", "TextEdit"]);
    assert_eq!(notepad_program(Platform::Linux), vec!["gedit"]);
    assert_eq!(vol_program(), vec!["cmd", "/C", "vol"]);
}

#[test]
fn error_messages_render_with_their_prefix() {
    let m = CommandError::NotFound("Command not found\n".to_string()).message();
    assert_eq!(m, "Command not found Command not found\n");
    let m = CommandError::InvalidArgument("x".to_string()).message();
    assert_eq!(m, "Invalid argument(s) x");
    let m = CommandError::MissingArguments("x".to_string()).message();
    assert_eq!(m, "Missing argument(s) x");
    let m = CommandError::TooManyArguments("x".to_string()).message();
    assert_eq!(m, "Too many arguments x");
    let m = CommandError::CommandFailed("x".to_string()).message();
    assert_eq!(m, "Command failed x");
    let m = CommandError::IOError(io_err()).message();
    assert!(m.starts_with("I/O error "));
    assert!(m.contains("boom"));
}
