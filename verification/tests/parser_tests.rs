use myshell::models::Command;
use myshell::parser::parse_command;

#[test]
fn empty_line_is_unknown() {
    assert!(matches!(parse_command(""), Command::Unknown));
}

#[test]
fn whitespace_only_is_unknown() {
    assert!(matches!(parse_command("   "), Command::Unknown));
    assert!(matches!(parse_command(" \t  \r\n"), Command::Unknown));
    assert!(matches!(parse_command("\t"), Command::Unknown));
}

#[test]
fn unknown_verb_is_unknown() {
    assert!(matches!(parse_command("frobnicate"), Command::Unknown));
    assert!(matches!(parse_command("list"), Command::Unknown));
}

#[test]
fn exit_aliases_all_parse_to_exit() {
    assert!(matches!(parse_command("exit"), Command::Exit));
    assert!(matches!(parse_command("quit"), Command::Exit));
    assert!(matches!(parse_command("q"), Command::Exit));
}

#[test]
fn verb_matching_is_case_sensitive() {
    assert!(matches!(parse_command("Exit"), Command::Unknown));
    assert!(matches!(parse_command("EXIT"), Command::Unknown));
    assert!(matches!(parse_command("Dir"), Command::Unknown));
    assert!(matches!(parse_command("Help"), Command::Unknown));
}

#[test]
fn simple_verbs_parse() {
    assert!(matches!(parse_command("dir"), Command::Dir));
    assert!(matches!(parse_command("help"), Command::Help));
    assert!(matches!(parse_command("vol"), Command::Vol));
    assert!(matches!(parse_command("tasklist"), Command::TaskList));
    assert!(matches!(parse_command("notepad"), Command::Notepad));
}

#[test]
fn dir_ignores_extra_tokens() {
    assert!(matches!(parse_command("dir a b c d e"), Command::Dir));
}

#[test]
fn echo_collects_up_to_four_arguments() {
    match parse_command("echo a b c d") {
        Command::Echo(a1, a2, a3, a4) => {
            assert_eq!(a1.as_deref(), Some("a"));
            assert_eq!(a2.as_deref(), Some("b"));
            assert_eq!(a3.as_deref(), Some("c"));
            assert_eq!(a4.as_deref(), Some("d"));
        }
        _ => panic!("expected Echo"),
    }
}

#[test]
fn echo_sees_only_the_first_four_arguments() {
    match parse_command("echo a b c d e f") {
        Command::Echo(a1, a2, a3, a4) => {
            assert_eq!(a1.as_deref(), Some("a"));
            assert_eq!(a2.as_deref(), Some("b"));
            assert_eq!(a3.as_deref(), Some("c"));
            assert_eq!(a4.as_deref(), Some("d"));
        }
        _ => panic!("expected Echo"),
    }
}

#[test]
fn missing_positions_are_absent_not_empty() {
    match parse_command("echo a") {
        Command::Echo(a1, a2, a3, a4) => {
            assert_eq!(a1.as_deref(), Some("a"));
            assert!(a2.is_none());
            assert!(a3.is_none());
            assert!(a4.is_none());
        }
        _ => panic!("expected Echo"),
    }
    match parse_command("path") {
        Command::Path(a1, a2) => {
            assert!(a1.is_none());
            assert!(a2.is_none());
        }
        _ => panic!("expected Path"),
    }
    match parse_command("ping") {
        Command::Ping(a) => assert!(a.is_none()),
        _ => panic!("expected Ping"),
    }
    match parse_command("color") {
        Command::Color(a) => assert!(a.is_none()),
        _ => panic!("expected Color"),
    }
}

#[test]
fn path_takes_subcommand_and_value() {
    match parse_command("path set /usr/bin") {
        Command::Path(a1, a2) => {
            assert_eq!(a1.as_deref(), Some("set"));
            assert_eq!(a2.as_deref(), Some("/usr/bin"));
        }
        _ => panic!("expected Path"),
    }
}

#[test]
fn ping_takes_one_address() {
    match parse_command("ping 127.0.0.1") {
        Command::Ping(a) => assert_eq!(a.as_deref(), Some("127.0.0.1")),
        _ => panic!("expected Ping"),
    }
}

#[test]
fn color_captures_the_whole_remainder() {
    match parse_command("color text=red background=blue") {
        Command::Color(a) => assert_eq!(a.as_deref(), Some("text=red background=blue")),
        _ => panic!("expected Color"),
    }
}

#[test]
fn color_remainder_is_whitespace_normalized() {
    match parse_command("  color   text=red \t background=blue  ") {
        Command::Color(a) => assert_eq!(a.as_deref(), Some("text=red background=blue")),
        _ => panic!("expected Color"),
    }
}

#[test]
fn leading_and_trailing_whitespace_is_ignored() {
    assert!(matches!(parse_command("  exit  "), Command::Exit));
    match parse_command("\techo  hi\t") {
        Command::Echo(a1, a2, _, _) => {
            assert_eq!(a1.as_deref(), Some("hi"));
            assert!(a2.is_none());
        }
        _ => panic!("expected Echo"),
    }
}
