use myshell::color::{execute_color, parse_color, ColorName, ColorStep};
use myshell::models::CommandError;

#[test]
fn palette_names_resolve() {
    assert!(matches!(parse_color("black"), Some(ColorName::Black)));
    assert!(matches!(parse_color("red"), Some(ColorName::Red)));
    assert!(matches!(parse_color("green"), Some(ColorName::Green)));
    assert!(matches!(parse_color("blue"), Some(ColorName::Blue)));
    assert!(matches!(parse_color("white"), Some(ColorName::White)));
    assert!(matches!(parse_color("yellow"), Some(ColorName::Yellow)));
    assert!(matches!(parse_color("magenta"), Some(ColorName::Magenta)));
    assert!(matches!(parse_color("cyan"), Some(ColorName::Cyan)));
    assert!(matches!(parse_color("grey"), Some(ColorName::Grey)));
}

#[test]
fn palette_matching_ignores_ascii_case() {
    assert!(matches!(parse_color("RED"), Some(ColorName::Red)));
    assert!(matches!(parse_color("Blue"), Some(ColorName::Blue)));
    assert!(matches!(parse_color("gReY"), Some(ColorName::Grey)));
}

#[test]
fn unknown_color_names_do_not_resolve() {
    assert!(parse_color("notacolor").is_none());
    assert!(parse_color("").is_none());
    assert!(parse_color("gray").is_none());
}

#[test]
fn color_text_setting_succeeds() {
    let arg = Some("text=red".to_string());
    let (steps, r) = execute_color(&arg);
    assert!(r.is_ok());
    assert_eq!(steps.len(), 1);
    assert!(matches!(steps[0], ColorStep::Foreground(ColorName::Red)));
}

#[test]
fn color_unknown_color_is_softly_skipped() {
    let arg = Some("text=notacolor".to_string());
    let (steps, r) = execute_color(&arg);
    assert!(r.is_ok());
    assert!(steps.is_empty());
}

#[test]
fn color_pair_without_equals_is_invalid_argument() {
    let arg = Some("foo".to_string());
    let (steps, r) = execute_color(&arg);
    assert!(steps.is_empty());
    assert!(matches!(r, Err(CommandError::InvalidArgument(_))));
}

#[test]
fn color_missing_payload_is_missing_arguments() {
    let (steps, r) = execute_color(&None);
    assert!(steps.is_empty());
    assert!(matches!(r, Err(CommandError::MissingArguments(_))));
}

#[test]
fn color_applies_several_settings_in_order() {
    let arg = Some("text=red background=blue".to_string());
    let (steps, r) = execute_color(&arg);
    assert!(r.is_ok());
    assert_eq!(steps.len(), 2);
    assert!(matches!(steps[0], ColorStep::Foreground(ColorName::Red)));
    assert!(matches!(steps[1], ColorStep::Background(ColorName::Blue)));
}

#[test]
fn color_unknown_key_warns_and_continues() {
    let arg = Some("border=red background=cyan".to_string());
    let (steps, r) = execute_color(&arg);
    assert!(r.is_ok());
    assert_eq!(steps.len(), 2);
    match &steps[0] {
        ColorStep::Invalid(s) => assert_eq!(s, "border=red"),
        _ => panic!("expected Invalid"),
    }
    assert!(matches!(steps[1], ColorStep::Background(ColorName::Cyan)));
}

#[test]
fn color_malformed_pair_keeps_earlier_steps_and_stops() {
    let arg = Some("text=red a=b=c background=blue".to_string());
    let (steps, r) = execute_color(&arg);
    assert!(matches!(r, Err(CommandError::InvalidArgument(_))));
    assert_eq!(steps.len(), 1);
    assert!(matches!(steps[0], ColorStep::Foreground(ColorName::Red)));
}

#[test]
fn color_empty_value_is_softly_skipped() {
    let arg = Some("text=".to_string());
    let (steps, r) = execute_color(&arg);
    assert!(r.is_ok());
    assert!(steps.is_empty());
}
