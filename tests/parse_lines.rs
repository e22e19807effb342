use gcode_validator::commands::G1Move;
use gcode_validator::parse::{
    check_unsupported_commands, divide_into_instructions, is_known_unsupported_command,
    is_space_char, is_supported_command, parse_command, parse_line,
};
use gcode_validator::Error;

#[test]
fn line_into_instructions_ok_with_comment() {
    let move_instruction = "G1 X116.259 Y130.177 E0.04011 ; skirt";
    let instructions = divide_into_instructions(move_instruction);

    let expected = vec!["G1", "X116.259", "Y130.177", "E0.04011"];
    assert_eq!(instructions, expected)
}

#[test]
fn line_into_instrutcitons_ok_no_comment() {
    let move_instruction = "G1 F1200.000";
    let instructions = divide_into_instructions(move_instruction);

    let expected = vec!["G1", "F1200.000"];
    assert_eq!(instructions, expected)
}

#[test]
fn line_into_instructions_ok_all_comment() {
    let all_comment = "; This is a commented line, no instructions should be processed here";
    let instructions = divide_into_instructions(all_comment);

    let expected: Vec<&str> = vec![];
    assert_eq!(instructions, expected)
}

#[test]
fn line_into_instructions_ok_empty_line() {
    let empty_line = "";
    let instructions = divide_into_instructions(empty_line);

    let expected: Vec<&str> = vec![];
    assert_eq!(instructions, expected)
}

#[test]
fn line_into_instructions_ok_space() {
    let space_line = " ";
    let instructions = divide_into_instructions(space_line);

    let expected: Vec<&str> = vec![];
    assert_eq!(instructions, expected)
}

#[test]
fn parse_full_line_ok() {
    let line = "G1 X109.383 Y119.062 E0.00431 ; perimeter";
    let result = parse_line(line, 69);

    assert!(result.is_ok())
}

#[test]
fn parse_full_line_err() {
    let line = "GA1 X109.383 Y119.062 E0.00431 ; perimeter";
    let result = parse_line(line, 420);

    assert!(result.is_err())
}

#[test]
fn tokens_split_on_runs_of_mixed_whitespace() {
    let instructions = divide_into_instructions("\t G28  W\u{3000}X5 \r");
    assert_eq!(instructions, vec!["G28", "W", "X5"]);
}

#[test]
fn tokens_stop_at_first_semicolon() {
    let instructions = divide_into_instructions("M104 S215;first;second");
    assert_eq!(instructions, vec!["M104", "S215"]);
}

#[test]
fn whitespace_characters() {
    assert!(is_space_char(' '));
    assert!(is_space_char('\t'));
    assert!(is_space_char('\u{a0}'));
    assert!(!is_space_char('G'));
    assert!(!is_space_char(';'));
}

#[test]
fn blank_and_comment_lines_have_no_command() {
    for line in ["", "   ", "\t\t", "; G1 X1", "   ;GA1", " \t ; M999"] {
        assert!(matches!(parse_line(line, 3), Ok(None)), "{:?}", line);
    }
}

#[test]
fn supported_commands_are_accepted() {
    for line in ["G0", "G1 X1", "G92 E0", "M73 P0 R0", "M900 K0.06", "M862.3 P \"MK3S\""] {
        match parse_line(line, 1) {
            Ok(Some(command)) => {
                assert!(command.x_target.is_none());
                assert!(command.y_target.is_none());
                assert!(command.z_target.is_none());
                assert!(command.amount_to_extrude.is_none());
                assert!(command.feedrate_per_minute.is_none());
                assert!(command.laser_power.is_none());
            }
            other => panic!("{:?} gave {:?}", line, other),
        }
    }
}

#[test]
fn known_unsupported_command_carries_no_line_number() {
    match parse_line("M999 ; reset", 12) {
        Err(Error::UnsupportedCommand(name)) => assert_eq!(name, "M999"),
        other => panic!("{:?}", other),
    }
    match parse_line("G425.1 X2", 4) {
        Err(Error::UnsupportedCommand(name)) => assert_eq!(name, "G425"),
        other => panic!("{:?}", other),
    }
}

#[test]
fn invalid_command_carries_its_line_number() {
    match parse_line("GA1 X109.383 ; perimeter", 22) {
        Err(Error::InvalidCommandInLine(Some(name), Some(22))) => assert_eq!(name, "GA1"),
        other => panic!("{:?}", other),
    }
    match parse_line("G7.5 X1", 8) {
        Err(Error::InvalidCommandInLine(Some(name), Some(8))) => assert_eq!(name, "G7"),
        other => panic!("{:?}", other),
    }
}

#[test]
fn command_names_match_exactly() {
    for name in ["G01", "g1", "G", "M", "G1X", "M0862", "X1", "G+1", "G123456789012"] {
        assert!(!is_supported_command(name), "{}", name);
        assert!(!is_known_unsupported_command(name), "{}", name);
    }
    assert!(is_supported_command("G0"));
    assert!(is_supported_command("M862"));
    assert!(is_known_unsupported_command("M0"));
    assert!(is_known_unsupported_command("G425"));
    assert!(!is_supported_command("M0"));
    assert!(!is_known_unsupported_command("G1"));
}

#[test]
fn dotted_subcommand_classifies_as_its_base() {
    assert!(matches!(parse_line("M862.1 P0.4", 2), Ok(Some(_))));
    assert!(matches!(parse_line("M862 P0.4", 2), Ok(Some(_))));
    match (parse_line("M205.7", 2), parse_line("M206.7", 2)) {
        (Ok(Some(_)), Err(Error::UnsupportedCommand(name))) => assert_eq!(name, "M206"),
        other => panic!("{:?}", other),
    }
}

#[test]
fn classifying_twice_gives_the_same_verdict() {
    for line in ["G1 X1", "M999", "GA1", "; c"] {
        let first = format!("{:?}", parse_line(line, 5));
        let second = format!("{:?}", parse_line(line, 5));
        assert_eq!(first, second);
    }
}

#[test]
fn unsupported_check_gives_each_kind() {
    assert!(matches!(
        check_unsupported_commands("M350"),
        Error::UnsupportedCommand(ref name) if name == "M350"
    ));
    assert!(matches!(
        check_unsupported_commands("Q1"),
        Error::InvalidCommandInLine(Some(ref name), None) if name == "Q1"
    ));
}

#[test]
fn parse_command_without_tokens_has_no_command() {
    assert!(matches!(parse_command(vec![], 1), Ok(None)));
    assert!(matches!(parse_command(vec!["G21"], 1), Ok(Some(G1Move { .. }))));
    assert!(matches!(
        parse_command(vec!["T0"], 40),
        Err(Error::InvalidCommandInLine(Some(_), Some(40)))
    ));
}
