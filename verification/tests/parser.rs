use jdx_tools::parser::{
    get_params, parse_arguments, parse_tokens, ArityError, Command, ParseError, ParseOutcome,
};

fn args(tokens: &[&str]) -> Vec<String> {
    tokens.iter().map(|t| t.to_string()).collect()
}

#[test]
fn empty_token_list_is_no_arguments() {
    let r = parse_arguments(args(&[]));
    assert!(matches!(r, Err(ParseError::NoArguments)));
}

#[test]
fn single_token_is_no_arguments() {
    let r = parse_arguments(args(&["jdx"]));
    assert!(matches!(r, Err(ParseError::NoArguments)));
}

#[test]
fn unknown_command_is_invalid() {
    let r = parse_arguments(args(&["jdx", "frobnicate"]));
    match r {
        Err(ParseError::InvalidCommand(name)) => assert_eq!(name, "frobnicate"),
        _ => panic!("expected InvalidCommand"),
    }
}

#[test]
fn unknown_flag_reports_missing_unknown_with_exact_spelling() {
    let a = args(&["jdx", "generate", "-i", "in", "-o", "out"]);
    let r = get_params(&a, "-x");
    match r {
        Err(ParseError::MissingUnknown(flag)) => assert_eq!(flag, "-x"),
        _ => panic!("expected MissingUnknown"),
    }
}

#[test]
fn missing_input_flag_is_specialized() {
    let r = parse_arguments(args(&["jdx", "generate", "-o", "out"]));
    assert!(matches!(r, Err(ParseError::MissingInput)));
}

#[test]
fn missing_output_flag_is_specialized() {
    let r = parse_arguments(args(&["jdx", "generate", "-i", "in"]));
    assert!(matches!(r, Err(ParseError::MissingOutput)));
}

#[test]
fn missing_option_maps_flag_spellings() {
    assert!(matches!(ParseError::missing_option("-i"), ParseError::MissingInput));
    assert!(matches!(ParseError::missing_option("-o"), ParseError::MissingOutput));
    match ParseError::missing_option("-q") {
        ParseError::MissingUnknown(flag) => assert_eq!(flag, "-q"),
        _ => panic!("expected MissingUnknown"),
    }
}

#[test]
fn flag_followed_by_flag_has_no_parameters() {
    let r = parse_arguments(args(&["jdx", "generate", "-i", "-o", "out"]));
    match r {
        Err(ParseError::NoParameters(flag)) => assert_eq!(flag, "-i"),
        _ => panic!("expected NoParameters"),
    }
}

#[test]
fn flag_standing_last_has_no_parameters() {
    let r = parse_arguments(args(&["jdx", "generate", "-i", "in", "-o"]));
    match r {
        Err(ParseError::NoParameters(flag)) => assert_eq!(flag, "-o"),
        _ => panic!("expected NoParameters"),
    }
}

#[test]
fn flag_order_is_irrelevant_for_generate() {
    let r1 = parse_arguments(args(&["jdx", "generate", "-o", "out", "-i", "in"]));
    let r2 = parse_arguments(args(&["jdx", "generate", "-i", "in", "-o", "out"]));
    match (r1, r2) {
        (
            Ok(Command::Generate { input: i1, output: o1 }),
            Ok(Command::Generate { input: i2, output: o2 }),
        ) => {
            assert_eq!(i1, i2);
            assert_eq!(o1, o2);
            assert_eq!(i1, "in");
            assert_eq!(o1, "out");
        },
        _ => panic!("expected two Generate requests"),
    }
}

#[test]
fn first_occurrence_of_a_flag_wins() {
    let r = parse_arguments(args(&["jdx", "generate", "-i", "first", "-o", "out", "-i", "second"]));
    match r {
        Ok(Command::Generate { input, output }) => {
            assert_eq!(input, "first");
            assert_eq!(output, "out");
        },
        _ => panic!("expected Generate"),
    }
}

#[test]
fn generate_with_two_inputs_is_fatal() {
    let r = parse_tokens(&args(&["jdx", "generate", "-i", "a", "b", "-o", "out"]));
    assert!(matches!(r, ParseOutcome::Fatal(ArityError::MultipleInputs)));
}

#[test]
fn generate_with_two_outputs_is_fatal() {
    let r = parse_tokens(&args(&["jdx", "generate", "-i", "a", "-o", "x", "y"]));
    assert!(matches!(r, ParseOutcome::Fatal(ArityError::MultipleOutputs)));
}

#[test]
fn generate_with_one_input_and_one_output_succeeds() {
    let r = parse_tokens(&args(&["jdx", "generate", "-i", "in", "-o", "out"]));
    match r {
        ParseOutcome::Parsed(Command::Generate { input, output }) => {
            assert_eq!(input, "in");
            assert_eq!(output, "out");
        },
        _ => panic!("expected Parsed Generate"),
    }
}

#[test]
fn gen_alias_parses_like_generate() {
    let r = parse_arguments(args(&["jdx", "gen", "-i", "in", "-o", "out"]));
    match r {
        Ok(Command::Generate { input, output }) => {
            assert_eq!(input, "in");
            assert_eq!(output, "out");
        },
        _ => panic!("expected Generate"),
    }
}

#[test]
fn concatenate_accepts_many_inputs() {
    let r = parse_arguments(args(&["jdx", "concat", "-i", "a", "b", "c", "-o", "out"]));
    match r {
        Ok(Command::Concatenate { inputs, output }) => {
            assert_eq!(inputs, vec!["a".to_string(), "b".to_string(), "c".to_string()]);
            assert_eq!(output, "out");
        },
        _ => panic!("expected Concatenate"),
    }
}

#[test]
fn concatenate_with_two_outputs_is_fatal() {
    let r = parse_tokens(&args(&["jdx", "concatenate", "-i", "a", "-o", "x", "y"]));
    assert!(matches!(r, ParseOutcome::Fatal(ArityError::MultipleOutputs)));
}

#[test]
fn expand_requires_one_input_and_one_output() {
    let r = parse_arguments(args(&["jdx", "exp", "-i", "in", "-o", "out"]));
    match r {
        Ok(Command::Expand { input, output }) => {
            assert_eq!(input, "in");
            assert_eq!(output, "out");
        },
        _ => panic!("expected Expand"),
    }
    let fatal = parse_tokens(&args(&["jdx", "expand", "-i", "a", "b", "-o", "out"]));
    assert!(matches!(fatal, ParseOutcome::Fatal(ArityError::MultipleInputs)));
}

#[test]
fn summarize_takes_inputs_only() {
    let r = parse_arguments(args(&["jdx", "summarize", "-i", "a", "b"]));
    match r {
        Ok(Command::Summarize { inputs }) => {
            assert_eq!(inputs, vec!["a".to_string(), "b".to_string()]);
        },
        _ => panic!("expected Summarize"),
    }
}

#[test]
fn version_and_help_ignore_trailing_tokens() {
    assert!(matches!(parse_arguments(args(&["jdx", "version", "junk"])), Ok(Command::Version)));
    assert!(matches!(parse_arguments(args(&["jdx", "help", "-i", "x"])), Ok(Command::Help)));
}
