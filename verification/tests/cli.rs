use cli_skeleton::cmd::new::run;
use cli_skeleton::cmd::new::Args;
use cli_skeleton::dispatch::decide_top;
use cli_skeleton::dispatch::dispose;
use cli_skeleton::dispatch::exit_code;
use cli_skeleton::dispatch::resolve_command;
use cli_skeleton::dispatch::run_command;
use cli_skeleton::dispatch::top_exit_code;
use cli_skeleton::dispatch::top_step;
use cli_skeleton::dispatch::Command;
use cli_skeleton::dispatch::Disposition;
use cli_skeleton::dispatch::TopAction;
use cli_skeleton::dispatch::TopArgs;
use cli_skeleton::errors::CliError;
use cli_skeleton::errors::IoFailure;
use cli_skeleton::text;

fn argv(parts: &[&str]) -> Vec<String> {
    parts.iter().map(|s| s.to_string()).collect()
}

#[test]
fn new_output_concatenates_tokens() {
    let args = Args { arg_input: argv(&["a", "b", "c"]) };
    assert_eq!(args.new(), "New command run with arguments: abc\n");
}

#[test]
fn new_output_keeps_token_order() {
    let args = Args { arg_input: argv(&["c", "ab", "", "a"]) };
    assert_eq!(args.new(), "New command run with arguments: caba\n");
}

#[test]
fn new_output_empty_tokens() {
    let args = Args { arg_input: vec![] };
    assert_eq!(args.new(), "New command run with arguments: \n");
}

#[test]
fn run_new_builds_the_line() {
    let r = run(&argv(&["prog", "new", "a", "b", "c"]));
    assert_eq!(r.ok(), Some("New command run with arguments: abc\n".to_string()));
}

#[test]
fn run_new_without_inputs() {
    let r = run(&argv(&["prog", "new"]));
    assert_eq!(r.ok(), Some("New command run with arguments: \n".to_string()));
}

#[test]
fn run_new_help_is_nonfatal() {
    match run(&argv(&["prog", "new", "-h"])) {
        Err(CliError::Flag(e)) => assert!(!e.fatal()),
        _ => panic!("expected a help request carried as a parse error"),
    }
}

#[test]
fn run_new_unknown_flag_is_fatal() {
    match run(&argv(&["prog", "new", "--bogus-flag"])) {
        Err(CliError::Flag(e)) => assert!(e.fatal()),
        _ => panic!("expected a fatal parse error"),
    }
}

#[test]
fn top_list_prints_catalog_and_never_dispatches() {
    match top_step(&argv(&["prog", "--list"])) {
        Ok(TopAction::List(t)) => {
            assert_eq!(t, "Installed commands:\n    new         Runs the new command.\n\n");
            assert!(t.contains("new"));
        }
        _ => panic!("expected the catalog listing"),
    }
}

#[test]
fn top_list_wins_over_command() {
    let args = TopArgs { arg_command: Some("new".to_string()), flag_list: true };
    assert!(matches!(decide_top(args), TopAction::List(_)));
}

#[test]
fn top_help_is_nonfatal() {
    match top_step(&argv(&["prog", "--help"])) {
        Err(e) => assert!(!e.fatal()),
        Ok(_) => panic!("expected a help request carried as a parse error"),
    }
    match top_step(&argv(&["prog", "-h"])) {
        Err(e) => assert!(!e.fatal()),
        Ok(_) => panic!("expected a help request carried as a parse error"),
    }
}

#[test]
fn top_version_is_nonfatal_and_carries_version() {
    match top_step(&argv(&["prog", "--version"])) {
        Err(docopt::Error::Version(v)) => assert_eq!(v, "0.1.0"),
        _ => panic!("expected a version request carried as a parse error"),
    }
}

#[test]
fn top_without_command_prompts() {
    match top_step(&argv(&["prog"])) {
        Ok(TopAction::Prompt(t)) => {
            assert_eq!(
                t,
                "{{name}} is <your description here>\n\
                 Please choose one of the following commands:\n    \
                 new         Runs the new command.\n\n"
            );
        }
        _ => panic!("expected the prompt"),
    }
}

#[test]
fn top_new_dispatches() {
    match top_step(&argv(&["prog", "new", "a"])) {
        Ok(TopAction::Dispatch(Command::New)) => {}
        _ => panic!("expected a dispatch to the new command"),
    }
}

#[test]
fn top_command_match_ignores_case() {
    match top_step(&argv(&["prog", "NEW"])) {
        Ok(TopAction::Dispatch(Command::New)) => {}
        _ => panic!("expected a dispatch to the new command"),
    }
}

#[test]
fn top_unknown_command_is_parser_failure() {
    match top_step(&argv(&["prog", "bogus"])) {
        Ok(TopAction::Unknown(m)) => {
            assert_eq!(m, "Could not match 'bogus' with any of the allowed variants: [\"New\"]");
            assert!(docopt::Error::Deserialize(m).fatal());
        }
        _ => panic!("expected an unknown-command failure"),
    }
}

#[test]
fn resolve_known_and_unknown_names() {
    assert_eq!(resolve_command(&"new".to_string()), Some(Command::New));
    assert_eq!(resolve_command(&"New".to_string()), Some(Command::New));
    assert_eq!(resolve_command(&"bogus".to_string()), None);
    assert_eq!(resolve_command(&"".to_string()), None);
}

#[test]
fn dispose_success() {
    assert!(matches!(dispose(Ok(())), Disposition::Success));
}

#[test]
fn dispose_broken_pipe_is_success() {
    let f = IoFailure { broken_pipe: true, message: "pipe closed".to_string() };
    assert!(matches!(dispose(Err(CliError::Io(f))), Disposition::Success));
}

#[test]
fn dispose_other_io_failure_carries_message() {
    let f = IoFailure { broken_pipe: false, message: "disk full".to_string() };
    match dispose(Err(CliError::Io(f))) {
        Disposition::Fail(m) => assert_eq!(m, "disk full"),
        _ => panic!("expected a failing disposition"),
    }
}

#[test]
fn dispose_message_failure_carries_message() {
    match dispose(Err(CliError::Other("something went wrong".to_string()))) {
        Disposition::Fail(m) => assert_eq!(m, "something went wrong"),
        _ => panic!("expected a failing disposition"),
    }
}

#[test]
fn dispose_parse_failure_delegates() {
    let e = docopt::Error::Usage("bad usage".to_string());
    assert!(matches!(dispose(Err(CliError::Flag(e))), Disposition::DelegateParser(_)));
}

#[test]
fn run_command_maps_new_to_its_handler() {
    let r = run_command(Command::New, &argv(&["prog", "new", "x", "y"]));
    assert_eq!(r.ok(), Some("New command run with arguments: xy\n".to_string()));
}

#[test]
fn run_command_carries_parse_failures() {
    match run_command(Command::New, &argv(&["prog", "new", "--bogus-flag"])) {
        Err(CliError::Flag(e)) => assert!(e.fatal()),
        _ => panic!("expected a fatal parse error"),
    }
}

#[test]
fn top_exit_codes_follow_the_action() {
    assert_eq!(top_exit_code(&TopAction::List("t".to_string())), Some(0));
    assert_eq!(top_exit_code(&TopAction::Prompt("t".to_string())), Some(0));
    assert_eq!(top_exit_code(&TopAction::Unknown("m".to_string())), None);
    assert_eq!(top_exit_code(&TopAction::Dispatch(Command::New)), None);
}

#[test]
fn exit_codes_follow_the_outcome_table() {
    assert_eq!(exit_code(&Disposition::Success), Some(0));
    assert_eq!(exit_code(&Disposition::Fail("x".to_string())), Some(1));
    let e = docopt::Error::Usage("bad usage".to_string());
    assert_eq!(exit_code(&Disposition::DelegateParser(e)), None);
}

#[test]
fn error_messages() {
    let f = IoFailure { broken_pipe: false, message: "disk full".to_string() };
    assert_eq!(CliError::Io(f).message(), "disk full");
    assert_eq!(CliError::Other("oops".to_string()).message(), "oops");
    let e = docopt::Error::Usage("bad usage".to_string());
    assert_eq!(CliError::Flag(e).message(), "bad usage");
}

#[test]
fn error_conversions() {
    assert!(matches!(CliError::from(docopt::Error::NoMatch), CliError::Flag(_)));
    let f = IoFailure { broken_pipe: true, message: "pipe".to_string() };
    assert!(matches!(CliError::from(f), CliError::Io(IoFailure { broken_pipe: true, .. })));
    assert!(matches!(CliError::from("msg".to_string()), CliError::Other(m) if m == "msg"));
}

#[test]
fn usage_texts_are_valid_docopt() {
    assert!(docopt::Docopt::new(text::top_usage()).is_ok());
    assert!(docopt::Docopt::new(text::new_usage()).is_ok());
}
