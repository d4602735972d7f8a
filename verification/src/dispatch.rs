//! The dispatcher: it resolves the first positional token to a known command,
//! decides what the top-level invocation should do, and maps every handler
//! outcome to a process disposition.

use vstd::prelude::*;

use crate::cmd::new;
use crate::errors::CliError;
use crate::errors::CliResult;
use crate::parse;
use crate::text;

verus! {

/// The decoded top-level arguments: the named command, if any, and the
/// `--list` flag.
pub struct TopArgs {
    pub arg_command: Option<String>,
    pub flag_list: bool,
}

/// The closed set of known subcommands. Adding one means adding a variant
/// here and an arm to every match below; the matches are exhaustive, so a
/// missing handler fails the build.
#[derive(Debug, Clone, Copy, PartialEq, Eq, Structural)]
pub enum Command {
    New,
}

/// What a top-level invocation should do, with the exact text it should
/// emit where text is owed.
pub enum TopAction {
    /// Print this catalog to standard output and exit 0.
    List(String),
    /// Print this prompt to standard error and exit 0.
    Prompt(String),
    /// Run the named command's handler on the full argument vector.
    Dispatch(Command),
    /// The named command is unknown: fail through the parser's own exit
    /// routine with this message.
    Unknown(String),
}

/// How the process ends after a handler ran.
pub enum Disposition {
    /// Exit 0.
    Success,
    /// Hand this parse error to the parser's own exit routine.
    DelegateParser(docopt::Error),
    /// Print this message to standard error and exit 1.
    Fail(String),
}

/// The command, if any, that a first positional token names. As the parser's
/// own enumeration matching would, it compares the token to the variant name
/// with both sides lowercased.
pub open spec fn command_of_name(name: Seq<char>) -> Option<Command> {
    if parse::lower_of(name) == parse::lower_of("New"@) {
        Some(Command::New)
    } else {
        None
    }
}

/// The message reported for a token that names no known command, as the
/// parser's own enumeration matching words it.
pub open spec fn unknown_command_text(name: Seq<char>) -> Seq<char> {
    "Could not match '"@ + parse::lower_of(name) + "' with any of the allowed variants: [\"New\"]"@
}

pub fn resolve_command(name: &String) -> (r: Option<Command>)
    ensures
        r == command_of_name(name@),
{
    let lowered = parse::lowercase(name.as_str());
    let key = parse::lowercase("New");
    if lowered == key {
        Some(Command::New)
    } else {
        None
    }
}

pub fn unknown_command_message(name: &String) -> (r: String)
    ensures
        r@ == unknown_command_text(name@),
{
    let head = String::from_str("Could not match '");
    head.concat(parse::lowercase(name.as_str()).as_str()).concat(
        "' with any of the allowed variants: [\"New\"]",
    )
}

/// The decision of the dispatcher, stated case by case: `--list` wins, then
/// the absence of a command prompts, then a known command dispatches and an
/// unknown one fails. `--list` and the prompt never reach a handler.
pub fn decide_top(args: TopArgs) -> (r: TopAction)
    ensures
        args.flag_list ==> (r matches TopAction::List(t) && t@ == text::list_message_text()),
        !args.flag_list ==> match args.arg_command {
            None => r matches TopAction::Prompt(t) && t@ == text::prompt_message_text(),
            Some(name) => match command_of_name(name@) {
                Some(c) => r == TopAction::Dispatch(c),
                None => r matches TopAction::Unknown(m) && m@ == unknown_command_text(name@),
            },
        },
{
    if args.flag_list {
        TopAction::List(text::list_message())
    } else {
        match args.arg_command {
            None => TopAction::Prompt(text::prompt_message()),
            Some(name) => {
                match resolve_command(&name) {
                    Some(Command::New) => TopAction::Dispatch(Command::New),
                    None => TopAction::Unknown(unknown_command_message(&name)),
                }
            },
        }
    }
}

/// The version option the top-level decode is configured with.
pub open spec fn top_version_opt() -> Option<Seq<char>> {
    Some(text::version_text())
}

/// Whether an argument vector decodes against the top-level usage text.
pub open spec fn top_parse_ok(argv: Seq<Seq<char>>) -> bool {
    parse::parse_ok_of(text::top_usage_text(), argv, true, top_version_opt())
}

/// Whether the decoded top-level arguments carry `--list`.
pub open spec fn top_flag_list_of(argv: Seq<Seq<char>>) -> bool {
    parse::parse_bool_of(text::top_usage_text(), argv, true, top_version_opt(), "--list"@)
}

/// Whether the decoded top-level arguments name a command.
pub open spec fn top_has_command_of(argv: Seq<Seq<char>>) -> bool {
    parse::parse_bool_of(text::top_usage_text(), argv, true, top_version_opt(), "<command>"@)
}

/// The command token the decoded top-level arguments carry.
pub open spec fn top_command_of(argv: Seq<Seq<char>>) -> Seq<char> {
    parse::parse_str_of(text::top_usage_text(), argv, true, top_version_opt(), "<command>"@)
}

/// The action a decoded top-level argument vector asks for: the dispatcher's
/// decision applied to what the vector decodes to.
pub open spec fn top_action_of(argv: Seq<Seq<char>>, a: TopAction) -> bool {
    if top_flag_list_of(argv) {
        a matches TopAction::List(t) && t@ == text::list_message_text()
    } else if !top_has_command_of(argv) {
        a matches TopAction::Prompt(t) && t@ == text::prompt_message_text()
    } else {
        match command_of_name(top_command_of(argv)) {
            Some(c) => a == TopAction::Dispatch(c),
            None => a matches TopAction::Unknown(m) && m@ == unknown_command_text(
                top_command_of(argv),
            ),
        }
    }
}

/// Decode the top-level arguments and decide the invocation's action. It
/// returns an action exactly when the vector decodes, the action is the
/// dispatcher's decision on the decoded values, and a parse error is
/// carried through untouched for the parser's own exit routine.
pub fn top_step(argv: &Vec<String>) -> (r: Result<TopAction, docopt::Error>)
    ensures
        r is Ok <==> top_parse_ok(argv.deep_view()),
        r matches Ok(a) ==> top_action_of(argv.deep_view(), a),
{
    let usage = text::top_usage();
    match parse::docopt_parse(usage.as_str(), argv, true, Some(text::version())) {
        Err(e) => Err(e),
        Ok(map) => {
            let flag_list = parse::map_get_bool(&map, "--list");
            let has_command = parse::map_get_bool(&map, "<command>");
            let cmd_name = parse::map_get_str(&map, "<command>");
            let arg_command = if has_command {
                Some(cmd_name)
            } else {
                None
            };
            Ok(decide_top(TopArgs { arg_command, flag_list }))
        },
    }
}

/// The outcome table of the dispatcher: success and a broken pipe exit
/// cleanly, a parse failure is the parser's to report, and every other
/// failure carries its message to standard error and exit code 1.
pub fn dispose(outcome: Result<(), CliError>) -> (d: Disposition)
    ensures
        match outcome {
            Ok(_) => d == Disposition::Success,
            Err(CliError::Flag(e)) => d == Disposition::DelegateParser(e),
            Err(CliError::Io(f)) => {
                if f.broken_pipe {
                    d == Disposition::Success
                } else {
                    d matches Disposition::Fail(m) && m@ == f.message@
                }
            },
            Err(CliError::Other(msg)) => d matches Disposition::Fail(m) && m@ == msg@,
        },
{
    match outcome {
        Ok(()) => Disposition::Success,
        Err(CliError::Flag(e)) => Disposition::DelegateParser(e),
        Err(CliError::Io(f)) => {
            if f.broken_pipe {
                Disposition::Success
            } else {
                Disposition::Fail(f.message)
            }
        },
        Err(CliError::Other(msg)) => Disposition::Fail(msg),
    }
}

/// Run the handler of a resolved command on the full argument vector; the
/// mapping from command to handler is exhaustive, so a variant without a
/// handler fails the build. The one handler's contract carries through:
/// success exactly when the vector decodes, with the line built from
/// exactly the decoded tokens.
pub fn run_command(command: Command, argv: &Vec<String>) -> (r: CliResult<String>)
    ensures
        r is Ok <==> new::new_parse_ok(argv.deep_view()),
        r matches Ok(out) ==> out@ == new::new_output_text(new::new_inputs_of(argv.deep_view())),
        r matches Err(e) ==> e is Flag,
{
    match command {
        Command::New => new::run(argv),
    }
}

/// The exit code a top-level action asks for: the catalog and the prompt
/// exit 0; an unknown command's code is the parser's to choose through its
/// own exit routine (it exits non-zero for it); a dispatch has no code yet,
/// the handler's outcome decides it.
pub fn top_exit_code(a: &TopAction) -> (c: Option<u8>)
    ensures
        *a is List || *a is Prompt ==> c == Some(0u8),
        *a is Unknown || *a is Dispatch ==> c is None,
{
    match a {
        TopAction::List(_) => Some(0),
        TopAction::Prompt(_) => Some(0),
        TopAction::Unknown(_) => None,
        TopAction::Dispatch(_) => None,
    }
}

/// The exit code a disposition asks for: none for a delegated parse error,
/// whose code the parser chooses.
pub fn exit_code(d: &Disposition) -> (c: Option<u8>)
    ensures
        *d is Success ==> c == Some(0u8),
        *d is Fail ==> c == Some(1u8),
        *d is DelegateParser ==> c is None,
{
    match d {
        Disposition::Success => Some(0),
        Disposition::Fail(_) => Some(1),
        Disposition::DelegateParser(_) => None,
    }
}

} // verus!
