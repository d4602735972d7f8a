//! The fixed texts of the command-line surface: the usage specifications
//! handed to the argument parser, the command catalog, and the prompt shown
//! when no command is named.

use vstd::prelude::*;

verus! {

/// The catalog of subcommands, one line per command. It is appended both to
/// the top-level usage text and to the listing and prompt output.
pub open spec fn command_list_text() -> Seq<char> {
    "
    new         Runs the new command.
"@
}

pub fn command_list() -> (r: &'static str)
    ensures
        r@ == command_list_text(),
{
    "
    new         Runs the new command.
"
}

/// The top-level usage text, up to the command catalog.
pub open spec fn top_usage_head_text() -> Seq<char> {
    "
Usage:
    {{name}} <command> [<args>...]
    {{name}} [options]

Options:
    --list           List all commands available.
    -h, --help       Display this message
    --version    Print version info and exit

Commands:"@
}

/// The complete top-level usage text: the head followed by the catalog.
pub open spec fn top_usage_text() -> Seq<char> {
    top_usage_head_text() + command_list_text()
}

pub fn top_usage() -> (r: String)
    ensures
        r@ == top_usage_text(),
{
    let head = String::from_str(
        "
Usage:
    {{name}} <command> [<args>...]
    {{name}} [options]

Options:
    --list           List all commands available.
    -h, --help       Display this message
    --version    Print version info and exit

Commands:",
    );
    head.concat(command_list())
}

/// The usage text of the `new` subcommand.
pub open spec fn new_usage_text() -> Seq<char> {
    "
Runs the new command

Usage:
   {{name}} new [options] [<input>...]

Common options:
    -h, --help    Display this message
"@
}

pub fn new_usage() -> (r: &'static str)
    ensures
        r@ == new_usage_text(),
{
    "
Runs the new command

Usage:
   {{name}} new [options] [<input>...]

Common options:
    -h, --help    Display this message
"
}

/// What `--list` prints to standard output: a heading, the catalog, and a
/// final newline.
pub open spec fn list_message_text() -> Seq<char> {
    "Installed commands:"@ + command_list_text() + "\n"@
}

pub fn list_message() -> (r: String)
    ensures
        r@ == list_message_text(),
{
    let head = String::from_str("Installed commands:");
    head.concat(command_list()).concat("\n")
}

/// What is printed to standard error when no command and no flag is given:
/// a prompt, the catalog, and a final newline.
pub open spec fn prompt_message_text() -> Seq<char> {
    "{{name}} is <your description here>
Please choose one of the following commands:"@ + command_list_text() + "\n"@
}

pub fn prompt_message() -> (r: String)
    ensures
        r@ == prompt_message_text(),
{
    let head = String::from_str(
        "{{name}} is <your description here>
Please choose one of the following commands:",
    );
    head.concat(command_list()).concat("\n")
}

/// The version string reported for `--version`.
pub open spec fn version_text() -> Seq<char> {
    "0.1.0"@
}

pub fn version() -> (r: String)
    ensures
        r@ == version_text(),
{
    String::from_str("0.1.0")
}

/// The prefix of the single line the `new` subcommand prints.
pub open spec fn new_prefix_text() -> Seq<char> {
    "New command run with arguments: "@
}

pub fn new_prefix() -> (r: String)
    ensures
        r@ == new_prefix_text(),
{
    String::from_str("New command run with arguments: ")
}

} // verus!
