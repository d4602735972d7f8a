//! The trusted boundary to the `docopt` argument parser. Everything the
//! library takes from `docopt` passes through the declarations and wrappers
//! here. A parse outcome is a function of the usage text, the argument
//! vector, the options-first mode and the version string alone; the names
//! below stand for it, so that callers' contracts can be exact.

use vstd::prelude::*;

use crate::text;

verus! {

#[verifier::external_type_specification]
#[verifier::external_body]
pub struct ExArgvMap(docopt::ArgvMap);

#[verifier::external_type_specification]
#[verifier::external_body]
pub struct ExDocoptError(docopt::Error);

/// What a matched map holds under a key, read as a truth value: whether a
/// flag is set or a positional atom holds a value.
pub uninterp spec fn map_bool_of(m: docopt::ArgvMap, key: Seq<char>) -> bool;

/// What a matched map holds under a key, read as a string: an atom's value,
/// empty when it is absent.
pub uninterp spec fn map_str_of(m: docopt::ArgvMap, key: Seq<char>) -> Seq<char>;

/// What a matched map holds under a key, read as a list: a repeatable
/// atom's values, in command-line order.
pub uninterp spec fn map_vec_of(m: docopt::ArgvMap, key: Seq<char>) -> Seq<Seq<char>>;

/// Whether parsing an argument vector against a usage text succeeds.
pub uninterp spec fn parse_ok_of(
    usage: Seq<char>,
    argv: Seq<Seq<char>>,
    options_first: bool,
    version: Option<Seq<char>>,
) -> bool;

/// The truth value the matched map holds under a key after a successful
/// parse.
pub uninterp spec fn parse_bool_of(
    usage: Seq<char>,
    argv: Seq<Seq<char>>,
    options_first: bool,
    version: Option<Seq<char>>,
    key: Seq<char>,
) -> bool;

/// The string the matched map holds under a key after a successful parse.
pub uninterp spec fn parse_str_of(
    usage: Seq<char>,
    argv: Seq<Seq<char>>,
    options_first: bool,
    version: Option<Seq<char>>,
    key: Seq<char>,
) -> Seq<char>;

/// The list the matched map holds under a key after a successful parse.
pub uninterp spec fn parse_vec_of(
    usage: Seq<char>,
    argv: Seq<Seq<char>>,
    options_first: bool,
    version: Option<Seq<char>>,
    key: Seq<char>,
) -> Seq<Seq<char>>;

/// How a version option reads at the specification level.
pub open spec fn version_view(v: Option<String>) -> Option<Seq<char>> {
    match v {
        None => None,
        Some(s) => Some(s@),
    }
}

/// Relies on `docopt::Docopt`: `new` builds a parser from the usage text;
/// `options_first`, `version` and `argv` configure it; `parse` matches the
/// argument vector against the usage patterns, returning the matched map, or
/// an error that also stands for a help or version request. Whether it
/// succeeds, and what the matched map holds, are functions of the arguments
/// alone, which the names above stand for. The usage text is held to the
/// two fixed texts of this crate: neither describes a short flag that takes
/// an argument, the one shape of usage on which docopt's flag stacking can
/// slice a multibyte name out of bounds.
#[verifier::external_body]
pub(crate) fn docopt_parse(
    usage: &str,
    argv: &Vec<String>,
    options_first: bool,
    version: Option<String>,
) -> (r: Result<docopt::ArgvMap, docopt::Error>)
    requires
        usage@ == text::top_usage_text() || usage@ == text::new_usage_text(),
    ensures
        r is Ok <==> parse_ok_of(usage@, argv.deep_view(), options_first, version_view(version)),
        r matches Ok(m) ==> forall|key: Seq<char>|
            (#[trigger] map_bool_of(m, key)) == parse_bool_of(
                usage@,
                argv.deep_view(),
                options_first,
                version_view(version),
                key,
            ),
        r matches Ok(m) ==> forall|key: Seq<char>|
            (#[trigger] map_str_of(m, key)) == parse_str_of(
                usage@,
                argv.deep_view(),
                options_first,
                version_view(version),
                key,
            ),
        r matches Ok(m) ==> forall|key: Seq<char>|
            (#[trigger] map_vec_of(m, key)) == parse_vec_of(
                usage@,
                argv.deep_view(),
                options_first,
                version_view(version),
                key,
            ),
{
    docopt::Docopt::new(usage).and_then(|d| {
        d.options_first(options_first).version(version).argv(argv.iter()).parse()
    })
}

/// Relies on `docopt::ArgvMap::get_bool`: whether a flag is set or a
/// positional atom holds a value; false when the key is absent.
#[verifier::external_body]
pub(crate) fn map_get_bool(map: &docopt::ArgvMap, key: &str) -> (r: bool)
    ensures
        r == map_bool_of(*map, key@),
{
    map.get_bool(key)
}

/// Relies on `docopt::ArgvMap::get_str`: the value of an atom, the empty
/// string when it is absent; copied to an owned string.
#[verifier::external_body]
pub(crate) fn map_get_str(map: &docopt::ArgvMap, key: &str) -> (r: String)
    ensures
        r@ == map_str_of(*map, key@),
{
    map.get_str(key).to_owned()
}

/// Relies on `docopt::ArgvMap::get_vec`: the values of a repeatable atom in
/// command-line order; each copied to an owned string.
#[verifier::external_body]
pub(crate) fn map_get_vec(map: &docopt::ArgvMap, key: &str) -> (r: Vec<String>)
    ensures
        r.deep_view() == map_vec_of(*map, key@),
{
    map.get_vec(key).iter().map(|s| s.to_string()).collect()
}

/// Relies on `docopt::Error`'s `Display` rendering: a usage, argv,
/// deserialize or version error renders its carried message, a help request
/// renders nothing, and a wrapped error renders itself above the program
/// usage.
#[verifier::external_body]
pub(crate) fn docopt_error_message(e: &docopt::Error) -> String {
    e.to_string()
}

/// What `str::to_lowercase` returns: a function of the characters alone.
pub uninterp spec fn lower_of(s: Seq<char>) -> Seq<char>;

/// Relies on `str::to_lowercase`: the result depends on the characters
/// alone. Docopt's deserializer matches a command token against an
/// enumeration by comparing both sides lowercased with this function; the
/// dispatcher mirrors that comparison.
#[verifier::external_body]
pub(crate) fn lowercase(s: &str) -> (r: String)
    ensures
        r@ == lower_of(s@),
{
    s.to_lowercase()
}

} // verus!
