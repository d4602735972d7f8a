//! The `new` subcommand: it decodes zero or more positional input tokens and
//! prints them, joined in order, on a single prefixed line.

use vstd::prelude::*;

use crate::errors::CliError;
use crate::errors::CliResult;
use crate::parse;
use crate::text;

verus! {

/// The input tokens joined in order, with nothing between them.
pub open spec fn concat_tokens(tokens: Seq<Seq<char>>) -> Seq<char>
    decreases tokens.len(),
{
    if tokens.len() == 0 {
        Seq::empty()
    } else {
        concat_tokens(tokens.drop_last()) + tokens.last()
    }
}

/// The single line the handler prints: the fixed prefix, the input tokens
/// joined in order, and one newline.
pub open spec fn new_output_text(tokens: Seq<Seq<char>>) -> Seq<char> {
    text::new_prefix_text() + concat_tokens(tokens) + "\n"@
}

/// Joining respects the order of the tokens: however the token list is
/// split, the joined whole is the joined parts, one after the other.
pub proof fn lemma_concat_tokens_app(a: Seq<Seq<char>>, b: Seq<Seq<char>>)
    ensures
        concat_tokens(a + b) == concat_tokens(a) + concat_tokens(b),
    decreases b.len(),
{
    if b.len() == 0 {
        assert(a + b =~= a);
        assert(concat_tokens(a) + concat_tokens(b) =~= concat_tokens(a));
    } else {
        lemma_concat_tokens_app(a, b.drop_last());
        assert((a + b).drop_last() =~= a + b.drop_last());
        assert(concat_tokens(a) + concat_tokens(b.drop_last()) + b.last() =~= concat_tokens(a)
            + (concat_tokens(b.drop_last()) + b.last()));
    }
}

/// The printed line is the fixed prefix, then the input tokens joined in
/// order, then exactly one terminating newline.
pub proof fn lemma_new_output_shape(tokens: Seq<Seq<char>>)
    ensures
        new_output_text(tokens).len() == text::new_prefix_text().len() + concat_tokens(
            tokens,
        ).len() + 1,
        new_output_text(tokens).last() == '\n',
        new_output_text(tokens).drop_last() == text::new_prefix_text() + concat_tokens(tokens),
{
    reveal_strlit("\n");
    assert(new_output_text(tokens).drop_last() =~= text::new_prefix_text() + concat_tokens(
        tokens,
    ));
}

/// With no input tokens the printed line is the prefix and the newline
/// alone.
pub proof fn lemma_new_output_empty()
    ensures
        new_output_text(Seq::<Seq<char>>::empty()) == text::new_prefix_text() + "\n"@,
{
    assert(new_output_text(Seq::<Seq<char>>::empty()) =~= text::new_prefix_text() + "\n"@);
}

/// The decoded arguments of the `new` subcommand: its positional input
/// tokens, in command-line order.
pub struct Args {
    pub arg_input: Vec<String>,
}

impl Args {
    /// Build the handler's single output line from the decoded tokens.
    pub fn new(&self) -> (out: String)
        ensures
            out@ == new_output_text(self.arg_input.deep_view()),
    {
        let ghost toks = self.arg_input.deep_view();
        let mut out = text::new_prefix();
        let n = self.arg_input.len();
        assert(toks.take(0) =~= Seq::<Seq<char>>::empty());
        for i in 0..n
            invariant
                n == self.arg_input.len(),
                toks == self.arg_input.deep_view(),
                out@ == text::new_prefix_text() + concat_tokens(toks.take(i as int)),
        {
            out.append(self.arg_input[i].as_str());
            proof {
                assert(toks[i as int] == self.arg_input@[i as int]@);
                assert(toks.take(i + 1).drop_last() =~= toks.take(i as int));
                assert(out@ =~= text::new_prefix_text() + concat_tokens(toks.take(i + 1)));
            }
        }
        assert(toks.take(n as int) =~= toks);
        out.append("\n");
        out
    }
}

/// Whether an argument vector decodes against the subcommand's usage text.
pub open spec fn new_parse_ok(argv: Seq<Seq<char>>) -> bool {
    parse::parse_ok_of(text::new_usage_text(), argv, false, None)
}

/// The `<input>` tokens an argument vector decodes to.
pub open spec fn new_inputs_of(argv: Seq<Seq<char>>) -> Seq<Seq<char>> {
    parse::parse_vec_of(text::new_usage_text(), argv, false, None, "<input>"@)
}

/// Run the `new` subcommand on the full argument vector: decode its
/// arguments, then build the output line. It succeeds exactly when the
/// vector decodes, the line is built from exactly the decoded tokens, a
/// decode error is carried through untouched, and no other error originates
/// here.
pub fn run(argv: &Vec<String>) -> (r: CliResult<String>)
    ensures
        r is Ok <==> new_parse_ok(argv.deep_view()),
        r matches Ok(out) ==> out@ == new_output_text(new_inputs_of(argv.deep_view())),
        r matches Err(e) ==> e is Flag,
{
    match parse::docopt_parse(text::new_usage(), argv, false, None) {
        Err(e) => Err(CliError::Flag(e)),
        Ok(map) => {
            let args = Args { arg_input: parse::map_get_vec(&map, "<input>") };
            let out = args.new();
            Ok(out)
        },
    }
}

} // verus!
