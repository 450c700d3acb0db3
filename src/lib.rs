//! Formatter for SyMon sources, driven by a declarative formatting query.

use vstd::prelude::*;

pub mod engine;
pub mod error;
pub mod harness;
pub mod location;
pub mod pipeline;
pub mod text;

pub use error::{EngineFailure, FormatError};
pub use location::Span;

verus! {

use pipeline::{engine_result, finish, finished, run_engine};
use text::{ends_with_newline, lemma_trim_trailing_ends_clean};
use topiary_tree_sitter_facade::Language as Grammar;
use vstd::utf8::decode_utf8;

/// Whether `r` is what formatting `input` with `query` over `grammar` gives:
/// the engine's outcome, finished. Output for input that ends with a newline
/// ends with one too, and, where the idempotence check ran, the engine gives
/// the same outcome on that output as on the input.
pub open spec fn formats_to(
    grammar: Grammar,
    query: Seq<char>,
    input: Seq<char>,
    skip_idempotence: bool,
    tolerate_parsing_errors: bool,
    r: Result<String, FormatError>,
) -> bool {
    &&& finished(
        input,
        engine_result(grammar, query, input, skip_idempotence, tolerate_parsing_errors),
        r,
    )
    &&& (r is Ok && ends_with_newline(input) ==> ends_with_newline(r->Ok_0@))
    &&& (r is Ok && !skip_idempotence && ends_with_newline(input) ==> engine_result(
        grammar,
        query,
        r->Ok_0@,
        false,
        tolerate_parsing_errors,
    ) == engine_result(grammar, query, input, false, tolerate_parsing_errors))
}

/// Formats `input` with the formatting `query` over `grammar`.
///
/// With `tolerate_parsing_errors` the engine formats input that holds syntax
/// errors; with `skip_idempotence` it does not check that its output formats
/// to itself.
pub fn format(
    grammar: Grammar,
    query: &str,
    input: &str,
    skip_idempotence: bool,
    tolerate_parsing_errors: bool,
) -> (r: Result<String, FormatError>)
    ensures
        formats_to(grammar, query@, input@, skip_idempotence, tolerate_parsing_errors, r),
        !(r matches Err(FormatError::UTF8(_))),
        skip_idempotence ==> !(r matches Err(FormatError::Idempotency)),
        r is Ok && !ends_with_newline(input@) ==> !ends_with_newline(r->Ok_0@),
        r matches Err(FormatError::Parse { src, err_span: _ }) ==> src@ == input@,
{
    let outcome = run_engine(grammar, query, input, skip_idempotence, tolerate_parsing_errors);
    let ghost o = outcome;
    let r = finish(input, outcome);
    proof {
        if o is Ok {
            lemma_trim_trailing_ends_clean(decode_utf8(o->Ok_0@));
        }
    }
    r
}

/// Formatting formatted text, with the idempotence check, returns it
/// unchanged: `r1` is the result of formatting `input`, which ends with a
/// newline, and `r2` that of formatting the text of `r1` in the same way.
pub proof fn lemma_format_idempotent(
    grammar: Grammar,
    query: Seq<char>,
    input: Seq<char>,
    tolerate_parsing_errors: bool,
    r1: Result<String, FormatError>,
    r2: Result<String, FormatError>,
)
    requires
        ends_with_newline(input),
        formats_to(grammar, query, input, false, tolerate_parsing_errors, r1),
        r1 is Ok,
        formats_to(grammar, query, r1->Ok_0@, false, tolerate_parsing_errors, r2),
    ensures
        r2 is Ok,
        r2->Ok_0@ == r1->Ok_0@,
{
}

} // verus!
