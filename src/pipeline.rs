//! The formatting pipeline: compile the query, run the engine, and turn its
//! outcome into the caller's result.

use vstd::prelude::*;

verus! {

use crate::engine::{
    compile_query, compiled_query, formatter_output, outcome_view, query_error, run_formatter,
};
use crate::error::{map_failure, maps_failure, EngineFailure, FormatError};
use crate::text::{
    ends_with_newline, normalize_newline, normalized, string_from_utf8,
    utf8_error_bytes,
};
use topiary_tree_sitter_facade::Language as Grammar;
use vstd::utf8::{decode_utf8, valid_utf8};

/// Indentation of one nesting level in the formatted text.
pub const INDENT: &'static str = "    ";

/// Whether `r` is the result of formatting `input` when the engine's outcome
/// is `outcome`.
pub open spec fn finished(
    input: Seq<char>,
    outcome: Result<Seq<u8>, EngineFailure>,
    r: Result<String, FormatError>,
) -> bool {
    match outcome {
        Err(f) => r is Err && maps_failure(input, f, r->Err_0),
        Ok(bytes) => if valid_utf8(bytes) {
            r is Ok && r->Ok_0@ == normalized(input, decode_utf8(bytes))
        } else {
            r matches Err(FormatError::UTF8(u)) && utf8_error_bytes(u) == bytes
        },
    }
}

/// The engine's outcome on `input`: the query compiled from `query` for
/// `grammar` and run with the library's indentation.
pub open spec fn engine_result(
    grammar: Grammar,
    query: Seq<char>,
    input: Seq<char>,
    skip_idempotence: bool,
    tolerate_parsing_errors: bool,
) -> Result<Seq<u8>, EngineFailure> {
    match query_error(grammar, query) {
        Some(e) => Err(e),
        None => formatter_output(
            grammar,
            compiled_query(grammar, query),
            Some(INDENT@),
            input,
            skip_idempotence,
            tolerate_parsing_errors,
        ),
    }
}

/// Turns the engine's outcome on `input` into the formatter's result: a
/// failure is mapped to a `FormatError`, output is decoded as UTF-8 and given
/// the newline convention of `input`.
pub fn finish(input: &str, outcome: Result<Vec<u8>, EngineFailure>) -> (r: Result<String, FormatError>)
    ensures
        finished(input@, outcome_view(outcome), r),
{
    match outcome {
        Err(f) => Err(map_failure(input, f)),
        Ok(bytes) => match string_from_utf8(bytes) {
            Ok(text) => Ok(normalize_newline(input, text)),
            Err(e) => Err(FormatError::UTF8(e)),
        },
    }
}

/// Compiles `query` for `grammar` and runs the engine on `input`.
pub(crate) fn run_engine(
    grammar: Grammar,
    query: &str,
    input: &str,
    skip_idempotence: bool,
    tolerate_parsing_errors: bool,
) -> (r: Result<Vec<u8>, EngineFailure>)
    ensures
        outcome_view(r) == engine_result(
            grammar,
            query@,
            input@,
            skip_idempotence,
            tolerate_parsing_errors,
        ),
        r is Ok ==> valid_utf8(r->Ok_0@) && ends_with_newline(decode_utf8(r->Ok_0@)),
        skip_idempotence ==> !(r matches Err(EngineFailure::Idempotence)) && !(r matches Err(
            EngineFailure::IdempotenceParsing,
        )),
        r is Ok && !skip_idempotence ==> engine_result(
            grammar,
            query@,
            decode_utf8(r->Ok_0@),
            false,
            tolerate_parsing_errors,
        ) == Ok::<Seq<u8>, EngineFailure>(r->Ok_0@),
{
    let compiled = match compile_query(&grammar, query) {
        Ok(q) => q,
        Err(e) => return Err(e),
    };
    run_formatter(
        input,
        "symon".to_string(),
        compiled,
        grammar,
        Some(INDENT.to_string()),
        skip_idempotence,
        tolerate_parsing_errors,
    )
}

} // verus!
