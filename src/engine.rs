//! The formatting engine: topiary's query compiler and formatter, reached
//! through the wrappers below.

use vstd::prelude::*;

verus! {

use crate::error::EngineFailure;
use crate::error::EngineFailure::{
    Idempotence, IdempotenceParsing, Internal, Io, Parsing, PatternDoesNotMatch, Query,
};
use crate::text::ends_with_newline;
use topiary_core::FormatterError as F;
use topiary_core::{formatter, Language, Operation, TopiaryQuery};
use topiary_tree_sitter_facade::Language as Grammar;
use vstd::utf8::{decode_utf8, valid_utf8};

#[verifier::external_type_specification]
#[verifier::external_body]
pub struct ExGrammar(topiary_tree_sitter_facade::Language);

#[verifier::external_type_specification]
#[verifier::external_body]
pub struct ExTopiaryQuery(topiary_core::TopiaryQuery);

#[verifier::external_type_specification]
#[verifier::external_body]
pub struct ExFormatterError(topiary_core::FormatterError);

/// The failure that topiary reports when compiling the query text `query`
/// for `grammar`; `None` where the query compiles.
pub uninterp spec fn query_error(grammar: Grammar, query: Seq<char>) -> Option<EngineFailure>;

/// The query that topiary compiles from the query text `query` for `grammar`.
pub uninterp spec fn compiled_query(grammar: Grammar, query: Seq<char>) -> TopiaryQuery;

/// What topiary's formatter, in its formatting mode, produces for `input`
/// with the compiled `query` over `grammar`, indenting by `indent`: the bytes
/// it writes, or its failure.
pub uninterp spec fn formatter_output(
    grammar: Grammar,
    query: TopiaryQuery,
    indent: Option<Seq<char>>,
    input: Seq<char>,
    skip_idempotence: bool,
    tolerate_parsing_errors: bool,
) -> Result<Seq<u8>, EngineFailure>;

pub open spec fn indent_view(indent: Option<String>) -> Option<Seq<char>> {
    match indent {
        None => None,
        Some(s) => Some(s@),
    }
}

pub open spec fn outcome_view(r: Result<Vec<u8>, EngineFailure>) -> Result<Seq<u8>, EngineFailure> {
    match r {
        Ok(b) => Ok(b@),
        Err(e) => Err(e),
    }
}

/// Relies on `topiary_core::TopiaryQuery::new`: compiles the query text
/// against the grammar, or fails with a query error; the variants of
/// topiary's error are moved into an `EngineFailure`, the query error
/// carried as its text.
#[verifier::external_body]
pub(crate) fn compile_query(grammar: &Grammar, query: &str) -> (r: Result<TopiaryQuery, EngineFailure>)
    ensures
        r is Ok ==> query_error(*grammar, query@) is None && r->Ok_0 == compiled_query(
            *grammar,
            query@,
        ),
        r is Err ==> query_error(*grammar, query@) == Some(r->Err_0),
        r is Err ==> r->Err_0 is Query || r->Err_0 is Internal,
{
    match TopiaryQuery::new(grammar, query) {
        Ok(q) => Ok(q),
        Err(F::Query(message, d)) => Err(Query { message, detail: d.map(|d| d.to_string()) }),
        Err(_) => Err(Internal),
    }
}

/// Relies on `topiary_core::formatter` in its formatting mode, on the
/// language made of `name`, `query`, `grammar` and `indent`. On success it
/// has written the rendered text, a `String` that it ends with a newline, and
/// nothing else. Unless `skip_idempotence` is set, it has formatted that text
/// again and found it unchanged, so formatting the text with the same
/// settings gives it back; with `skip_idempotence` it runs no such check and
/// reports none of its failures. The variants of topiary's error are moved
/// into an `EngineFailure`, the query error carried as its text.
#[verifier::external_body]
pub(crate) fn run_formatter(
    input: &str,
    name: String,
    query: TopiaryQuery,
    grammar: Grammar,
    indent: Option<String>,
    skip_idempotence: bool,
    tolerate_parsing_errors: bool,
) -> (r: Result<Vec<u8>, EngineFailure>)
    ensures
        outcome_view(r) == formatter_output(
            grammar,
            query,
            indent_view(indent),
            input@,
            skip_idempotence,
            tolerate_parsing_errors,
        ),
        r is Ok ==> valid_utf8(r->Ok_0@) && ends_with_newline(decode_utf8(r->Ok_0@)),
        r is Ok && !skip_idempotence ==> formatter_output(
            grammar,
            query,
            indent_view(indent),
            decode_utf8(r->Ok_0@),
            false,
            tolerate_parsing_errors,
        ) == Ok::<Seq<u8>, EngineFailure>(r->Ok_0@),
        skip_idempotence ==> !(r matches Err(EngineFailure::Idempotence)) && !(r matches Err(
            EngineFailure::IdempotenceParsing,
        )),
{
    let mut out = Vec::new();
    match formatter(&mut input.as_bytes(), &mut out, &Language { name, query, grammar, indent }, Operation::Format {
        skip_idempotence,
        tolerate_parsing_errors,
    }) {
        Ok(()) => Ok(out),
        Err(F::Query(message, d)) => Err(Query { message, detail: d.map(|d| d.to_string()) }),
        Err(F::Idempotence) => Err(Idempotence),
        Err(F::IdempotenceParsing(_)) => Err(IdempotenceParsing),
        Err(F::Parsing { start_line, start_column, end_line, end_column }) =>
            Err(Parsing { start_line, start_column, end_line, end_column }),
        Err(F::Internal(..)) => Err(Internal),
        Err(F::PatternDoesNotMatch) => Err(PatternDoesNotMatch),
        Err(F::Io(_)) => Err(Io),
    }
}

} // verus!
