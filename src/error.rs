//! The formatter's error taxonomy, and how each failure of the formatting
//! engine maps into it.

use vstd::prelude::*;

verus! {

use crate::location::{location_offset, location_span, Span};

/// Why formatting failed.
#[derive(Debug)]
pub enum FormatError {
    /// The input holds a region that the grammar could not interpret; `src` is
    /// the whole input and `err_span` the byte range of that region in it.
    Parse { src: String, err_span: Span },
    /// The formatting query failed to compile or to apply, with a message.
    Query(String),
    /// Formatting the output again did not reproduce it.
    Idempotency,
    /// The engine's output was not valid UTF-8.
    UTF8(std::string::FromUtf8Error),
    /// A failure of the engine of no kind listed above.
    Unknown,
}

/// A failure reported by the formatting engine, one variant per kind of
/// failure the engine has, holding plain values.
#[derive(Debug, PartialEq, Eq)]
pub enum EngineFailure {
    /// The query could not be compiled or applied; `detail` is the
    /// underlying query error, where there is one.
    Query { message: String, detail: Option<String> },
    /// Formatting the output again changed it.
    Idempotence,
    /// Formatting the output again failed to parse it.
    IdempotenceParsing,
    /// An error node of the parse, between two 1-based positions whose
    /// columns count bytes.
    Parsing { start_line: u32, start_column: u32, end_line: u32, end_column: u32 },
    /// An internal failure of the engine.
    Internal,
    /// A pattern of the query matched nothing.
    PatternDoesNotMatch,
    /// Reading input or writing output failed.
    Io,
}

/// The message of a query error: the engine's message, followed by the
/// underlying error where there is one.
pub open spec fn query_message(message: Seq<char>, detail: Option<Seq<char>>) -> Seq<char> {
    match detail {
        None => message,
        Some(d) => message + seq![':', ' '] + d,
    }
}

pub open spec fn detail_view(detail: Option<String>) -> Option<Seq<char>> {
    match detail {
        None => None,
        Some(d) => Some(d@),
    }
}

/// Whether `e` is the error reported for engine failure `f` on input `input`.
pub open spec fn maps_failure(input: Seq<char>, f: EngineFailure, e: FormatError) -> bool {
    match f {
        EngineFailure::Query { message, detail } => e matches FormatError::Query(m) && m@
            == query_message(message@, detail_view(detail)),
        EngineFailure::Idempotence | EngineFailure::IdempotenceParsing => e
            is Idempotency,
        EngineFailure::Parsing { start_line, start_column, end_line, end_column } => {
            let span = location_span(
                input,
                start_line as nat,
                start_column as nat,
                end_line as nat,
                end_column as nat,
            );
            e matches FormatError::Parse { src, err_span } && src@ == input && err_span.offset
                == span.0 && err_span.length == span.1
        },
        EngineFailure::Internal | EngineFailure::PatternDoesNotMatch | EngineFailure::Io => e
            is Unknown,
    }
}

/// Translates a failure of the engine on `input` into a `FormatError`; a
/// parse failure is located by byte offsets into `input`.
pub fn map_failure(input: &str, f: EngineFailure) -> (e: FormatError)
    ensures
        maps_failure(input@, f, e),
{
    match f {
        EngineFailure::Query { message, detail } => {
            let mut m = message;
            match detail {
                None => {},
                Some(d) => {
                    m.append(": ");
                    m.append(d.as_str());
                    proof {
                        reveal_strlit(": ");
                        assert(m@ =~= query_message(message@, Some(d@)));
                    }
                },
            }
            FormatError::Query(m)
        },
        EngineFailure::Idempotence | EngineFailure::IdempotenceParsing => FormatError::Idempotency,
        EngineFailure::Parsing { start_line, start_column, end_line, end_column } => {
            let start = location_offset(input, start_line, start_column);
            let end = location_offset(input, end_line, end_column);
            let length: usize = if end >= start { end - start } else { 0 };
            FormatError::Parse {
                src: input.to_string(),
                err_span: Span { offset: start, length },
            }
        },
        EngineFailure::Internal | EngineFailure::PatternDoesNotMatch | EngineFailure::Io => {
            FormatError::Unknown
        },
    }
}

} // verus!
