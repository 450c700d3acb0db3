//! Resolution of the 1-based line/column positions that the parser reports to
//! byte offsets into the formatted source.

use vstd::prelude::*;

verus! {

use vstd::utf8::encode_utf8;

/// A byte range of a source text: where it starts and how many bytes it spans.
#[derive(Clone, Copy, Debug, PartialEq, Eq, Structural)]
pub struct Span {
    pub offset: usize,
    pub length: usize,
}

/// Index of the first character of the 0-based line `line` of `s`, or the
/// length of `s` where `s` has no such line.
pub open spec fn line_start(s: Seq<char>, line: nat) -> nat
    decreases s.len(),
{
    if line == 0 || s.len() == 0 {
        0
    } else if s[0] == '\n' {
        1 + line_start(s.drop_first(), (line - 1) as nat)
    } else {
        1 + line_start(s.drop_first(), line)
    }
}

/// Number of bytes in the UTF-8 encoding of `s`.
pub open spec fn byte_len(s: Seq<char>) -> nat {
    encode_utf8(s).len()
}

/// Byte offset at which the 1-based line `line` of `s` begins; line 0 is read
/// as line 1, and a line past the last one as the end of the text.
pub open spec fn line_start_byte(s: Seq<char>, line: nat) -> nat {
    byte_len(s.take(line_start(s, if line == 0 { 0 } else { (line - 1) as nat }) as int))
}

/// Byte offset of the 1-based position (`line`, `column`) of `s`, where the
/// column counts bytes from the start of the line, as the parser reports it.
/// A position past the end of the text resolves to the end of the text.
pub open spec fn byte_location(s: Seq<char>, line: nat, column: nat) -> nat {
    let start = line_start_byte(s, line);
    let col = if column == 0 { 0 } else { (column - 1) as nat };
    if start + col > byte_len(s) {
        byte_len(s)
    } else {
        start + col
    }
}

/// The span from the byte location of the first position to that of the
/// second; empty where the second does not come after the first.
pub open spec fn location_span(
    s: Seq<char>,
    start_line: nat,
    start_column: nat,
    end_line: nat,
    end_column: nat,
) -> (nat, nat) {
    let start = byte_location(s, start_line, start_column);
    let end = byte_location(s, end_line, end_column);
    (start, if end >= start { (end - start) as nat } else { 0 })
}

pub proof fn lemma_line_start_bounded(s: Seq<char>, line: nat)
    ensures
        line_start(s, line) <= s.len(),
    decreases s.len(),
{
    if line != 0 && s.len() != 0 {
        if s[0] == '\n' {
            lemma_line_start_bounded(s.drop_first(), (line - 1) as nat);
        } else {
            lemma_line_start_bounded(s.drop_first(), line);
        }
    }
}

pub proof fn lemma_byte_len_take(s: Seq<char>, k: int)
    requires
        0 <= k <= s.len(),
    ensures
        byte_len(s.take(k)) <= byte_len(s),
    decreases s.len(),
{
    if k > 0 {
        let t = s.take(k);
        assert(t.drop_first() =~= s.drop_first().take(k - 1));
        lemma_byte_len_take(s.drop_first(), k - 1);
    }
}

/// 0-based line of the character index `i` of `s`: the newlines before it.
pub open spec fn line_of(s: Seq<char>, i: int) -> nat
    decreases i,
{
    if i <= 0 || s.len() == 0 {
        0
    } else {
        (if s[0] == '\n' { 1nat } else { 0nat }) + line_of(s.drop_first(), i - 1)
    }
}

/// Index of the first character of the line that holds index `i` of `s`.
pub open spec fn line_begin(s: Seq<char>, i: int) -> nat
    decreases i,
{
    if i <= 0 || s.len() == 0 {
        0
    } else if s[0] == '\n' || line_of(s.drop_first(), i - 1) > 0 {
        1 + line_begin(s.drop_first(), i - 1)
    } else {
        0
    }
}

/// 0-based column of the character index `i` of `s`, in bytes: the UTF-8
/// length of the characters between the start of its line and it.
pub open spec fn column_of(s: Seq<char>, i: int) -> nat {
    byte_len(s.subrange(line_begin(s, i) as int, i))
}

proof fn lemma_line_begin(s: Seq<char>, i: int)
    requires
        0 <= i <= s.len(),
    ensures
        line_begin(s, i) <= i,
        line_start(s, line_of(s, i)) == line_begin(s, i),
    decreases i,
{
    if i > 0 && s.len() > 0 {
        lemma_line_begin(s.drop_first(), i - 1);
    }
}

proof fn lemma_byte_len_concat(a: Seq<char>, b: Seq<char>)
    ensures
        byte_len(a + b) == byte_len(a) + byte_len(b),
    decreases a.len(),
{
    if a.len() > 0 {
        assert((a + b).drop_first() =~= a.drop_first() + b);
        lemma_byte_len_concat(a.drop_first(), b);
    } else {
        assert(a + b =~= b);
    }
}

proof fn lemma_byte_len_split(s: Seq<char>, k: int, i: int)
    requires
        0 <= k <= i <= s.len(),
    ensures
        byte_len(s.take(i)) == byte_len(s.take(k)) + byte_len(s.subrange(k, i)),
{
    assert(s.take(i) =~= s.take(k) + s.subrange(k, i));
    lemma_byte_len_concat(s.take(k), s.subrange(k, i));
}

/// A position resolves to its own byte offset: the character index `i` of
/// `s`, given as its 1-based line and its 1-based column in bytes, resolves
/// to the number of bytes before it, whatever multi-byte characters precede
/// it and however long the lines before it are.
pub proof fn lemma_position_resolves(s: Seq<char>, i: int)
    requires
        0 <= i <= s.len(),
    ensures
        byte_location(s, line_of(s, i) + 1, column_of(s, i) + 1) == byte_len(s.take(i)),
{
    lemma_line_begin(s, i);
    lemma_byte_len_split(s, line_begin(s, i) as int, i);
    lemma_byte_len_take(s, i);
}

/// A region resolves to its own byte range: from the character index `a` to
/// the character index `b` of `s`, each given as its 1-based line and
/// 1-based byte column and resolved on its own, the span starts at the bytes
/// before `a` and spans the bytes from `a` to `b`, also where the region runs
/// over several lines.
pub proof fn lemma_region_resolves(s: Seq<char>, a: int, b: int)
    requires
        0 <= a <= b <= s.len(),
    ensures
        location_span(s, line_of(s, a) + 1, column_of(s, a) + 1, line_of(s, b) + 1, column_of(s, b) + 1)
            == (byte_len(s.take(a)), byte_len(s.subrange(a, b))),
{
    lemma_position_resolves(s, a);
    lemma_position_resolves(s, b);
    lemma_byte_len_split(s, a, b);
}

/// Relies on miette's `SourceOffset::from_location`: with column 1 it walks
/// the characters of the text, counting newlines, and stops at the first
/// character of line `line` (1-based), or at the end of the text; the offset is
/// the UTF-8 length of the characters passed.
#[verifier::external_body]
fn miette_line_start(text: &str, line: usize) -> (r: usize)
    ensures
        r == line_start_byte(text@, line as nat),
{
    miette::SourceOffset::from_location(text, line, 1).offset()
}

/// Byte offset into `text` of the 1-based position (`line`, `column`).
pub fn location_offset(text: &str, line: u32, column: u32) -> (r: usize)
    ensures
        r == byte_location(text@, line as nat, column as nat),
{
    let len = text.as_bytes().len();
    let line_index = line as usize;
    assert(line_index as nat == line as nat);
    let start = miette_line_start(text, line_index);
    proof {
        lemma_line_start_bounded(text@, if line == 0 { 0 } else { (line - 1) as nat });
        lemma_byte_len_take(text@, line_start(text@, if line == 0 { 0 } else { (line - 1) as nat }) as int);
    }
    let col: usize = if column == 0 { 0 } else { (column - 1) as usize };
    if col > len - start {
        len
    } else {
        start + col
    }
}

} // verus!
