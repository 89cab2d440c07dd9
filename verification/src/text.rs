//! Conversions between byte offsets and line/column positions.
//!
//! Every conversion counts bytes: a line ends at a newline byte, and a column
//! is a byte distance from the start of its line.

use vstd::prelude::*;
use vstd::string::StringSliceAdditionalSpecFns;

verus! {

/// A zero-based line and column, as the client counts them.
#[derive(Clone, Copy, Debug, PartialEq, Eq, Hash, Structural)]
pub struct Position {
    pub line: u32,
    pub character: u32,
}

/// A pair of positions.
#[derive(Clone, Copy, Debug, PartialEq, Eq, Hash, Structural)]
pub struct Range {
    pub start: Position,
    pub end: Position,
}

pub open spec fn is_newline(b: u8) -> bool {
    b == 10u8
}

/// The number of newline bytes among the first `n` bytes of `text`.
pub open spec fn newlines_before(text: Seq<u8>, n: int) -> nat
    decreases n,
{
    if n <= 0 || n > text.len() {
        0
    } else {
        newlines_before(text, n - 1) + if is_newline(text[n - 1]) {
            1nat
        } else {
            0nat
        }
    }
}

/// The offset at which the line that holds byte `n` starts: one past the last
/// newline byte before `n`, or zero.
pub open spec fn line_start_before(text: Seq<u8>, n: int) -> int
    decreases n,
{
    if n <= 0 || n > text.len() {
        0
    } else if is_newline(text[n - 1]) {
        n
    } else {
        line_start_before(text, n - 1)
    }
}

/// The line of the byte offset `index`; an offset past the end lies on the
/// last line.
pub open spec fn line_of(text: Seq<u8>, index: int) -> nat {
    if index <= text.len() {
        newlines_before(text, index)
    } else {
        newlines_before(text, text.len() as int)
    }
}

/// The column of the byte offset `index`: its distance from the start of its
/// line. An offset past the end is measured from the start of the last line.
pub open spec fn column_of(text: Seq<u8>, index: int) -> int {
    if index <= text.len() {
        index - line_start_before(text, index)
    } else {
        index - line_start_before(text, text.len() as int)
    }
}

pub proof fn lemma_line_start_bounds(text: Seq<u8>, n: int)
    requires
        0 <= n <= text.len(),
    ensures
        0 <= line_start_before(text, n) <= n,
        newlines_before(text, n) <= n,
    decreases n,
{
    if n > 0 {
        lemma_line_start_bounds(text, n - 1);
    }
}

/// The position of the byte offset `index` in `text`. Line and column are
/// cut to 32 bits, as the protocol carries them.
pub fn position_from_index(text: &str, index: usize) -> (p: Position)
    ensures
        p.line == (line_of(text.spec_bytes(), index as int) as usize) as u32,
        p.character == (column_of(text.spec_bytes(), index as int) as usize) as u32,
{
    let bytes = text.as_bytes();
    let n = bytes.len();
    let stop = if index < n {
        index
    } else {
        n
    };
    let mut line: usize = 0;
    let mut line_start: usize = 0;
    let mut i: usize = 0;
    while i < stop
        invariant
            0 <= i <= stop <= n,
            n == bytes@.len(),
            line == newlines_before(bytes@, i as int),
            line_start == line_start_before(bytes@, i as int),
            line_start <= i,
        decreases stop - i,
    {
        proof {
            lemma_line_start_bounds(bytes@, i as int);
        }
        if bytes[i] == 10u8 {
            line = line + 1;
            line_start = i + 1;
        }
        i = i + 1;
    }
    Position {
        line: #[verifier::truncate] (line as u32),
        character: #[verifier::truncate] ((index - line_start) as u32),
    }
}

/// The positions of both ends of the byte range `[start, end)`.
pub fn position_from_range(text: &str, start: usize, end: usize) -> (r: Range)
    ensures
        r.start.line == (line_of(text.spec_bytes(), start as int) as usize) as u32,
        r.start.character == (column_of(text.spec_bytes(), start as int) as usize) as u32,
        r.end.line == (line_of(text.spec_bytes(), end as int) as usize) as u32,
        r.end.character == (column_of(text.spec_bytes(), end as int) as usize) as u32,
{
    Range { start: position_from_index(text, start), end: position_from_index(text, end) }
}

/// The offset at which line `line` starts: one past the `line`-th newline byte
/// found from `from` on, or the length of `text` where it has fewer lines.
pub open spec fn line_offset(text: Seq<u8>, from: int, line: nat) -> int
    decreases text.len() - from,
{
    if from < 0 || from >= text.len() {
        text.len() as int
    } else if line == 0 {
        from
    } else if is_newline(text[from]) {
        line_offset(text, from + 1, (line - 1) as nat)
    } else {
        line_offset(text, from + 1, line)
    }
}

/// The byte offset of `line` and `column`, clipped to the length of `text`.
pub open spec fn offset_of(text: Seq<u8>, line: nat, column: nat) -> int {
    let at = line_offset(text, 0, line) + column;
    if at < text.len() {
        at
    } else {
        text.len() as int
    }
}

/// The byte offset that `line` and `column` name in `text`.
pub fn offset_from_position(text: &str, line: usize, column: usize) -> (at: usize)
    ensures
        at == offset_of(text.spec_bytes(), line as nat, column as nat),
        at <= text.spec_bytes().len(),
{
    let bytes = text.as_bytes();
    let n = bytes.len();
    let mut i: usize = 0;
    let mut left: usize = line;
    while i < n && left > 0
        invariant
            0 <= i <= n,
            n == bytes@.len(),
            line_offset(bytes@, 0, line as nat) == line_offset(bytes@, i as int, left as nat),
        decreases n - i,
    {
        if bytes[i] == 10u8 {
            left = left - 1;
        }
        i = i + 1;
    }
    assert(line_offset(bytes@, i as int, left as nat) == i);
    if column < n - i {
        i + column
    } else {
        n
    }
}

} // verus!
