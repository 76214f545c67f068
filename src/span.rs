use vstd::prelude::*;
use vstd::string::StringSliceAdditionalSpecFns;

verus! {

/// A position reported by the host: a 1-based line and a 1-based character
/// position on that line.
///
/// Line `0` together with position `0` is the "absent" marker; position `0` on a
/// present line stands for the beginning of that line.
#[derive(Clone, Copy, Debug, PartialEq, Eq, Structural)]
pub struct Position {
    pub line: usize,
    pub pos: usize,
}

impl Position {
    /// The absent position.
    pub fn none() -> (r: Position)
        ensures
            r.is_none_spec(),
    {
        Position { line: 0, pos: 0 }
    }

    /// A position at `line` and character position `pos`.
    pub fn new(line: usize, pos: usize) -> (r: Position)
        ensures
            r.line == line,
            r.pos == pos,
    {
        Position { line, pos }
    }

    pub open spec fn is_none_spec(&self) -> bool {
        self.line == 0 && self.pos == 0
    }

    /// Whether this is the absent position.
    #[verifier::when_used_as_spec(is_none_spec)]
    pub fn is_none(&self) -> (r: bool)
        ensures
            r == self.is_none_spec(),
    {
        self.line == 0 && self.pos == 0
    }

    /// Zero-based index of the line (an absent line counts as the first).
    pub open spec fn line_index(&self) -> int {
        if self.line == 0 {
            0
        } else {
            self.line - 1
        }
    }

    /// Zero-based index of the column (the beginning of a line counts as the first column).
    pub open spec fn column_index(&self) -> int {
        if self.pos == 0 {
            0
        } else {
            self.pos - 1
        }
    }
}

/// A contiguous segment of source code.
///
/// `start` and `end` are byte offsets into the source, half-open `[start, end)`;
/// `line` and `column` are the human-readable anchor of the segment.
#[derive(Clone, Copy, Debug, PartialEq, Eq, Structural)]
pub struct Span {
    pub start: usize,
    pub end: usize,
    pub line: usize,
    pub column: usize,
}

/// The code unit `\n`.
pub const NEWLINE: u8 = 10;

/// A value clamped to the range of `usize`.
pub open spec fn clamp(x: int) -> usize {
    if x > usize::MAX {
        usize::MAX
    } else if x < 0 {
        0
    } else {
        x as usize
    }
}

/// Offset of the first newline at or after `i`, or the length of `b` if there is none.
pub open spec fn next_newline(b: Seq<u8>, i: int) -> int
    decreases b.len() - i,
{
    if i >= b.len() || i < 0 {
        b.len() as int
    } else if b[i] == NEWLINE {
        i
    } else {
        next_newline(b, i + 1)
    }
}

/// Offset reached from `i` by stepping over `k` lines, each counted with one
/// byte for its line break; stepping stops at the end of the text, and the last
/// line counts its line break even where the text has none.
pub open spec fn skip_lines(b: Seq<u8>, i: int, k: nat) -> int
    decreases k,
{
    if k == 0 || i >= b.len() {
        i
    } else {
        skip_lines(b, next_newline(b, i) + 1, (k - 1) as nat)
    }
}

/// Byte offset at which the zero-based line `line_index` starts: the sum of the
/// lengths of all lines before it, plus one for each line break.
pub open spec fn line_start(b: Seq<u8>, line_index: int) -> int {
    skip_lines(b, 0, if line_index < 0 {
        0
    } else {
        line_index as nat
    })
}

/// Byte offset at which the zero-based line `line_index` ends, excluding its line
/// break; a line past the end of the text is empty.
pub open spec fn line_end(b: Seq<u8>, line_index: int) -> int {
    let s = line_start(b, line_index);
    if s < b.len() {
        next_newline(b, s)
    } else {
        s
    }
}

/// Byte offset of a position: the start of its line plus its column index.
pub open spec fn byte_offset(b: Seq<u8>, p: Position) -> usize {
    clamp(line_start(b, p.line_index()) + p.column_index())
}

/// The span from a present position to the end of its line; the zero span for the
/// absent position.
pub open spec fn span_at(b: Seq<u8>, p: Position) -> Span {
    if p.is_none() {
        Span { start: 0, end: 0, line: 0, column: 0 }
    } else {
        Span {
            start: byte_offset(b, p),
            end: clamp(line_end(b, p.line_index())),
            line: p.line,
            column: p.pos,
        }
    }
}

/// The span between two positions, anchored at the first.
pub open spec fn span_between(b: Seq<u8>, start: Position, end: Position, anchor: Position) -> Span {
    Span {
        start: byte_offset(b, start),
        end: byte_offset(b, end),
        line: anchor.line,
        column: anchor.pos,
    }
}

/// Offset of the first newline at or after `i` in `b`, or `b.len()`.
fn find_newline(b: &[u8], i: usize) -> (r: usize)
    requires
        i <= b@.len(),
    ensures
        r == next_newline(b@, i as int),
        i <= r <= b@.len(),
{
    let mut j: usize = i;
    while j < b.len() && b[j] != NEWLINE
        invariant
            i <= j <= b@.len(),
            next_newline(b@, i as int) == next_newline(b@, j as int),
        decreases b@.len() - j,
    {
        j = j + 1;
    }
    j
}

/// Where the zero-based line `k` starts. The result is `(offset, past)`, standing for
/// `offset + 1` where `past` holds: the text has fewer lines and does not end with a
/// line break.
fn find_line_start(b: &[u8], k: usize) -> (r: (usize, bool))
    ensures
        r.0 + (if r.1 {
            1int
        } else {
            0int
        }) == line_start(b@, k as int),
        r.0 <= b@.len(),
        r.1 ==> r.0 == b@.len(),
{
    let mut i: usize = 0;
    let mut rem: usize = k;
    while rem > 0 && i < b.len()
        invariant
            i <= b@.len(),
            rem <= k,
            line_start(b@, k as int) == skip_lines(b@, i as int, rem as nat),
        decreases rem,
    {
        let nl = find_newline(b, i);
        if nl == b.len() {
            assert(skip_lines(b@, nl + 1, (rem - 1) as nat) == nl + 1);
            return (nl, true);
        }
        i = nl + 1;
        rem = rem - 1;
    }
    (i, false)
}

/// Byte offset of `pos` in `script`: the lengths of the lines before its line, each
/// with its line break, plus its column index. An absent position gives `0`.
pub fn pos_to_byte(script: &str, pos: &Position) -> (r: usize)
    ensures
        r == byte_offset(script.spec_bytes(), *pos),
{
    let b = script.as_bytes();
    let line_index: usize = if pos.line == 0 {
        0
    } else {
        pos.line - 1
    };
    let column_index: usize = if pos.pos == 0 {
        0
    } else {
        pos.pos - 1
    };
    let (offset, past) = find_line_start(b, line_index);
    let base: usize = if past {
        // `offset` is the length of the text, so the column is added to one past it.
        if column_index == usize::MAX {
            return usize::MAX;
        }
        column_index + 1
    } else {
        column_index
    };
    if offset > usize::MAX - base {
        usize::MAX
    } else {
        offset + base
    }
}

/// Byte offset at which the zero-based line `line_index` of `script` ends.
fn line_end_offset(b: &[u8], line_index: usize) -> (r: usize)
    ensures
        r == clamp(line_end(b@, line_index as int)),
{
    let (offset, past) = find_line_start(b, line_index);
    if past {
        if offset == usize::MAX {
            usize::MAX
        } else {
            offset + 1
        }
    } else if offset < b.len() {
        find_newline(b, offset)
    } else {
        offset
    }
}

impl Span {
    /// Creates a new `Span` from byte offsets, line, and column.
    pub fn new(start: usize, end: usize, line: usize, column: usize) -> (r: Span)
        ensures
            r == (Span { start, end, line, column }),
    {
        Span { start, end, line, column }
    }

    /// Returns the starting byte offset of this span.
    pub fn start(&self) -> (r: usize)
        ensures
            r == self.start,
    {
        self.start
    }

    /// Returns the ending byte offset (exclusive) of this span.
    pub fn end(&self) -> (r: usize)
        ensures
            r == self.end,
    {
        self.end
    }

    /// Returns the line number (1-based) of this span.
    pub fn line(&self) -> (r: usize)
        ensures
            r == self.line,
    {
        self.line
    }

    /// Returns the column number (1-based) of this span.
    pub fn column(&self) -> (r: usize)
        ensures
            r == self.column,
    {
        self.column
    }

    /// The span from `pos` to the end of its line in `script`; the zero span
    /// `{0, 0, 0, 0}` when `pos` is absent.
    pub fn from_pos(script: &str, pos: &Position) -> (r: Span)
        ensures
            r == span_at(script.spec_bytes(), *pos),
    {
        if pos.is_none() {
            return Span { start: 0, end: 0, line: 0, column: 0 };
        }
        let line_index: usize = if pos.line == 0 {
            0
        } else {
            pos.line - 1
        };
        let start = pos_to_byte(script, pos);
        let end = line_end_offset(script.as_bytes(), line_index);
        Span { start, end, line: pos.line, column: pos.pos }
    }

    /// The span between the positions `start` and `end`, anchored at `start`.
    pub fn from_rhai_start_end_pos(script: &str, start: &Position, end: &Position) -> (r: Span)
        ensures
            r == span_between(script.spec_bytes(), *start, *end, *start),
    {
        Span::from_rhai_span(script, start, end, start)
    }

    /// The span between the positions `start` and `end`, anchored at `pos`.
    pub fn from_rhai_span(script: &str, start: &Position, end: &Position, pos: &Position) -> (r: Span)
        ensures
            r == span_between(script.spec_bytes(), *start, *end, *pos),
    {
        let start_byte = pos_to_byte(script, start);
        let end_byte = pos_to_byte(script, end);
        Span { start: start_byte, end: end_byte, line: pos.line, column: pos.pos }
    }
}

} // verus!
