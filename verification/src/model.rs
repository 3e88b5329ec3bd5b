//! The mathematical model of the text buffer and of each of its operations.
//!
//! Every executable operation on the buffer is specified as a pure function
//! from model to model, so that a caller can follow the exact state of the
//! buffer through any sequence of commands.

use vstd::prelude::*;

verus! {

/// Model of the buffer: the document as a sequence of characters, the
/// absolute cursor offset, and the line bookkeeping.
///
/// `line_index` and `line_count` are derived, deliberately stale values:
/// they are refreshed only by a line move (or an explicit recount), never by
/// a character edit.
#[verifier::ext_equal]
pub ghost struct TextModel {
    pub document: Seq<char>,
    pub char_offset: nat,
    pub line_index: nat,
    pub line_count: nat,
}

impl TextModel {
    /// Structural invariant: the cursor never leaves the document. An offset
    /// equal to the length means "after the last character".
    pub open spec fn wf(self) -> bool {
        self.char_offset <= self.document.len()
    }
}

/// The placeholder contents of a default buffer.
pub open spec fn default_document() -> Seq<char> {
    seq!['H', 'e', 'l', 'l', 'o', 'W', 'o', 'r', 'l', 'd']
}

/// A fresh model over the given document: cursor at the start, line
/// bookkeeping zeroed (stale until the first line move).
pub open spec fn fresh_model(document: Seq<char>) -> TextModel {
    TextModel { document, char_offset: 0, line_index: 0, line_count: 0 }
}

/// Whether position `i` ends a line: a line feed, or a carriage return that
/// does not open a carriage-return/line-feed pair. Counting terminators this
/// way treats the three common line-ending conventions alike.
pub open spec fn line_break_at(s: Seq<char>, i: int) -> bool {
    ||| s[i] == '\n'
    ||| (s[i] == '\r' && !(i + 1 < s.len() && s[i + 1] == '\n'))
}

/// The number of line breaks among the first `n` positions of `s`.
pub open spec fn line_breaks_before(s: Seq<char>, n: int) -> nat
    decreases n,
{
    if n <= 0 {
        0
    } else {
        line_breaks_before(s, n - 1) + (if line_break_at(s, n - 1) {
            1nat
        } else {
            0nat
        })
    }
}

/// The number of line breaks in the whole document.
pub open spec fn line_break_count(s: Seq<char>) -> nat {
    line_breaks_before(s, s.len() as int)
}

/// Inserting one character at the cursor, then stepping the cursor right.
/// Insertion needs no guard: the cursor offset is always a legal insertion
/// point, the end of the document included.
pub open spec fn spec_add_char(m: TextModel, c: char) -> TextModel {
    TextModel {
        document: m.document.insert(m.char_offset as int, c),
        char_offset: m.char_offset + 1,
        ..m
    }
}

/// Removing the character just before the cursor, stepping the cursor left;
/// at the very start of the document nothing happens. The cursor moves only
/// together with a removal, never alone.
pub open spec fn spec_backspace(m: TextModel) -> TextModel {
    if m.char_offset > 0 {
        TextModel {
            document: m.document.remove(m.char_offset - 1),
            char_offset: (m.char_offset - 1) as nat,
            ..m
        }
    } else {
        m
    }
}

/// Whether a move of the cursor by `delta` characters is in bounds. Any
/// leftward attempt is blocked while the cursor sits at the very start, a
/// move may not pass the end of the document, and the target position may
/// not be negative. Out-of-range requests are absorbed silently rather than
/// reported: the buffer has no channel back to the caller.
pub open spec fn cursor_move_allowed(m: TextModel, delta: int) -> bool {
    &&& !(m.char_offset < 1 && delta < 1)
    &&& m.char_offset + delta <= m.document.len()
    &&& m.char_offset + delta >= 0
}

/// Moving the cursor by `delta` characters, a no-op when out of range.
pub open spec fn spec_move_cursor(m: TextModel, delta: int) -> TextModel {
    if cursor_move_allowed(m, delta) {
        TextModel { char_offset: (m.char_offset + delta) as nat, ..m }
    } else {
        m
    }
}

/// Refreshing the derived line count from the document.
pub open spec fn spec_recount_lines(m: TextModel) -> TextModel {
    TextModel { line_count: line_break_count(m.document), ..m }
}

/// The guard pattern of `cursor_move_allowed`, applied to the line index
/// against the line count.
pub open spec fn line_move_allowed(m: TextModel, delta: int) -> bool {
    &&& !(m.line_index < 1 && delta < 1)
    &&& m.line_index + delta <= m.line_count
    &&& m.line_index + delta >= 0
}

/// Moving by `delta` lines: the line count is refreshed from the document
/// first, and the guards are applied against the fresh count. Only the line
/// index moves; the character offset stays where it was.
pub open spec fn spec_move_line(m: TextModel, delta: int) -> TextModel {
    let r = spec_recount_lines(m);
    if line_move_allowed(r, delta) {
        TextModel { line_index: (r.line_index + delta) as nat, ..r }
    } else {
        r
    }
}

} // verus!
