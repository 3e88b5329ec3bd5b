//! Laws relating the buffer's operations, stated and proved over the model.

use crate::model::{
    TextModel, line_break_count, line_move_allowed, spec_add_char,
    spec_backspace, spec_move_cursor, spec_move_line, spec_recount_lines,
};
use vstd::prelude::*;

verus! {

/// The model after inserting each character of `cs` at the cursor, in order.
pub open spec fn apply_insertions(m: TextModel, cs: Seq<char>) -> TextModel
    decreases cs.len(),
{
    if cs.len() == 0 {
        m
    } else {
        apply_insertions(spec_add_char(m, cs[0]), cs.drop_first())
    }
}

/// Any sequence of insertions grows the document by exactly the number of
/// characters inserted and advances the cursor by the same amount, and the
/// cursor stays inside the document throughout.
pub proof fn lemma_insertions_grow(m: TextModel, cs: Seq<char>)
    requires
        m.wf(),
    ensures
        apply_insertions(m, cs).document.len() == m.document.len() + cs.len(),
        apply_insertions(m, cs).char_offset == m.char_offset + cs.len(),
        apply_insertions(m, cs).wf(),
    decreases cs.len(),
{
    if cs.len() > 0 {
        m.document.insert_ensures(m.char_offset as int, cs[0]);
        lemma_insertions_grow(spec_add_char(m, cs[0]), cs.drop_first());
    }
}

/// A backspace at the very start of the document changes nothing, whatever
/// the rest of the state looks like.
pub proof fn lemma_backspace_at_start_is_noop(m: TextModel)
    requires
        m.char_offset == 0,
    ensures
        spec_backspace(m) == m,
{
}

/// Inserting a character and immediately backspacing restores the original
/// document and cursor exactly, for any character and any valid offset.
pub proof fn lemma_insert_backspace_round_trip(m: TextModel, c: char)
    requires
        m.wf(),
    ensures
        spec_backspace(spec_add_char(m, c)) == m,
{
    let i = m.char_offset as int;
    m.document.insert_ensures(i, c);
    m.document.insert(i, c).remove_ensures(i);
    assert(m.document.insert(i, c).remove(i) =~= m.document);
    assert(spec_backspace(spec_add_char(m, c)) =~= m);
}

/// A cursor move past the end of the document, or a leftward attempt from
/// the very start, leaves the whole state unchanged.
pub proof fn lemma_cursor_move_out_of_range_is_noop(m: TextModel, delta: int)
    requires
        m.char_offset + delta > m.document.len() || (m.char_offset < 1 && delta < 1),
    ensures
        spec_move_cursor(m, delta) == m,
{
}

/// A line move always refreshes the line count from the document before its
/// guards are applied: after any line move, blocked or not, the count equals
/// the number of line breaks in the document, and neither the document nor
/// the character offset has moved.
pub proof fn lemma_line_move_recounts(m: TextModel, delta: int)
    ensures
        spec_move_line(m, delta).line_count == line_break_count(m.document),
        spec_move_line(m, delta).document == m.document,
        spec_move_line(m, delta).char_offset == m.char_offset,
{
}

/// Every operation keeps the cursor inside the document.
pub proof fn lemma_operations_preserve_wf(m: TextModel, c: char, delta: int)
    requires
        m.wf(),
    ensures
        spec_add_char(m, c).wf(),
        spec_backspace(m).wf(),
        spec_move_cursor(m, delta).wf(),
        spec_move_line(m, delta).wf(),
        spec_recount_lines(m).wf(),
{
    m.document.insert_ensures(m.char_offset as int, c);
    if m.char_offset > 0 {
        m.document.remove_ensures(m.char_offset - 1);
    }
}

/// A line move that passes the guards lands the line index inside
/// `[0, line_count]` for the freshly recomputed count.
pub proof fn lemma_allowed_line_move_lands_in_range(m: TextModel, delta: int)
    requires
        line_move_allowed(spec_recount_lines(m), delta),
    ensures
        spec_move_line(m, delta).line_index <= spec_move_line(m, delta).line_count,
{
}

} // verus!
