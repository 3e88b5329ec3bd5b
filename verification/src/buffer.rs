//! The executable text buffer, verified against the model in [`crate::model`].

use crate::model::{
    TextModel, default_document, fresh_model, line_breaks_before,
    spec_add_char, spec_backspace, spec_move_cursor, spec_move_line, spec_recount_lines,
};
use vstd::prelude::*;

verus! {

/// The editable text buffer: the document and the cursor state.
///
/// All operations are total: out-of-range moves and a backspace at the very
/// start of the document are absorbed as no-ops, and no operation panics.
pub struct RenderedText {
    current_line: usize,
    lines: usize,
    current_char: usize,
    contents: Vec<char>,
}

impl View for RenderedText {
    type V = TextModel;

    closed spec fn view(&self) -> TextModel {
        TextModel {
            document: self.contents@,
            char_offset: self.current_char as nat,
            line_index: self.current_line as nat,
            line_count: self.lines as nat,
        }
    }
}

impl RenderedText {
    /// The cursor can always be placed anywhere in `[0, len]`.
    #[verifier::type_invariant]
    spec fn inv(self) -> bool {
        self@.wf()
    }

    /// A default buffer: placeholder contents, cursor at the start.
    pub fn new() -> (r: Self)
        ensures
            r@ == fresh_model(default_document()),
    {
        let mut contents: Vec<char> = Vec::new();
        contents.push('H');
        contents.push('e');
        contents.push('l');
        contents.push('l');
        contents.push('o');
        contents.push('W');
        contents.push('o');
        contents.push('r');
        contents.push('l');
        contents.push('d');
        let r = RenderedText { current_line: 0, lines: 0, current_char: 0, contents };
        proof {
            assert(r@.document =~= default_document());
            assert(r@ =~= fresh_model(default_document()));
        }
        r
    }

    /// A buffer over externally supplied text, such as the full contents of
    /// a loaded file; the cursor is reset to the start. The buffer itself
    /// performs no reading: the loader hands it already-decoded text.
    pub fn from_content(content: Vec<char>) -> (r: Self)
        ensures
            r@ == fresh_model(content@),
    {
        let ghost c = content@;
        let r = RenderedText { current_line: 0, lines: 0, current_char: 0, contents: content };
        proof {
            assert(r@ =~= fresh_model(c));
        }
        r
    }

    /// Inserts `input` at the cursor and steps the cursor one to the right.
    pub fn add_char(&mut self, input: char)
        ensures
            final(self)@ == spec_add_char(old(self)@, input),
    {
        proof {
            use_type_invariant(&*self);
        }
        let at: usize = self.current_char;
        let mut doc: Vec<char> = Vec::new();
        self.current_char = 0;
        std::mem::swap(&mut doc, &mut self.contents);
        doc.insert(at, input);
        self.contents = doc;
        // the document just grew, so the old offset has room to its right
        let n: usize = self.contents.len();
        assert(at < n);
        self.current_char = at + 1;
    }

    /// Removes the character just before the cursor and steps the cursor one
    /// to the left; at the very start of the document this is a no-op.
    pub fn backspace(&mut self)
        ensures
            final(self)@ == spec_backspace(old(self)@),
    {
        proof {
            use_type_invariant(&*self);
        }
        if self.current_char > 0 {
            let at: usize = self.current_char - 1;
            let mut doc: Vec<char> = Vec::new();
            self.current_char = 0;
            std::mem::swap(&mut doc, &mut self.contents);
            doc.remove(at);
            self.contents = doc;
            self.current_char = at;
        }
    }

    /// Moves the cursor by `offset` characters. Out-of-range requests are
    /// silently absorbed: a leftward attempt from the very start, a move
    /// past the end of the document, and a move that would land before the
    /// start all leave the buffer unchanged.
    pub fn move_cursor(&mut self, offset: i32)
        ensures
            final(self)@ == spec_move_cursor(old(self)@, offset as int),
    {
        proof {
            use_type_invariant(&*self);
        }
        if self.current_char < 1 && offset < 1 {
            return;
        }
        if offset >= 0 {
            let delta: usize = offset as usize;
            if delta <= self.contents.len() - self.current_char {
                self.current_char = self.current_char + delta;
            }
        } else {
            let magnitude: usize = (-(offset as i64)) as usize;
            if magnitude <= self.current_char {
                self.current_char = self.current_char - magnitude;
            }
        }
    }

    /// Moves the line index by `offset` lines. The line count is refreshed
    /// from the document first, and the guards are then applied against the
    /// fresh count; an out-of-range request still leaves the count
    /// refreshed. Only the line index moves: the character offset stays
    /// where it was.
    pub fn move_line(&mut self, offset: i32)
        ensures
            final(self)@ == spec_move_line(old(self)@, offset as int),
    {
        self.recount_lines();
        proof {
            use_type_invariant(&*self);
        }
        if self.current_line < 1 && offset < 1 {
            return;
        }
        if offset >= 0 {
            let delta: usize = offset as usize;
            if self.current_line <= self.lines && delta <= self.lines - self.current_line {
                self.current_line = self.current_line + delta;
            }
        } else {
            let magnitude: usize = (-(offset as i64)) as usize;
            if magnitude <= self.current_line && self.current_line - magnitude <= self.lines {
                self.current_line = self.current_line - magnitude;
            }
        }
    }

    /// Rescans the document and refreshes the derived line count.
    pub fn recount_lines(&mut self)
        ensures
            final(self)@ == spec_recount_lines(old(self)@),
    {
        proof {
            use_type_invariant(&*self);
        }
        let n: usize = self.contents.len();
        let mut count: usize = 0;
        let mut i: usize = 0;
        while i < n
            invariant
                self.contents@ == old(self).contents@,
                self.current_char == old(self).current_char,
                self.current_line == old(self).current_line,
                self.lines == old(self).lines,
                n == self.contents.len(),
                i <= n,
                count <= i,
                count == line_breaks_before(self.contents@, i as int),
            decreases n - i,
        {
            let c: char = self.contents[i];
            if c == '\n' || (c == '\r' && !(i + 1 < n && self.contents[i + 1] == '\n')) {
                count = count + 1;
            }
            i = i + 1;
        }
        self.lines = count;
    }

    /// The current document text; read-only.
    pub fn contents(&self) -> (r: &Vec<char>)
        ensures
            r@ == self@.document,
    {
        &self.contents
    }

    /// The absolute character offset of the cursor.
    pub fn char_offset(&self) -> (r: usize)
        ensures
            r == self@.char_offset,
    {
        self.current_char
    }

    /// The line the cursor is on, as last established by a line move.
    pub fn line_index(&self) -> (r: usize)
        ensures
            r == self@.line_index,
    {
        self.current_line
    }

    /// The derived line count, as of the last recount.
    pub fn line_count(&self) -> (r: usize)
        ensures
            r == self@.line_count,
    {
        self.lines
    }
}

} // verus!
