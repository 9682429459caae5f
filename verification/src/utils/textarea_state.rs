//! A plain image of a text area: its content and its cursor position.
//!
//! The real text widget lives outside the crate; this type carries the
//! values the state machine reads and the outside widget keeps in sync.

use vstd::prelude::*;

verus! {

/// Content and cursor of a text area, as plain values.
#[derive(Clone)]
pub struct TextAreaState {
    content: String,
    cursor_row: u16,
    cursor_col: u16,
}

impl TextAreaState {
    /// An empty text area with the cursor in the top-left corner.
    pub fn new() -> (r: Self)
        ensures
            r.spec_content() == Seq::<char>::empty(),
            r.spec_cursor_pos() == (0u16, 0u16),
    {
        Self { content: String::new(), cursor_row: 0, cursor_col: 0 }
    }

    /// The buffered content, as the contracts speak of it.
    pub closed spec fn spec_content(&self) -> Seq<char> {
        self.content@
    }

    /// The cursor position, as the contracts speak of it.
    pub closed spec fn spec_cursor_pos(&self) -> (u16, u16) {
        (self.cursor_row, self.cursor_col)
    }

    /// The buffered content.
    pub fn get_content(&self) -> (r: &String)
        ensures
            r@ == self.spec_content(),
    {
        &self.content
    }

    /// Replaces the buffered content.
    pub fn set_content(&mut self, content: String)
        ensures
            final(self).spec_content() == content@,
            final(self).spec_cursor_pos() == old(self).spec_cursor_pos(),
    {
        self.content = content;
    }

    /// The cursor position as (row, column).
    pub fn get_cursor_pos(&self) -> (r: (u16, u16))
        ensures
            r == self.spec_cursor_pos(),
    {
        (self.cursor_row, self.cursor_col)
    }

    /// Moves the cursor to the given (row, column).
    pub fn set_cursor_pos(&mut self, pos: (u16, u16))
        ensures
            final(self).spec_cursor_pos() == pos,
            final(self).spec_content() == old(self).spec_content(),
    {
        self.cursor_row = pos.0;
        self.cursor_col = pos.1;
    }
}

} // verus!
