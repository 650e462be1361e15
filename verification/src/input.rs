//! The line being typed: characters and a cursor between them.

use vstd::prelude::*;
use crate::text::{common_prefix_len, matching_prefix_len, same_chars, string_of_range};

verus! {

/// The input line as plain values.
pub struct InputModel {
    /// The characters typed so far.
    pub text: Seq<char>,
    /// The position before which the next character goes.
    pub cursor: int,
}

/// The cursor lies within the text or just behind it.
pub open spec fn input_wf(m: InputModel) -> bool {
    0 <= m.cursor <= m.text.len()
}

/// The empty line.
pub open spec fn input_empty() -> InputModel {
    InputModel { text: Seq::empty(), cursor: 0 }
}

/// `c` goes in at the cursor, and the cursor moves behind it.
pub open spec fn input_inserted(m: InputModel, c: char) -> InputModel {
    InputModel { text: m.text.insert(m.cursor, c), cursor: m.cursor + 1 }
}

/// The character left of the cursor goes, and the cursor follows; at the
/// start of the line nothing changes.
pub open spec fn input_deleted_before(m: InputModel) -> InputModel {
    if m.cursor > 0 {
        InputModel { text: m.text.remove(m.cursor - 1), cursor: m.cursor - 1 }
    } else {
        m
    }
}

/// The character under the cursor goes; behind the last character nothing
/// changes.
pub open spec fn input_deleted_at(m: InputModel) -> InputModel {
    if m.cursor < m.text.len() {
        InputModel { text: m.text.remove(m.cursor), cursor: m.cursor }
    } else {
        m
    }
}

/// The cursor one to the left, stopping at the start.
pub open spec fn input_moved_left(m: InputModel) -> InputModel {
    if m.cursor > 0 {
        InputModel { cursor: m.cursor - 1, ..m }
    } else {
        m
    }
}

/// The cursor one to the right, stopping behind the last character.
pub open spec fn input_moved_right(m: InputModel) -> InputModel {
    if m.cursor < m.text.len() {
        InputModel { cursor: m.cursor + 1, ..m }
    } else {
        m
    }
}

/// The text left of the cursor.
pub open spec fn before_cursor(m: InputModel) -> Seq<char> {
    m.text.take(m.cursor)
}

/// The character under the cursor, if the cursor is not behind the text.
pub open spec fn under_cursor(m: InputModel) -> Option<char> {
    if m.cursor < m.text.len() {
        Some(m.text[m.cursor])
    } else {
        None
    }
}

/// The text right of the character under the cursor.
pub open spec fn after_cursor(m: InputModel) -> Seq<char> {
    if m.cursor < m.text.len() {
        m.text.skip(m.cursor + 1)
    } else {
        Seq::empty()
    }
}

/// A text buffer addressed by a cursor.
#[derive(Debug)]
pub struct InputBuffer {
    text: Vec<char>,
    cursor: usize,
}

impl View for InputBuffer {
    type V = InputModel;

    closed spec fn view(&self) -> InputModel {
        InputModel { text: self.text@, cursor: self.cursor as int }
    }
}

impl InputBuffer {
    /// Validity of the buffer.
    pub open spec fn wf(&self) -> bool {
        input_wf(self@)
    }

    /// The empty line.
    pub fn new() -> (b: Self)
        ensures
            b.wf(),
            b@ == input_empty(),
    {
        InputBuffer { text: Vec::new(), cursor: 0 }
    }

    /// The characters typed so far.
    pub fn text(&self) -> (t: &Vec<char>)
        ensures
            t@ == self@.text,
    {
        &self.text
    }

    /// The cursor's position.
    pub fn cursor(&self) -> (c: usize)
        ensures
            c == self@.cursor,
    {
        self.cursor
    }

    /// The number of characters typed so far.
    pub fn len(&self) -> (n: usize)
        ensures
            n == self@.text.len(),
    {
        self.text.len()
    }

    /// Inserts `c` at the cursor and moves the cursor behind it.
    pub fn insert(&mut self, c: char)
        requires
            old(self).wf(),
        ensures
            final(self).wf(),
            final(self)@ == input_inserted(old(self)@, c),
    {
        self.text.insert(self.cursor, c);
        assert(self.cursor < self.text.len());
        self.cursor += 1;
    }

    /// Removes the character left of the cursor, if there is one.
    pub fn delete_before(&mut self)
        requires
            old(self).wf(),
        ensures
            final(self).wf(),
            final(self)@ == input_deleted_before(old(self)@),
    {
        if self.cursor > 0 {
            self.text.remove(self.cursor - 1);
            self.cursor -= 1;
        }
    }

    /// Removes the character under the cursor, if there is one.
    pub fn delete_at(&mut self)
        requires
            old(self).wf(),
        ensures
            final(self).wf(),
            final(self)@ == input_deleted_at(old(self)@),
    {
        if self.cursor < self.text.len() {
            self.text.remove(self.cursor);
        }
    }

    /// Moves the cursor one to the left, if it is not at the start.
    pub fn move_left(&mut self)
        requires
            old(self).wf(),
        ensures
            final(self).wf(),
            final(self)@ == input_moved_left(old(self)@),
    {
        if self.cursor > 0 {
            self.cursor -= 1;
        }
    }

    /// Moves the cursor one to the right, if a character is under it.
    pub fn move_right(&mut self)
        requires
            old(self).wf(),
        ensures
            final(self).wf(),
            final(self)@ == input_moved_right(old(self)@),
    {
        if self.cursor < self.text.len() {
            self.cursor += 1;
        }
    }

    /// Empties the line.
    pub fn clear(&mut self)
        ensures
            final(self).wf(),
            final(self)@ == input_empty(),
    {
        self.text.clear();
        self.cursor = 0;
    }

    /// The line in three parts, for a display that marks the cursor: the text
    /// left of the cursor, the character under it, and the text right of
    /// that character.
    pub fn split_at_cursor(&self) -> (parts: (String, Option<char>, String))
        requires
            self.wf(),
        ensures
            parts.0@ == before_cursor(self@),
            parts.1 == under_cursor(self@),
            parts.2@ == after_cursor(self@),
    {
        let before = string_of_range(&self.text, 0, self.cursor);
        if self.cursor < self.text.len() {
            let after = string_of_range(&self.text, self.cursor + 1, self.text.len());
            (before, Some(self.text[self.cursor]), after)
        } else {
            (before, None, String::new())
        }
    }

    /// Whether the line is exactly `word`.
    pub fn matches(&self, word: &Vec<char>) -> (same: bool)
        ensures
            same == (self@.text == word@),
    {
        same_chars(&self.text, word)
    }

    /// The number of leading characters that the line shares with `word`.
    pub fn prefix_credit(&self, word: &Vec<char>) -> (n: usize)
        ensures
            n == common_prefix_len(self@.text, word@),
    {
        matching_prefix_len(&self.text, word)
    }
}

} // verus!
