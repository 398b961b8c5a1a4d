//! A line of text that is being entered. Its cursor counts characters, so that nothing is ever cut
//! inside one.
use vstd::prelude::*;
use vstd::string::StrSliceExecFns;
use vstd::utf8::encode_utf8;
use crate::text;

verus! {

/// A line of text that is being entered.
#[derive(Debug)]
pub struct TextInput {
    buffer: String,
    /// How many characters stand in front of the cursor.
    cursor: usize,
}

/// A line of text and the place of the cursor in it.
#[verifier::ext_equal]
pub struct InputModel {
    pub text: Seq<char>,
    pub cursor: int,
}

impl View for TextInput {
    type V = InputModel;

    closed spec fn view(&self) -> InputModel {
        InputModel { text: self.buffer@, cursor: self.cursor as int }
    }
}

impl InputModel {
    /// The cursor stands in the text or at its end.
    pub open spec fn wf(self) -> bool {
        0 <= self.cursor <= self.text.len()
    }

    /// The line with a character put in at the cursor; control characters are not taken.
    pub open spec fn inserted(self, c: char) -> InputModel {
        if text::is_control(c) {
            self
        } else {
            InputModel { text: self.text.insert(self.cursor, c), cursor: self.cursor + 1 }
        }
    }

    /// The line without the character in front of the cursor.
    pub open spec fn backspaced(self) -> InputModel {
        if self.cursor == 0 {
            self
        } else {
            InputModel { text: self.text.remove(self.cursor - 1), cursor: self.cursor - 1 }
        }
    }

    /// The line without the character behind the cursor.
    pub open spec fn deleted(self) -> InputModel {
        if self.cursor == self.text.len() {
            self
        } else {
            InputModel { text: self.text.remove(self.cursor), ..self }
        }
    }
}

impl Default for TextInput {
    fn default() -> (r: Self)
        ensures
            r@ == (InputModel { text: Seq::empty(), cursor: 0 }),
            r@.wf(),
    {
        TextInput { buffer: String::new(), cursor: 0 }
    }
}

impl TextInput {
    /// The text.
    pub fn text(&self) -> (r: &str)
        ensures
            r@ == self@.text,
    {
        self.buffer.as_str()
    }

    /// Whether there is no text.
    pub fn is_empty(&self) -> (r: bool)
        ensures
            r == (self@.text.len() == 0),
    {
        self.buffer.as_str().is_empty()
    }

    /// How many bytes stand in front of the cursor.
    pub fn cursor_byte_index(&self) -> (r: usize)
        requires
            self@.wf(),
        ensures
            r == encode_utf8(self@.text.take(self@.cursor)).len(),
    {
        let front = self.buffer.as_str().substring_char(0, self.cursor);
        proof {
            assert(front@ =~= self@.text.take(self@.cursor));
        }
        front.as_bytes().len()
    }

    /// Exchanges the text and puts the cursor behind it.
    pub fn set(&mut self, text: &str)
        ensures
            final(self)@ == (InputModel { text: text@, cursor: text@.len() as int }),
            final(self)@.wf(),
    {
        self.buffer = text.to_owned();
        self.cursor = text::to_chars(text).len();
    }

    /// Puts a character in at the cursor.
    pub fn insert(&mut self, character: char)
        requires
            old(self)@.wf(),
        ensures
            final(self)@ == old(self)@.inserted(character),
            final(self)@.wf(),
    {
        if character <= '\u{1f}' || ('\u{7f}' <= character && character <= '\u{9f}') {
            return ;
        }
        let mut chars = text::to_chars(self.buffer.as_str());
        chars.insert(self.cursor, character);
        self.buffer = text::from_chars(chars.as_slice());
        let count: usize = chars.len();
        if self.cursor < count {
            self.cursor = self.cursor + 1;
        }
    }

    /// Takes out the character in front of the cursor.
    pub fn backspace(&mut self)
        requires
            old(self)@.wf(),
        ensures
            final(self)@ == old(self)@.backspaced(),
            final(self)@.wf(),
    {
        if self.cursor == 0 {
            return ;
        }
        self.cursor = self.cursor - 1;
        let mut chars = text::to_chars(self.buffer.as_str());
        let _ = chars.remove(self.cursor);
        self.buffer = text::from_chars(chars.as_slice());
    }

    /// Takes out the character behind the cursor.
    pub fn delete(&mut self)
        requires
            old(self)@.wf(),
        ensures
            final(self)@ == old(self)@.deleted(),
            final(self)@.wf(),
    {
        let mut chars = text::to_chars(self.buffer.as_str());
        if self.cursor >= chars.len() {
            return ;
        }
        let _ = chars.remove(self.cursor);
        self.buffer = text::from_chars(chars.as_slice());
    }

    /// Moves the cursor one character to the left.
    pub fn move_left(&mut self)
        requires
            old(self)@.wf(),
        ensures
            final(self)@.text == old(self)@.text,
            final(self)@.cursor == if old(self)@.cursor > 0 {
                old(self)@.cursor - 1
            } else {
                0
            },
            final(self)@.wf(),
    {
        self.cursor = self.cursor.saturating_sub(1);
    }

    /// Moves the cursor one character to the right.
    pub fn move_right(&mut self)
        requires
            old(self)@.wf(),
        ensures
            final(self)@.text == old(self)@.text,
            final(self)@.cursor == if old(self)@.cursor < old(self)@.text.len() {
                old(self)@.cursor + 1
            } else {
                old(self)@.cursor
            },
            final(self)@.wf(),
    {
        let count: usize = text::to_chars(self.buffer.as_str()).len();
        if self.cursor < count {
            self.cursor = self.cursor + 1;
        }
    }

    /// Moves the cursor to the front.
    pub fn move_home(&mut self)
        ensures
            final(self)@ == (InputModel { cursor: 0, ..old(self)@ }),
            final(self)@.wf(),
    {
        self.cursor = 0;
    }

    /// Moves the cursor to the end.
    pub fn move_end(&mut self)
        ensures
            final(self)@ == (InputModel { cursor: old(self)@.text.len() as int, ..old(self)@ }),
            final(self)@.wf(),
    {
        self.cursor = text::to_chars(self.buffer.as_str()).len();
    }
}

/// Taking out what was just put in leaves the line as it was.
pub proof fn backspace_undoes_typing(line: InputModel, c: char)
    requires
        line.wf(),
        !text::is_control(c),
    ensures
        line.inserted(c).backspaced() == line,
{
    assert(line.inserted(c).text.remove(line.cursor) =~= line.text);
}

/// A character goes in where the cursor stands, and the cursor goes behind it; nothing else moves.
pub proof fn characters_go_in_at_the_cursor(line: InputModel, c: char)
    requires
        line.wf(),
        !text::is_control(c),
    ensures
        line.inserted(c).text == line.text.take(line.cursor).push(c) + line.text.skip(line.cursor),
        line.inserted(c).cursor == line.cursor + 1,
        line.cursor > 0 ==> line.backspaced().text == line.text.take(line.cursor - 1)
            + line.text.skip(line.cursor),
        line.cursor < line.text.len() ==> line.deleted().text == line.text.take(line.cursor)
            + line.text.skip(line.cursor + 1) && line.deleted().cursor == line.cursor,
{
    assert(line.text.insert(line.cursor, c) =~= line.text.take(line.cursor).push(c)
        + line.text.skip(line.cursor));
    if line.cursor > 0 {
        assert(line.text.remove(line.cursor - 1) =~= line.text.take(line.cursor - 1)
            + line.text.skip(line.cursor));
    }
    if line.cursor < line.text.len() {
        assert(line.text.remove(line.cursor) =~= line.text.take(line.cursor) + line.text.skip(
            line.cursor + 1,
        ));
    }
}

} // verus!
