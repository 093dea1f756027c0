//! An editable text with a cursor that counts characters, not bytes.

use vstd::prelude::*;
use vstd::string::*;
use crate::text::push_char;

verus! {

/// A text under edit. The cursor is a position between characters, counted
/// in characters from the start.
#[derive(Debug, Clone, PartialEq, Eq)]
pub struct TextBuffer {
    pub content: String,
    pub cursor_position: usize,
}

/// What a `TextBuffer` stands for: its characters and its cursor.
pub struct BufferView {
    pub content: Seq<char>,
    pub cursor: nat,
}

impl BufferView {
    /// The cursor stands inside the text or at its end.
    pub open spec fn wf(self) -> bool {
        self.cursor <= self.content.len()
    }

    /// The position that an edit applies to: the cursor, or the end of the
    /// text where the cursor lies beyond it.
    pub open spec fn position(self) -> nat {
        if self.cursor <= self.content.len() {
            self.cursor
        } else {
            self.content.len()
        }
    }

    /// A buffer that can take no further character.
    pub open spec fn full(self) -> bool {
        self.content.len() >= usize::MAX
    }

    /// `c` typed at the cursor; a full buffer stays as it is.
    pub open spec fn insert(self, c: char) -> BufferView {
        if self.full() {
            self
        } else {
            BufferView {
                content: self.content.insert(self.position() as int, c),
                cursor: self.position() + 1,
            }
        }
    }

    /// The character left of the cursor deleted; at the start nothing changes.
    pub open spec fn backspace(self) -> BufferView {
        if self.position() > 0 {
            BufferView {
                content: self.content.remove(self.position() - 1),
                cursor: (self.position() - 1) as nat,
            }
        } else {
            self
        }
    }

    /// The cursor one character to the left, stopping at the start.
    pub open spec fn left(self) -> BufferView {
        BufferView {
            cursor: if self.position() > 0 {
                (self.position() - 1) as nat
            } else {
                0
            },
            ..self
        }
    }

    /// The cursor one character to the right, stopping at the end.
    pub open spec fn right(self) -> BufferView {
        BufferView {
            cursor: if self.position() < self.content.len() {
                self.position() + 1
            } else {
                self.content.len()
            },
            ..self
        }
    }

    /// The cursor at the start of the text.
    pub open spec fn home(self) -> BufferView {
        BufferView { cursor: 0, ..self }
    }

    /// The cursor at the end of the text.
    pub open spec fn end(self) -> BufferView {
        BufferView { cursor: self.content.len(), ..self }
    }

    /// The buffer that holds `text` with the cursor at its end.
    pub open spec fn holding(text: Seq<char>) -> BufferView {
        BufferView { content: text, cursor: text.len() }
    }
}

impl View for TextBuffer {
    type V = BufferView;

    open spec fn view(&self) -> BufferView {
        BufferView { content: self.content@, cursor: self.cursor_position as nat }
    }
}

impl TextBuffer {
    /// An empty buffer.
    pub fn new() -> (b: TextBuffer)
        ensures
            b@ == BufferView::holding(Seq::empty()),
            b@.wf(),
    {
        TextBuffer { content: String::new(), cursor_position: 0 }
    }

    /// A buffer that holds `text`, with the cursor at its end.
    pub fn with_text(text: String) -> (b: TextBuffer)
        ensures
            b@ == BufferView::holding(text@),
            b.content == text,
            b@.wf(),
    {
        let n = text.as_str().unicode_len();
        TextBuffer { content: text, cursor_position: n }
    }

    /// The number of characters in the buffer.
    pub fn char_count(&self) -> (n: usize)
        ensures
            n == self@.content.len(),
    {
        self.content.as_str().unicode_len()
    }

    /// The position that an edit applies to.
    fn edit_position(&self) -> (p: usize)
        ensures
            p == self@.position(),
            p <= self@.content.len(),
    {
        let n = self.content.as_str().unicode_len();
        if self.cursor_position <= n {
            self.cursor_position
        } else {
            n
        }
    }

    /// Types `c` at the cursor and moves the cursor behind it.
    pub fn insert_char(&mut self, c: char)
        ensures
            final(self)@ == old(self)@.insert(c),
            old(self)@.wf() ==> final(self)@.wf(),
    {
        let n = self.content.as_str().unicode_len();
        if n == usize::MAX {
            return ;
        }
        let p = self.edit_position();
        let mut text = String::from_str(self.content.as_str().substring_char(0, p));
        push_char(&mut text, c);
        text.append(self.content.as_str().substring_char(p, n));
        assert(text@ =~= self@.content.insert(p as int, c));
        self.content = text;
        self.cursor_position = p + 1;
    }

    /// Deletes the character left of the cursor, if there is one.
    pub fn backspace(&mut self)
        ensures
            final(self)@ == old(self)@.backspace(),
            old(self)@.wf() ==> final(self)@.wf(),
    {
        let n = self.content.as_str().unicode_len();
        let p = self.edit_position();
        if p > 0 {
            let mut text = String::from_str(self.content.as_str().substring_char(0, p - 1));
            text.append(self.content.as_str().substring_char(p, n));
            assert(text@ =~= self@.content.remove(p - 1));
            self.content = text;
            self.cursor_position = p - 1;
        }
    }

    /// Moves the cursor one character to the left.
    pub fn move_left(&mut self)
        ensures
            final(self)@ == old(self)@.left(),
            final(self)@.wf(),
    {
        let p = self.edit_position();
        self.cursor_position = if p > 0 {
            p - 1
        } else {
            0
        };
    }

    /// Moves the cursor one character to the right.
    pub fn move_right(&mut self)
        ensures
            final(self)@ == old(self)@.right(),
            final(self)@.wf(),
    {
        let n = self.content.as_str().unicode_len();
        let p = self.edit_position();
        self.cursor_position = if p < n {
            p + 1
        } else {
            n
        };
    }

    /// Moves the cursor to the start of the text.
    pub fn move_home(&mut self)
        ensures
            final(self)@ == old(self)@.home(),
            final(self)@.wf(),
    {
        self.cursor_position = 0;
    }

    /// Moves the cursor to the end of the text.
    pub fn move_end(&mut self)
        ensures
            final(self)@ == old(self)@.end(),
            final(self)@.wf(),
    {
        self.cursor_position = self.content.as_str().unicode_len();
    }
}

/// Every edit leaves the cursor inside the text, whatever the buffer was,
/// but for the two edits that change nothing: typing into a full buffer and
/// deleting at the start of the text.
pub proof fn lemma_edits_keep_cursor_inside(b: BufferView, c: char)
    ensures
        !b.full() ==> b.insert(c).wf(),
        b.backspace().wf() || (b.position() == 0 && b.backspace() == b),
        b.left().wf(),
        b.right().wf(),
        b.home().wf(),
        b.end().wf(),
        BufferView::holding(b.content).wf(),
{
}

/// On a buffer whose cursor is inside the text: typing a character and then
/// deleting leftwards restores the buffer, and each edit keeps the buffer
/// well formed.
pub proof fn lemma_insert_then_backspace(b: BufferView, c: char)
    requires
        b.wf(),
        !b.full(),
    ensures
        b.insert(c).backspace() == b,
        b.insert(c).wf(),
        b.backspace().wf(),
        b.insert(c).content.len() == b.content.len() + 1,
{
    assert(b.insert(c).backspace().content =~= b.content);
}

} // verus!
