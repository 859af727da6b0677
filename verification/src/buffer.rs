//! The text buffer that the dispatcher edits: a sequence of characters and
//! a cursor that may also sit one past the last character (the tail).
//!
//! Every operation is specified against `TextView`, the mathematical value
//! of the buffer, so each caller knows the exact text and cursor after the
//! call.
//!
//! The buffer edits `char`s: the cursor counts characters, not grapheme
//! clusters, so motion over a combining sequence steps through its scalar
//! values one by one.

use crate::chars;
use crate::style::Style;
use vstd::prelude::*;

verus! {

/// Whether a typed character is inserted at the cursor or overwrites the
/// character under it.
#[derive(Clone, Copy, Debug, PartialEq, Eq, Structural)]
pub enum EditMode {
    Insert,
    Overwrite,
}

/// The mathematical value of a buffer: its text and its cursor position,
/// with `0 <= cursor <= text.len()`.
#[verifier::ext_equal]
pub struct TextView {
    pub text: Seq<char>,
    pub cursor: int,
}

/// Moves the cursor one position back, if it is not at the head.
pub open spec fn backward_spec(t: TextView) -> TextView {
    if t.cursor > 0 {
        TextView { text: t.text, cursor: t.cursor - 1 }
    } else {
        t
    }
}

/// Moves the cursor one position forward, if it is not at the tail.
pub open spec fn forward_spec(t: TextView) -> TextView {
    if t.cursor < t.text.len() {
        TextView { text: t.text, cursor: t.cursor + 1 }
    } else {
        t
    }
}

/// Moves the cursor to the head of the text.
pub open spec fn move_to_head_spec(t: TextView) -> TextView {
    TextView { text: t.text, cursor: 0 }
}

/// Moves the cursor to the tail of the text.
pub open spec fn move_to_tail_spec(t: TextView) -> TextView {
    TextView { text: t.text, cursor: t.text.len() as int }
}

/// Inserts `ch` at the cursor and moves the cursor past it.
pub open spec fn insert_spec(t: TextView, ch: char) -> TextView {
    TextView { text: t.text.insert(t.cursor, ch), cursor: t.cursor + 1 }
}

/// Overwrites the character under the cursor with `ch` and moves the
/// cursor past it; at the tail it inserts instead.
pub open spec fn overwrite_spec(t: TextView, ch: char) -> TextView {
    if t.cursor == t.text.len() {
        insert_spec(t, ch)
    } else {
        TextView { text: t.text.update(t.cursor, ch), cursor: t.cursor + 1 }
    }
}

/// Erases the character before the cursor, if any.
pub open spec fn erase_spec(t: TextView) -> TextView {
    if t.cursor > 0 {
        TextView { text: t.text.remove(t.cursor - 1), cursor: t.cursor - 1 }
    } else {
        t
    }
}

/// Clears the whole text and puts the cursor at the head.
pub open spec fn erase_all_spec(t: TextView) -> TextView {
    TextView { text: Seq::empty(), cursor: 0 }
}

/// Replaces the whole text and puts the cursor at the tail.
pub open spec fn replace_spec(s: Seq<char>) -> TextView {
    TextView { text: s, cursor: s.len() as int }
}

/// The position just after the nearest word-break character strictly left
/// of `from` in `text`, or the head if there is none. Scanning starts at
/// index `from - 1`.
pub open spec fn prev_break(text: Seq<char>, from: int, breaks: Seq<char>) -> int
    decreases from,
{
    if from <= 0 {
        0
    } else if breaks.contains(text[from - 1]) {
        from
    } else {
        prev_break(text, from - 1, breaks)
    }
}

/// The position just after the nearest word-break character at or right of
/// `from` in `text`, or the tail if there is none.
pub open spec fn next_break(text: Seq<char>, from: int, breaks: Seq<char>) -> int
    decreases text.len() - from,
{
    if from >= text.len() {
        text.len() as int
    } else if breaks.contains(text[from]) {
        from + 1
    } else {
        next_break(text, from + 1, breaks)
    }
}

/// The target of a word-left move: just after the word-break character
/// nearest before the one directly left of the cursor.
pub open spec fn prev_nearest(t: TextView, breaks: Seq<char>) -> int {
    prev_break(t.text, t.cursor - 1, breaks)
}

/// The target of a word-right move: just after the word-break character
/// nearest after the cursor.
pub open spec fn next_nearest(t: TextView, breaks: Seq<char>) -> int {
    next_break(t.text, t.cursor + 1, breaks)
}

/// Moves the cursor to the previous word-break target.
pub open spec fn move_to_previous_nearest_spec(t: TextView, breaks: Seq<char>) -> TextView {
    TextView { text: t.text, cursor: prev_nearest(t, breaks) }
}

/// Moves the cursor to the next word-break target.
pub open spec fn move_to_next_nearest_spec(t: TextView, breaks: Seq<char>) -> TextView {
    TextView { text: t.text, cursor: next_nearest(t, breaks) }
}

/// Erases from the previous word-break target up to the cursor.
pub open spec fn erase_to_previous_nearest_spec(t: TextView, breaks: Seq<char>) -> TextView {
    let pos = prev_nearest(t, breaks);
    TextView {
        text: t.text.subrange(0, pos) + t.text.subrange(t.cursor, t.text.len() as int),
        cursor: pos,
    }
}

/// Erases from the cursor up to the next word-break target; the cursor
/// stays in place.
pub open spec fn erase_to_next_nearest_spec(t: TextView, breaks: Seq<char>) -> TextView {
    let pos = next_nearest(t, breaks);
    TextView {
        text: t.text.subrange(0, t.cursor) + t.text.subrange(pos, t.text.len() as int),
        cursor: t.cursor,
    }
}

/// The editable text and its cursor.
pub struct TextBuffer {
    chars: Vec<char>,
    cursor: usize,
}

impl View for TextBuffer {
    type V = TextView;

    closed spec fn view(&self) -> TextView {
        TextView { text: self.chars@, cursor: self.cursor as int }
    }
}

impl TextBuffer {
    /// The buffer's invariant: the cursor lies on a character or at the
    /// tail.
    pub open spec fn wf(&self) -> bool {
        0 <= self@.cursor <= self@.text.len()
    }

    /// An empty buffer with the cursor at the head.
    pub fn empty() -> (r: TextBuffer)
        ensures
            r.wf(),
            r@.text == Seq::<char>::empty(),
            r@.cursor == 0,
    {
        let r = TextBuffer { chars: Vec::new(), cursor: 0 };
        proof {
            assert(r@.text =~= Seq::<char>::empty());
        }
        r
    }

    /// A buffer holding `s`, with the cursor at the tail.
    pub fn new(s: &str) -> (r: TextBuffer)
        ensures
            r.wf(),
            r@ == replace_spec(s@),
    {
        let chars = chars::str_to_chars(s);
        let cursor = chars.len();
        let r = TextBuffer { chars, cursor };
        proof {
            assert(r@ =~= replace_spec(s@));
        }
        r
    }

    /// The cursor position.
    pub fn position(&self) -> (r: usize)
        ensures
            r == self@.cursor,
    {
        self.cursor
    }

    /// The text as a `String`, without any cursor markup.
    pub fn text_without_cursor(&self) -> (r: String)
        ensures
            r@ == self@.text,
    {
        chars::chars_to_string(&self.chars)
    }

    /// The text up to (excluding) the cursor, as a `String`: what a
    /// completion takes as its search prefix.
    pub fn text_up_to_cursor(&self) -> (r: String)
        requires
            self.wf(),
        ensures
            r@ == self@.text.take(self@.cursor),
    {
        chars::chars_prefix_to_string(&self.chars, self.cursor)
    }

    /// Moves the cursor one position back; reports whether it moved.
    pub fn backward(&mut self) -> (moved: bool)
        requires
            old(self).wf(),
        ensures
            final(self).wf(),
            final(self)@ == backward_spec(old(self)@),
            moved == (old(self)@.cursor > 0),
    {
        if self.cursor > 0 {
            self.cursor = self.cursor - 1;
            true
        } else {
            false
        }
    }

    /// Moves the cursor one position forward; reports whether it moved.
    pub fn forward(&mut self) -> (moved: bool)
        requires
            old(self).wf(),
        ensures
            final(self).wf(),
            final(self)@ == forward_spec(old(self)@),
            moved == (old(self)@.cursor < old(self)@.text.len()),
    {
        if self.cursor < self.chars.len() {
            self.cursor = self.cursor + 1;
            true
        } else {
            false
        }
    }

    /// Moves the cursor to the head.
    pub fn move_to_head(&mut self)
        requires
            old(self).wf(),
        ensures
            final(self).wf(),
            final(self)@ == move_to_head_spec(old(self)@),
    {
        self.cursor = 0;
    }

    /// Moves the cursor to the tail.
    pub fn move_to_tail(&mut self)
        requires
            old(self).wf(),
        ensures
            final(self).wf(),
            final(self)@ == move_to_tail_spec(old(self)@),
    {
        self.cursor = self.chars.len();
    }

    /// Inserts `ch` at the cursor and moves the cursor past it.
    pub fn insert(&mut self, ch: char)
        requires
            old(self).wf(),
        ensures
            final(self).wf(),
            final(self)@ == insert_spec(old(self)@, ch),
    {
        let pos = self.cursor;
        self.chars.insert(pos, ch);
        let n = self.chars.len();
        proof {
            assert(pos < n);
        }
        self.cursor = pos + 1;
    }

    /// Overwrites the character under the cursor, or inserts at the tail,
    /// and moves the cursor past it.
    pub fn overwrite(&mut self, ch: char)
        requires
            old(self).wf(),
        ensures
            final(self).wf(),
            final(self)@ == overwrite_spec(old(self)@, ch),
    {
        if self.cursor == self.chars.len() {
            self.insert(ch);
        } else {
            let pos = self.cursor;
            self.chars[pos] = ch;
            self.cursor = self.cursor + 1;
            proof {
                assert(self@ =~= overwrite_spec(old(self)@, ch));
            }
        }
    }

    /// Erases the character before the cursor, if any.
    pub fn erase(&mut self)
        requires
            old(self).wf(),
        ensures
            final(self).wf(),
            final(self)@ == erase_spec(old(self)@),
    {
        if self.cursor > 0 {
            self.cursor = self.cursor - 1;
            self.chars.remove(self.cursor);
        }
    }

    /// Clears the text and puts the cursor at the head.
    pub fn erase_all(&mut self)
        requires
            old(self).wf(),
        ensures
            final(self).wf(),
            final(self)@ == erase_all_spec(old(self)@),
    {
        self.chars.clear();
        self.cursor = 0;
        proof {
            assert(self@ =~= erase_all_spec(old(self)@));
        }
    }

    /// Replaces the whole text and puts the cursor at the tail.
    pub fn replace(&mut self, s: &str)
        requires
            old(self).wf(),
        ensures
            final(self).wf(),
            final(self)@ == replace_spec(s@),
    {
        self.chars = chars::str_to_chars(s);
        self.cursor = self.chars.len();
        proof {
            assert(self@ =~= replace_spec(s@));
        }
    }

    /// The previous word-break target, computed over the buffer.
    fn find_previous_nearest(&self, breaks: &Vec<char>) -> (r: usize)
        requires
            self.wf(),
        ensures
            r == prev_nearest(self@, breaks@),
            r <= self@.cursor || self@.cursor == 0,
    {
        if self.cursor <= 1 {
            proof {
                assert(prev_break(self@.text, self@.cursor - 1, breaks@) == 0);
            }
            return 0;
        }
        let mut j: usize = self.cursor - 1;
        while j > 0
            invariant
                self.wf(),
                j <= self@.cursor - 1,
                prev_break(self@.text, self@.cursor - 1, breaks@) == prev_break(
                    self@.text,
                    j as int,
                    breaks@,
                ),
            decreases j,
        {
            if chars::contains_char(breaks, self.chars[j - 1]) {
                return j;
            }
            j = j - 1;
        }
        0
    }

    /// The next word-break target, computed over the buffer.
    fn find_next_nearest(&self, breaks: &Vec<char>) -> (r: usize)
        requires
            self.wf(),
        ensures
            r == next_nearest(self@, breaks@),
            self@.cursor <= r <= self@.text.len(),
    {
        let mut j: usize = if self.cursor < self.chars.len() {
            self.cursor + 1
        } else {
            proof {
                assert(next_break(self@.text, self@.cursor + 1, breaks@)
                    == self@.text.len() as int);
            }
            return self.chars.len();
        };
        while j < self.chars.len()
            invariant
                self.wf(),
                self@.cursor + 1 <= j <= self@.text.len(),
                next_break(self@.text, self@.cursor + 1, breaks@) == next_break(
                    self@.text,
                    j as int,
                    breaks@,
                ),
            decreases self@.text.len() - j,
        {
            if chars::contains_char(breaks, self.chars[j]) {
                return j + 1;
            }
            j = j + 1;
        }
        self.chars.len()
    }

    /// Moves the cursor to the previous word-break target.
    pub fn move_to_previous_nearest(&mut self, breaks: &Vec<char>)
        requires
            old(self).wf(),
        ensures
            final(self).wf(),
            final(self)@ == move_to_previous_nearest_spec(old(self)@, breaks@),
    {
        let pos = self.find_previous_nearest(breaks);
        proof {
            lemma_prev_break_in_range(self@.text, self@.cursor - 1, breaks@);
        }
        self.cursor = pos;
    }

    /// Moves the cursor to the next word-break target.
    pub fn move_to_next_nearest(&mut self, breaks: &Vec<char>)
        requires
            old(self).wf(),
        ensures
            final(self).wf(),
            final(self)@ == move_to_next_nearest_spec(old(self)@, breaks@),
    {
        let pos = self.find_next_nearest(breaks);
        self.cursor = pos;
    }

    /// Removes the characters in `from..to` and leaves the cursor at
    /// `from`.
    fn remove_range(&mut self, from: usize, to: usize)
        requires
            old(self).wf(),
            from <= to <= old(self)@.text.len(),
        ensures
            final(self).wf(),
            final(self)@.text == old(self)@.text.subrange(0, from as int) + old(
                self,
            )@.text.subrange(to as int, old(self)@.text.len() as int),
            final(self)@.cursor == from,
    {
        let ghost orig = self@.text;
        proof {
            assert(orig.subrange(0, to as int) + orig.subrange(to as int, orig.len() as int)
                =~= orig);
        }
        let mut k: usize = to;
        while k > from
            invariant
                from <= k <= to <= orig.len(),
                self.wf(),
                self@.text == orig.subrange(0, k as int) + orig.subrange(
                    to as int,
                    orig.len() as int,
                ),
                self@.cursor <= self@.text.len(),
            decreases k,
        {
            self.chars.remove(k - 1);
            k = k - 1;
            if self.cursor > self.chars.len() {
                self.cursor = self.chars.len();
            }
            proof {
                assert(self@.text =~= orig.subrange(0, k as int) + orig.subrange(
                    to as int,
                    orig.len() as int,
                ));
            }
        }
        self.cursor = from;
        proof {
            assert(self@.text =~= orig.subrange(0, from as int) + orig.subrange(
                to as int,
                orig.len() as int,
            ));
        }
    }

    /// Erases from the previous word-break target up to the cursor.
    pub fn erase_to_previous_nearest(&mut self, breaks: &Vec<char>)
        requires
            old(self).wf(),
        ensures
            final(self).wf(),
            final(self)@ == erase_to_previous_nearest_spec(old(self)@, breaks@),
    {
        let pos = self.find_previous_nearest(breaks);
        proof {
            lemma_prev_break_in_range(self@.text, self@.cursor - 1, breaks@);
        }
        let cur = self.cursor;
        self.remove_range(pos, cur);
        proof {
            assert(self@ =~= erase_to_previous_nearest_spec(old(self)@, breaks@));
        }
    }

    /// Erases from the cursor up to the next word-break target.
    pub fn erase_to_next_nearest(&mut self, breaks: &Vec<char>)
        requires
            old(self).wf(),
        ensures
            final(self).wf(),
            final(self)@ == erase_to_next_nearest_spec(old(self)@, breaks@),
    {
        let pos = self.find_next_nearest(breaks);
        let cur = self.cursor;
        self.remove_range(cur, pos);
        proof {
            assert(self@ =~= erase_to_next_nearest_spec(old(self)@, breaks@));
        }
    }
}

/// `prev_break` always lands between the head and `from`.
pub proof fn lemma_prev_break_in_range(text: Seq<char>, from: int, breaks: Seq<char>)
    ensures
        0 <= prev_break(text, from, breaks),
        prev_break(text, from, breaks) <= from || from < 0,
    decreases from,
{
    if from > 0 && !breaks.contains(text[from - 1]) {
        lemma_prev_break_in_range(text, from - 1, breaks);
    }
}

/// Typing a character in Insert mode lengthens the text by one, keeps
/// every character before the cursor in place, and puts the typed
/// character at the old cursor position.
pub proof fn lemma_insert_grows(t: TextView, ch: char)
    requires
        0 <= t.cursor <= t.text.len(),
    ensures
        insert_spec(t, ch).text.len() == t.text.len() + 1,
        forall|i: int| 0 <= i < t.cursor ==> insert_spec(t, ch).text[i] == t.text[i],
        insert_spec(t, ch).text[t.cursor] == ch,
        insert_spec(t, ch).cursor == t.cursor + 1,
{
}

/// Typing a character in Overwrite mode at a non-tail position keeps the
/// length, replaces exactly the character under the cursor, and leaves
/// every other character in place.
pub proof fn lemma_overwrite_keeps_length(t: TextView, ch: char)
    requires
        0 <= t.cursor < t.text.len(),
    ensures
        overwrite_spec(t, ch).text.len() == t.text.len(),
        overwrite_spec(t, ch).text[t.cursor] == ch,
        forall|i: int|
            0 <= i < t.text.len() && i != t.cursor ==> overwrite_spec(t, ch).text[i] == t.text[i],
        overwrite_spec(t, ch).cursor == t.cursor + 1,
{
}

/// The visible state of the edit buffer: the text under edit plus the
/// display attributes, edit mode, and word-break set that the dispatcher
/// reads.
pub struct BufferState {
    pub texteditor: TextBuffer,
    pub prefix: String,
    pub prefix_style: Style,
    pub active_char_style: Style,
    pub inactive_char_style: Style,
    pub edit_mode: EditMode,
    pub word_break_chars: Vec<char>,
}

} // verus!
