//! Line editor buffer: a bounded sequence of printable characters with a
//! cursor, mutated one keystroke at a time.
use vstd::prelude::*;

verus! {

/// Capacity of the line buffer: a committed command never exceeds this.
pub const LINE_MAX: usize = 32;

/// A character the editor accepts into the buffer: printable ASCII.
pub open spec fn is_printable(c: char) -> bool {
    0x20 <= (c as u32) <= 0x7e
}

/// Every character of the sequence is printable ASCII.
pub open spec fn all_printable(s: Seq<char>) -> bool {
    forall|i: int| 0 <= i < s.len() ==> is_printable(#[trigger] s[i])
}

/// The editor's visible line and cursor.
pub struct LineBuffer {
    pub chars: Vec<char>,
    pub cursor: usize,
}

impl LineBuffer {
    /// The buffer never outgrows its capacity, the cursor stays inside
    /// the line, and the content stays printable ASCII.
    pub open spec fn wf(self) -> bool {
        &&& self.chars@.len() <= LINE_MAX
        &&& self.cursor <= self.chars@.len()
        &&& all_printable(self.chars@)
    }

    /// The line content.
    pub open spec fn view(self) -> Seq<char> {
        self.chars@
    }

    /// The cursor position, within `[0, len]`.
    pub open spec fn spec_cursor(self) -> int {
        self.cursor as int
    }

    /// A fresh, empty line with the cursor at the start.
    pub fn new() -> (r: LineBuffer)
        ensures
            r.wf(),
            r@ == Seq::<char>::empty(),
            r.spec_cursor() == 0,
    {
        LineBuffer { chars: Vec::new(), cursor: 0 }
    }

    /// Current length of the line.
    pub fn len(&self) -> (r: usize)
        ensures
            r == self@.len(),
    {
        self.chars.len()
    }

    /// Current cursor position.
    pub fn cursor(&self) -> (r: usize)
        ensures
            r == self.spec_cursor(),
    {
        self.cursor
    }

    /// A copy of the line content.
    pub fn content(&self) -> (r: Vec<char>)
        ensures
            r@ == self@,
    {
        self.chars.clone()
    }

    /// Inserts a printable character at the cursor and advances the
    /// cursor; on a full buffer the keystroke is dropped and nothing
    /// changes.
    pub fn insert_at_cursor(&mut self, c: char) -> (accepted: bool)
        requires
            old(self).wf(),
            is_printable(c),
        ensures
            final(self).wf(),
            accepted == (old(self)@.len() < LINE_MAX),
            accepted ==> final(self)@ == old(self)@.insert(old(self).spec_cursor(), c)
                && final(self).spec_cursor() == old(self).spec_cursor() + 1,
            !accepted ==> *final(self) == *old(self),
    {
        if self.chars.len() < LINE_MAX {
            self.chars.insert(self.cursor, c);
            self.cursor = self.cursor + 1;
            true
        } else {
            false
        }
    }

    /// Deletes the character before the cursor and moves the cursor back;
    /// a no-op with the cursor at the start of the line.
    pub fn backspace(&mut self) -> (deleted: bool)
        requires
            old(self).wf(),
        ensures
            final(self).wf(),
            deleted == (old(self).spec_cursor() > 0),
            deleted ==> final(self)@ == old(self)@.remove(old(self).spec_cursor() - 1)
                && final(self).spec_cursor() == old(self).spec_cursor() - 1,
            !deleted ==> *final(self) == *old(self),
    {
        if self.cursor > 0 {
            self.chars.remove(self.cursor - 1);
            self.cursor = self.cursor - 1;
            true
        } else {
            false
        }
    }

    /// Moves the cursor one position left, stopping at the start.
    pub fn move_left(&mut self) -> (moved: bool)
        requires
            old(self).wf(),
        ensures
            final(self).wf(),
            final(self)@ == old(self)@,
            moved == (old(self).spec_cursor() > 0),
            moved ==> final(self).spec_cursor() == old(self).spec_cursor() - 1,
            !moved ==> final(self).spec_cursor() == old(self).spec_cursor(),
    {
        if self.cursor > 0 {
            self.cursor = self.cursor - 1;
            true
        } else {
            false
        }
    }

    /// Moves the cursor one position right, stopping at the end.
    pub fn move_right(&mut self) -> (moved: bool)
        requires
            old(self).wf(),
        ensures
            final(self).wf(),
            final(self)@ == old(self)@,
            moved == (old(self).spec_cursor() < old(self)@.len()),
            moved ==> final(self).spec_cursor() == old(self).spec_cursor() + 1,
            !moved ==> final(self).spec_cursor() == old(self).spec_cursor(),
    {
        if self.cursor < self.chars.len() {
            self.cursor = self.cursor + 1;
            true
        } else {
            false
        }
    }

    /// Replaces the whole line (a history recall or an autocomplete hit)
    /// and puts the cursor at its end.
    pub fn set_content(&mut self, s: &Vec<char>)
        requires
            old(self).wf(),
            s@.len() <= LINE_MAX,
            all_printable(s@),
        ensures
            final(self).wf(),
            final(self)@ == s@,
            final(self).spec_cursor() == s@.len(),
    {
        self.chars = s.clone();
        self.cursor = self.chars.len();
    }

    /// Empties the line for a fresh prompt.
    pub fn reset(&mut self)
        ensures
            final(self).wf(),
            final(self)@ == Seq::<char>::empty(),
            final(self).spec_cursor() == 0,
    {
        self.chars = Vec::new();
        self.cursor = 0;
        assert(self.chars@ =~= Seq::<char>::empty());
    }
}

} // verus!
