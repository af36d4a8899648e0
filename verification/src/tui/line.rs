//! A line that is edited. The cursor counts characters.
use vstd::prelude::*;

use crate::text::{chars_of, string_of};

verus! {

/// A text and where the cursor stands in it.
pub struct LineModel {
    pub text: Seq<char>,
    pub cursor: int,
}

impl LineModel {
    /// The cursor is in the text or at its end.
    pub open spec fn wf(self) -> bool {
        0 <= self.cursor <= self.text.len()
    }
}

pub open spec fn fresh_line(text: Seq<char>) -> LineModel {
    LineModel { text, cursor: text.len() as int }
}

/// A text with the cursor at a place, or at its end where that is behind.
pub open spec fn line_at(text: Seq<char>, cursor: int) -> LineModel {
    LineModel {
        text,
        cursor: if cursor <= text.len() {
            cursor
        } else {
            text.len() as int
        },
    }
}

pub open spec fn typed(l: LineModel, c: char) -> LineModel {
    LineModel { text: l.text.insert(l.cursor, c), cursor: l.cursor + 1 }
}

pub open spec fn pasted(l: LineModel, piece: Seq<char>) -> LineModel {
    LineModel {
        text: l.text.take(l.cursor) + piece + l.text.skip(l.cursor),
        cursor: l.cursor + piece.len(),
    }
}

pub open spec fn backspaced(l: LineModel) -> LineModel {
    if l.cursor > 0 {
        LineModel { text: l.text.remove(l.cursor - 1), cursor: l.cursor - 1 }
    } else {
        l
    }
}

pub open spec fn deleted(l: LineModel) -> LineModel {
    if l.cursor < l.text.len() {
        LineModel { text: l.text.remove(l.cursor), ..l }
    } else {
        l
    }
}

pub open spec fn moved_left(l: LineModel) -> LineModel {
    LineModel {
        cursor: if l.cursor > 0 {
            l.cursor - 1
        } else {
            0
        },
        ..l
    }
}

pub open spec fn moved_right(l: LineModel) -> LineModel {
    LineModel {
        cursor: if l.cursor < l.text.len() {
            l.cursor + 1
        } else {
            l.cursor
        },
        ..l
    }
}

/// A line that is edited.
pub struct Line {
    pub chars: Vec<char>,
    pub cursor: usize,
}

impl View for Line {
    type V = LineModel;

    open spec fn view(&self) -> LineModel {
        LineModel { text: self.chars@, cursor: self.cursor as int }
    }
}

impl Line {
    /// A text with the cursor at its end.
    pub fn new(text: &str) -> (r: Self)
        ensures
            r@ == fresh_line(text@),
            r@.wf(),
    {
        let chars: Vec<char> = chars_of(text);
        let cursor: usize = chars.len();
        Line { chars, cursor }
    }

    /// A text with the cursor at a place, or at its end where that is behind.
    pub fn at(text: &str, cursor: usize) -> (r: Self)
        ensures
            r@ == line_at(text@, cursor as int),
            r@.wf(),
    {
        let chars: Vec<char> = chars_of(text);
        let n: usize = chars.len();
        Line {
            chars,
            cursor: if cursor <= n {
                cursor
            } else {
                n
            },
        }
    }

    pub fn text(&self) -> (r: String)
        ensures
            r@ == self@.text,
    {
        let n: usize = self.chars.len();
        assert(self.chars@.subrange(0, n as int) =~= self.chars@);
        string_of(&self.chars, 0, n)
    }

    /// Types a character.
    pub fn type_char(&mut self, c: char)
        requires
            old(self)@.wf(),
        ensures
            final(self)@ == typed(old(self)@, c),
            final(self)@.wf(),
    {
        self.chars.insert(self.cursor, c);
        let n: usize = self.chars.len();
        assert(self.cursor < n);
        self.cursor = self.cursor + 1;
    }

    /// Types a whole text.
    pub fn paste(&mut self, piece: &str)
        requires
            old(self)@.wf(),
        ensures
            final(self)@ == pasted(old(self)@, piece@),
            final(self)@.wf(),
    {
        let cs: Vec<char> = chars_of(piece);
        let n: usize = cs.len();
        let mut i: usize = 0;
        let ghost was = self@;
        assert(pasted(was, cs@.take(0)).text =~= was.text);
        while i < n
            invariant
                n == cs@.len(),
                i <= n,
                was.wf(),
                self@ == pasted(was, cs@.take(i as int)),
                self@.wf(),
            decreases n - i,
        {
            self.type_char(cs[i]);
            i += 1;
            assert(self@.text =~= pasted(was, cs@.take(i as int)).text);
        }
        assert(cs@.take(n as int) =~= cs@);
    }

    pub fn backspace(&mut self)
        requires
            old(self)@.wf(),
        ensures
            final(self)@ == backspaced(old(self)@),
            final(self)@.wf(),
    {
        if self.cursor > 0 {
            self.cursor = self.cursor - 1;
            self.chars.remove(self.cursor);
        }
    }

    pub fn delete(&mut self)
        requires
            old(self)@.wf(),
        ensures
            final(self)@ == deleted(old(self)@),
            final(self)@.wf(),
    {
        if self.cursor < self.chars.len() {
            self.chars.remove(self.cursor);
        }
    }

    pub fn left(&mut self)
        requires
            old(self)@.wf(),
        ensures
            final(self)@ == moved_left(old(self)@),
            final(self)@.wf(),
    {
        if self.cursor > 0 {
            self.cursor = self.cursor - 1;
        }
    }

    pub fn right(&mut self)
        requires
            old(self)@.wf(),
        ensures
            final(self)@ == moved_right(old(self)@),
            final(self)@.wf(),
    {
        if self.cursor < self.chars.len() {
            self.cursor = self.cursor + 1;
        }
    }

    pub fn home(&mut self)
        ensures
            final(self)@ == (LineModel { cursor: 0, ..old(self)@ }),
            final(self)@.wf(),
    {
        self.cursor = 0;
    }

    pub fn end(&mut self)
        ensures
            final(self)@ == fresh_line(old(self)@.text),
            final(self)@.wf(),
    {
        self.cursor = self.chars.len();
    }
}

/// A typed character is taken back by a backspace, and a delete after a step
/// to the left does the same.
pub proof fn law_typing_is_undone(l: LineModel, c: char)
    requires
        l.wf(),
    ensures
        backspaced(typed(l, c)) == l,
        deleted(moved_left(typed(l, c))) == l,
{
    assert(l.text.insert(l.cursor, c).remove(l.cursor) =~= l.text);
}

} // verus!
