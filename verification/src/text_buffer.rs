use vstd::prelude::*;

use crate::text::{join_vec, join_with, lines_view};

verus! {

/// A two-dimensional line-oriented text buffer with an editing cursor.
///
/// The URL, query and body fields all edit through this type.  The cursor
/// `(y_data_editing_at, x_data_editing_at)` always sits on an existing line,
/// at a column no further than one past that line's last character.
pub struct TextBuffer {
    pub data: Vec<Vec<char>>,
    pub x_data_editing_at: usize,
    pub y_data_editing_at: usize,
}

/// The mathematical content of a text buffer: its line texts and cursor.
#[verifier::ext_equal]
pub struct TextBufferView {
    pub texts: Seq<Seq<char>>,
    pub x_data_editing_at: int,
    pub y_data_editing_at: int,
}

impl View for TextBuffer {
    type V = TextBufferView;

    open spec fn view(&self) -> TextBufferView {
        TextBufferView {
            texts: lines_view(self.data@),
            x_data_editing_at: self.x_data_editing_at as int,
            y_data_editing_at: self.y_data_editing_at as int,
        }
    }
}

impl TextBufferView {
    /// The line the cursor sits on.
    pub open spec fn cur_line(self) -> Seq<char> {
        self.texts[self.y_data_editing_at]
    }

    /// Cursor well-formedness: the line index names an existing line and
    /// the column index never exceeds that line's length.
    pub open spec fn wf(self) -> bool {
        &&& self.texts.len() >= 1
        &&& 0 <= self.y_data_editing_at < self.texts.len()
        &&& 0 <= self.x_data_editing_at <= self.cur_line().len()
    }
}

/// One character inserted at the cursor, the cursor advanced past it.
pub open spec fn tb_insert_char(v: TextBufferView, c: char) -> TextBufferView {
    if v.x_data_editing_at < usize::MAX {
        TextBufferView {
            texts: v.texts.update(
                v.y_data_editing_at,
                v.cur_line().insert(v.x_data_editing_at, c),
            ),
            x_data_editing_at: v.x_data_editing_at + 1,
            ..v
        }
    } else {
        v
    }
}

/// An opening character and its closing partner inserted at the cursor,
/// the cursor left between the two.
pub open spec fn tb_insert_pair(v: TextBufferView, c: char, closer: char) -> TextBufferView {
    if v.x_data_editing_at < usize::MAX {
        TextBufferView {
            texts: v.texts.update(
                v.y_data_editing_at,
                v.cur_line().insert(v.x_data_editing_at, closer).insert(v.x_data_editing_at, c),
            ),
            x_data_editing_at: v.x_data_editing_at + 1,
            ..v
        }
    } else {
        v
    }
}

/// The cursor's line split at the cursor column; the remainder becomes a
/// new line just below, and the cursor moves to its start.
pub open spec fn tb_insert_newline(v: TextBufferView) -> TextBufferView {
    TextBufferView {
        texts: v.texts.update(v.y_data_editing_at, v.cur_line().take(v.x_data_editing_at)).insert(
            v.y_data_editing_at + 1,
            v.cur_line().skip(v.x_data_editing_at),
        ),
        x_data_editing_at: 0,
        y_data_editing_at: v.y_data_editing_at + 1,
    }
}

/// The character before the cursor deleted; at the start of a line the
/// line merges into the one above; at the buffer's start nothing happens.
pub open spec fn tb_backspace(v: TextBufferView) -> TextBufferView {
    if v.x_data_editing_at > 0 {
        TextBufferView {
            texts: v.texts.update(
                v.y_data_editing_at,
                v.cur_line().remove(v.x_data_editing_at - 1),
            ),
            x_data_editing_at: v.x_data_editing_at - 1,
            ..v
        }
    } else if v.y_data_editing_at > 0 {
        TextBufferView {
            texts: v.texts.update(
                v.y_data_editing_at - 1,
                v.texts[v.y_data_editing_at - 1] + v.cur_line(),
            ).remove(v.y_data_editing_at),
            x_data_editing_at: v.texts[v.y_data_editing_at - 1].len() as int,
            y_data_editing_at: v.y_data_editing_at - 1,
        }
    } else {
        v
    }
}

/// The cursor moved up one line, its column clamped to the new line.
pub open spec fn tb_move_up(v: TextBufferView) -> TextBufferView {
    if v.y_data_editing_at > 0 {
        let len = v.texts[v.y_data_editing_at - 1].len() as int;
        TextBufferView {
            x_data_editing_at: if v.x_data_editing_at <= len {
                v.x_data_editing_at
            } else {
                len
            },
            y_data_editing_at: v.y_data_editing_at - 1,
            ..v
        }
    } else {
        v
    }
}

/// The cursor moved down one line, its column clamped to the new line.
pub open spec fn tb_move_down(v: TextBufferView) -> TextBufferView {
    if v.y_data_editing_at < v.texts.len() - 1 {
        let len = v.texts[v.y_data_editing_at + 1].len() as int;
        TextBufferView {
            x_data_editing_at: if v.x_data_editing_at <= len {
                v.x_data_editing_at
            } else {
                len
            },
            y_data_editing_at: v.y_data_editing_at + 1,
            ..v
        }
    } else {
        v
    }
}

/// The cursor moved one column left, stopping at the start of the line.
pub open spec fn tb_move_left(v: TextBufferView) -> TextBufferView {
    if v.x_data_editing_at > 0 {
        TextBufferView { x_data_editing_at: v.x_data_editing_at - 1, ..v }
    } else {
        v
    }
}

/// The cursor moved one column right, stopping just past the line's end.
pub open spec fn tb_move_right(v: TextBufferView) -> TextBufferView {
    if v.x_data_editing_at < v.cur_line().len() {
        TextBufferView { x_data_editing_at: v.x_data_editing_at + 1, ..v }
    } else {
        v
    }
}

impl TextBuffer {
    /// Cursor well-formedness of the buffer's content.
    pub open spec fn wf(self) -> bool {
        self@.wf()
    }

    /// An empty buffer: one empty line, cursor at its start.
    pub fn new() -> (r: TextBuffer)
        ensures
            r.wf(),
            r@ == (TextBufferView {
                texts: seq![Seq::<char>::empty()],
                x_data_editing_at: 0,
                y_data_editing_at: 0,
            }),
    {
        let mut data: Vec<Vec<char>> = Vec::new();
        data.push(Vec::new());
        let r = TextBuffer { data, x_data_editing_at: 0, y_data_editing_at: 0 };
        proof {
            assert(r@.texts =~= seq![Seq::<char>::empty()]);
            assert(r@ =~= (TextBufferView {
                texts: seq![Seq::<char>::empty()],
                x_data_editing_at: 0,
                y_data_editing_at: 0,
            }));
        }
        r
    }

    /// Insert one character at the cursor and advance the cursor past it.
    pub fn insert_char(&mut self, c: char)
        requires
            old(self).wf(),
        ensures
            final(self).wf(),
            final(self)@ == tb_insert_char(old(self)@, c),
    {
        if self.x_data_editing_at < usize::MAX {
            let y = self.y_data_editing_at;
            let mut line = self.data.remove(y);
            line.insert(self.x_data_editing_at, c);
            self.data.insert(y, line);
            self.x_data_editing_at = self.x_data_editing_at + 1;
            proof {
                assert(self@.texts =~= tb_insert_char(old(self)@, c).texts);
                assert(self@ =~= tb_insert_char(old(self)@, c));
            }
        }
    }

    /// Insert an opening character and its closing partner at the cursor,
    /// leaving the cursor between the two.
    pub fn insert_pair(&mut self, c: char, closer: char)
        requires
            old(self).wf(),
        ensures
            final(self).wf(),
            final(self)@ == tb_insert_pair(old(self)@, c, closer),
    {
        if self.x_data_editing_at < usize::MAX {
            let y = self.y_data_editing_at;
            let mut line = self.data.remove(y);
            line.insert(self.x_data_editing_at, c);
            line.insert(self.x_data_editing_at + 1, closer);
            self.data.insert(y, line);
            self.x_data_editing_at = self.x_data_editing_at + 1;
            proof {
                let x = old(self)@.x_data_editing_at;
                assert(old(self)@.cur_line().insert(x, c).insert(x + 1, closer) =~= old(
                    self,
                )@.cur_line().insert(x, closer).insert(x, c));
                assert(self@.texts =~= tb_insert_pair(old(self)@, c, closer).texts);
                assert(self@ =~= tb_insert_pair(old(self)@, c, closer));
            }
        }
    }

    /// Split the cursor's line at the cursor column; the remainder becomes
    /// a new line just below, and the cursor moves to its start.
    pub fn insert_newline(&mut self)
        requires
            old(self).wf(),
        ensures
            final(self).wf(),
            final(self)@ == tb_insert_newline(old(self)@),
    {
        let n = self.data.len();
        let y = self.y_data_editing_at;
        assert(y < n);
        let mut line = self.data.remove(y);
        let rest = line.split_off(self.x_data_editing_at);
        self.data.insert(y, line);
        self.data.insert(y + 1, rest);
        self.y_data_editing_at = y + 1;
        self.x_data_editing_at = 0;
        proof {
            assert(self@.texts =~= tb_insert_newline(old(self)@).texts);
            assert(self@ =~= tb_insert_newline(old(self)@));
        }
    }

    /// Delete the character before the cursor; at the start of a line,
    /// merge the line into the one above instead.  At the very start of
    /// the buffer nothing happens.
    pub fn backspace(&mut self)
        requires
            old(self).wf(),
        ensures
            final(self).wf(),
            final(self)@ == tb_backspace(old(self)@),
    {
        if self.x_data_editing_at > 0 {
            let y = self.y_data_editing_at;
            let mut line = self.data.remove(y);
            line.remove(self.x_data_editing_at - 1);
            self.data.insert(y, line);
            self.x_data_editing_at = self.x_data_editing_at - 1;
            proof {
                assert(self@.texts =~= tb_backspace(old(self)@).texts);
                assert(self@ =~= tb_backspace(old(self)@));
            }
        } else if self.y_data_editing_at > 0 {
            let y = self.y_data_editing_at;
            let mut removed = self.data.remove(y);
            let mut prev = self.data.remove(y - 1);
            let merged_at = prev.len();
            prev.append(&mut removed);
            self.data.insert(y - 1, prev);
            self.x_data_editing_at = merged_at;
            self.y_data_editing_at = y - 1;
            proof {
                assert(self@.texts =~= tb_backspace(old(self)@).texts);
                assert(self@ =~= tb_backspace(old(self)@));
            }
        }
    }

    /// Move the cursor up one line, clamping the column; at the top line
    /// nothing happens.
    pub fn move_up(&mut self)
        requires
            old(self).wf(),
        ensures
            final(self).wf(),
            final(self)@ == tb_move_up(old(self)@),
    {
        if self.y_data_editing_at > 0 {
            self.y_data_editing_at = self.y_data_editing_at - 1;
            let line_len = self.data[self.y_data_editing_at].len();
            if self.x_data_editing_at > line_len {
                self.x_data_editing_at = line_len;
            }
        }
        proof {
            assert(self@ =~= tb_move_up(old(self)@));
        }
    }

    /// Move the cursor down one line, clamping the column; at the bottom
    /// line nothing happens.
    pub fn move_down(&mut self)
        requires
            old(self).wf(),
        ensures
            final(self).wf(),
            final(self)@ == tb_move_down(old(self)@),
    {
        if self.y_data_editing_at < self.data.len() - 1 {
            self.y_data_editing_at = self.y_data_editing_at + 1;
            let line_len = self.data[self.y_data_editing_at].len();
            if self.x_data_editing_at > line_len {
                self.x_data_editing_at = line_len;
            }
        }
        proof {
            assert(self@ =~= tb_move_down(old(self)@));
        }
    }

    /// Move the cursor one column left, stopping at the start of the line.
    pub fn move_left(&mut self)
        requires
            old(self).wf(),
        ensures
            final(self).wf(),
            final(self)@ == tb_move_left(old(self)@),
    {
        if self.x_data_editing_at > 0 {
            self.x_data_editing_at = self.x_data_editing_at - 1;
        }
        proof {
            assert(self@ =~= tb_move_left(old(self)@));
        }
    }

    /// Move the cursor one column right, stopping just past the line's
    /// last character.
    pub fn move_right(&mut self)
        requires
            old(self).wf(),
        ensures
            final(self).wf(),
            final(self)@ == tb_move_right(old(self)@),
    {
        let line_len = self.data[self.y_data_editing_at].len();
        if self.x_data_editing_at < line_len {
            self.x_data_editing_at = self.x_data_editing_at + 1;
        }
        proof {
            assert(self@ =~= tb_move_right(old(self)@));
        }
    }

    /// Replace the whole text, putting the cursor back at the buffer's
    /// start.
    pub fn set_lines(&mut self, lines: Vec<Vec<char>>)
        requires
            lines@.len() >= 1,
        ensures
            final(self).wf(),
            final(self)@ == (TextBufferView {
                texts: lines_view(lines@),
                x_data_editing_at: 0,
                y_data_editing_at: 0,
            }),
    {
        self.data = lines;
        self.x_data_editing_at = 0;
        self.y_data_editing_at = 0;
        proof {
            assert(self@ =~= (TextBufferView {
                texts: lines_view(self.data@),
                x_data_editing_at: 0,
                y_data_editing_at: 0,
            }));
        }
    }

    /// The whole text joined with a separator between lines.
    pub fn joined(&self, c: char) -> (r: Vec<char>)
        ensures
            r@ == join_with(self@.texts, c),
    {
        join_vec(&self.data, c)
    }
}

} // verus!
