//! The interpreter: it applies print, control-code and control-sequence
//! events to the line store, under a cursor that the caller holds.

use std::collections::VecDeque;
use vstd::prelude::*;
use crate::event::{leading_param, params_view};
use crate::screen::{
    append_line, blank, current_line, erase_from, print_at, tab_width, with_current_line, Screen,
    Token, MAX_CAPACITY,
};

verus! {

/// The lines of a store as sequences of characters.
pub open spec fn lines_view(buffer: Seq<Vec<char>>) -> Seq<Seq<char>> {
    Seq::new(buffer.len(), |i: int| buffer[i]@)
}

/// The bounded line store together with the rules that change it. It never
/// holds more than `MAX_CAPACITY` lines. The cursor is not part of it: every
/// operation takes the column by reference, so that one cursor serves the
/// store for as long as the caller keeps both.
pub struct LogInterpreter {
    buffer: VecDeque<Vec<char>>,
}

impl View for LogInterpreter {
    type V = Seq<Seq<char>>;

    closed spec fn view(&self) -> Seq<Seq<char>> {
        lines_view(self.buffer@)
    }
}

impl LogInterpreter {
    /// The invariant of the store: it is within its capacity.
    #[verifier::type_invariant]
    pub open spec fn within_capacity(&self) -> bool {
        self@.len() <= MAX_CAPACITY
    }

    /// What a reader observes of this store under a cursor at column
    /// `cursor`.
    pub open spec fn screen(&self, cursor: usize) -> Screen {
        Screen { lines: self@, cursor: cursor as nat }
    }

    /// An interpreter over the lines of `buffer`, oldest first. A store holds
    /// at most `MAX_CAPACITY` lines, and so must `buffer`.
    pub fn new(buffer: VecDeque<Vec<char>>) -> (interpreter: Self)
        requires
            buffer@.len() <= MAX_CAPACITY,
        ensures
            interpreter@ == lines_view(buffer@),
            interpreter.within_capacity(),
    {
        LogInterpreter { buffer }
    }

    /// Hands out the lines to work on and leaves the store without lines
    /// until they are put back.
    fn take_lines(&mut self) -> (buffer: VecDeque<Vec<char>>)
        ensures
            lines_view(buffer@) == old(self)@,
            buffer@.len() <= MAX_CAPACITY,
    {
        proof {
            use_type_invariant(&*self);
        }
        let mut emptied = LogInterpreter { buffer: VecDeque::new() };
        std::mem::swap(self, &mut emptied);
        emptied.buffer
    }

    /// Writes `c` at column `cursor` of the current line and moves the cursor
    /// one column right. A store without lines gets an empty line first; a
    /// column past the end of the line is reached by padding with spaces.
    pub fn print_char_with_cursor(&mut self, c: char, cursor: &mut usize)
        ensures
            final(self)@ == with_current_line(
                old(self)@,
                print_at(current_line(old(self)@), *old(cursor) as nat, c),
            ),
            *final(cursor) == *old(cursor) + 1,
            final(self).within_capacity(),
    {
        let mut buffer = self.take_lines();
        let ghost before = buffer@;
        let mut line = match buffer.pop_back() {
            Some(line) => line,
            None => Vec::new(),
        };
        let ghost start = line@;
        assert(start == current_line(lines_view(before)));
        let column = *cursor;
        if column < line.len() {
            line[column] = c;
        } else {
            while line.len() < column
                invariant
                    line@.len() <= column,
                    line@ == start + blank((line@.len() - start.len()) as nat),
                decreases column - line@.len(),
            {
                line.push(' ');
            }
            line.push(c);
        }
        assert(line@ == print_at(start, column as nat, c));
        // The column written lies inside the line, and the length of a line
        // fits in a `usize`: so does the next column.
        assert(column < line.len());
        buffer.push_back(line);
        assert(lines_view(buffer@) == with_current_line(lines_view(before), line@));
        self.buffer = buffer;
        *cursor = column + 1;
    }

    /// Draws `c` at the cursor.
    pub fn print(&mut self, c: char, cursor: &mut usize)
        ensures
            final(self).screen(*final(cursor)) == old(self).screen(*old(cursor)).print(c),
            final(self).within_capacity(),
    {
        self.print_char_with_cursor(c, cursor);
    }

    /// Applies a single-byte control code: line feed, carriage return,
    /// horizontal tab or backspace. Any other byte changes nothing.
    pub fn execute(&mut self, byte: u8, cursor: &mut usize)
        ensures
            final(self).screen(*final(cursor)) == old(self).screen(*old(cursor)).execute(byte),
            final(self).within_capacity(),
    {
        proof {
            use_type_invariant(&*self);
        }
        if byte == 0x0A {
            let mut buffer = self.take_lines();
            let ghost before = buffer@;
            if buffer.len() >= MAX_CAPACITY {
                buffer.pop_front();
            }
            buffer.push_back(Vec::new());
            assert(lines_view(buffer@) == append_line(lines_view(before), Seq::empty()));
            self.buffer = buffer;
            *cursor = 0;
        } else if byte == 0x0D {
            *cursor = 0;
        } else if byte == 0x09 {
            let spaces: usize = 8 - *cursor % 8;
            let ghost target = old(self).screen(*old(cursor)).tab();
            let mut printed: usize = 0;
            while printed < spaces
                invariant
                    printed <= spaces,
                    spaces == tab_width(*old(cursor) as nat),
                    self.screen(*cursor).print_repeat(' ', (spaces - printed) as nat) == target,
                    self.within_capacity(),
                decreases spaces - printed,
            {
                self.print_char_with_cursor(' ', cursor);
                printed += 1;
            }
        } else if byte == 0x08 {
            if *cursor > 0 {
                *cursor -= 1;
            }
        }
    }

    /// Applies a parameterized control sequence. `G` moves the cursor to a
    /// 1-based column, `C` and `D` move it right and left, and `K` with
    /// parameter 0 erases the current line from the cursor on. Any other
    /// sequence changes nothing. The one demand is that of the machine: the
    /// column that `C` leads to fits in a `usize`.
    pub fn csi_dispatch(&mut self, params: &Vec<Vec<u16>>, action: char, cursor: &mut usize)
        requires
            old(self).screen(*old(cursor)).admits(
                Token::Csi { params: params_view(params@), action },
            ),
        ensures
            final(self).screen(*final(cursor)) == old(self).screen(*old(cursor)).csi_dispatch(
                params_view(params@),
                action,
            ),
            final(self)@.len() == old(self)@.len(),
            final(self).within_capacity(),
    {
        proof {
            use_type_invariant(&*self);
        }
        if action == 'G' {
            let column = leading_param(params, 1);
            *cursor = if column > 0 {
                (column - 1) as usize
            } else {
                0
            };
        } else if action == 'K' {
            if leading_param(params, 0) == 0 {
                let mut buffer = self.take_lines();
                let ghost before = buffer@;
                match buffer.pop_back() {
                    Some(mut line) => {
                        let ghost start = line@;
                        if *cursor < line.len() {
                            line.truncate(*cursor);
                        }
                        assert(line@ == erase_from(start, *cursor as nat));
                        buffer.push_back(line);
                        assert(lines_view(buffer@) == with_current_line(
                            lines_view(before),
                            line@,
                        ));
                    },
                    None => {},
                }
                self.buffer = buffer;
            }
        } else if action == 'C' {
            *cursor += leading_param(params, 1) as usize;
        } else if action == 'D' {
            let columns = leading_param(params, 1) as usize;
            *cursor = if *cursor >= columns {
                *cursor - columns
            } else {
                0
            };
        }
    }

    /// Appends `line` as the newest line; at capacity the oldest line leaves
    /// first.
    pub fn push_line(&mut self, line: Vec<char>)
        ensures
            final(self)@ == append_line(old(self)@, line@),
            final(self).within_capacity(),
    {
        let mut buffer = self.take_lines();
        let ghost before = buffer@;
        if buffer.len() >= MAX_CAPACITY {
            buffer.pop_front();
        }
        buffer.push_back(line);
        assert(lines_view(buffer@) == append_line(lines_view(before), line@));
        self.buffer = buffer;
    }

    /// Removes every line.
    pub fn clear(&mut self)
        ensures
            final(self)@ == Seq::<Seq<char>>::empty(),
            final(self).within_capacity(),
    {
        let mut buffer = self.take_lines();
        buffer.clear();
        assert(lines_view(buffer@) == Seq::<Seq<char>>::empty());
        self.buffer = buffer;
    }

    /// The number of lines in the store.
    pub fn len(&self) -> (count: usize)
        ensures
            count == self@.len(),
            count <= MAX_CAPACITY,
    {
        proof {
            use_type_invariant(self);
        }
        self.buffer.len()
    }

    /// The characters of line `index`, or `None` where the store has no such
    /// line.
    pub fn line(&self, index: usize) -> (line: Option<&Vec<char>>)
        ensures
            index < self@.len() ==> line is Some && line->0@ == self@[index as int],
            index >= self@.len() ==> line is None,
    {
        if index < self.buffer.len() {
            Some(&self.buffer[index])
        } else {
            None
        }
    }
}

} // verus!
