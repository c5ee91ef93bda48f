//! The mathematical model of the terminal buffer: the retained lines, the
//! cursor column, and what each tokenizer event does to them.

use vstd::prelude::*;

verus! {

/// The largest number of lines that the line store retains.
pub const MAX_CAPACITY: usize = 10000;

/// What a reader of the buffer can observe: the retained lines, oldest first,
/// and the column of the one cursor, which always applies to the last line.
pub struct Screen {
    pub lines: Seq<Seq<char>>,
    pub cursor: nat,
}

/// One event of the tokenizer, as the interpreter reads it.
pub enum Token {
    /// A character to draw at the cursor.
    Print(char),
    /// A single-byte control code.
    Execute(u8),
    /// A parameterized control sequence: its parameters, each with its
    /// subparameters, and the character that ends it.
    Csi { params: Seq<Seq<u16>>, action: char },
}

/// A run of `n` space characters.
pub open spec fn blank(n: nat) -> Seq<char> {
    Seq::new(n, |i: int| ' ')
}

/// The line after `c` is written at column `cursor`: a character inside the
/// line is replaced, a column at or past the end is reached by padding with
/// spaces.
pub open spec fn print_at(line: Seq<char>, cursor: nat, c: char) -> Seq<char> {
    if cursor < line.len() {
        line.update(cursor as int, c)
    } else {
        (line + blank((cursor - line.len()) as nat)).push(c)
    }
}

/// The line after `c` is written at each of the `n` columns from `cursor`
/// on: the columns written hold `c`, the columns before them that the line
/// did not reach hold spaces, and every other column is as it was.
pub open spec fn overwrite(line: Seq<char>, cursor: nat, c: char, n: nat) -> Seq<char> {
    Seq::new(
        if line.len() >= cursor + n {
            line.len()
        } else {
            cursor + n
        },
        |i: int|
            if cursor <= i < cursor + n {
                c
            } else if i < line.len() {
                line[i]
            } else {
                ' '
            },
    )
}

/// The line after everything from column `cursor` on is erased.
pub open spec fn erase_from(line: Seq<char>, cursor: nat) -> Seq<char> {
    if cursor < line.len() {
        line.take(cursor as int)
    } else {
        line
    }
}

/// The current line of a store: its last line, or an empty line where the
/// store holds none yet.
pub open spec fn current_line(lines: Seq<Seq<char>>) -> Seq<char> {
    if lines.len() == 0 {
        Seq::empty()
    } else {
        lines.last()
    }
}

/// The store with its current line replaced by `line`; an empty store gets
/// `line` as its first line.
pub open spec fn with_current_line(lines: Seq<Seq<char>>, line: Seq<char>) -> Seq<Seq<char>> {
    if lines.len() == 0 {
        seq![line]
    } else {
        lines.update(lines.len() - 1, line)
    }
}

/// The store after one more line is appended: at capacity the oldest line
/// leaves first, and the order of the others is kept.
pub open spec fn append_line(lines: Seq<Seq<char>>, line: Seq<char>) -> Seq<Seq<char>> {
    if lines.len() >= MAX_CAPACITY {
        lines.skip(1).push(line)
    } else {
        lines.push(line)
    }
}

/// The first subparameter of the first parameter, or `default` where the
/// list has none.
pub open spec fn first_param(params: Seq<Seq<u16>>, default: u16) -> u16 {
    if params.len() > 0 && params[0].len() > 0 {
        params[0][0]
    } else {
        default
    }
}

/// The number of columns from `cursor` to the next tab stop; tab stops stand
/// at the multiples of 8.
pub open spec fn tab_width(cursor: nat) -> nat {
    (8 - cursor % 8) as nat
}

/// What line `index` reads as: its characters, or nothing where the store has
/// no such line.
pub open spec fn line_text(lines: Seq<Seq<char>>, index: int) -> Seq<char> {
    if 0 <= index < lines.len() {
        lines[index]
    } else {
        Seq::empty()
    }
}

/// The first parameter of the list is the single value 0. That is how the
/// tokenizer reports a first parameter that the sequence left out; it reports
/// a 0 that the sequence wrote out in the same way.
pub open spec fn has_placeholder(params: Seq<Seq<u16>>) -> bool {
    params.len() > 0 && params[0].len() == 1 && params[0][0] == 0
}

impl Token {
    /// The event that prints `c`.
    pub open spec fn of_char(c: char) -> Token {
        Token::Print(c)
    }

    /// The event as the interpreter is to read it. A control sequence whose
    /// first parameter is the single value 0 is read as one that left its
    /// first parameter out: that parameter becomes an empty one, so that the
    /// command's default applies, and the other parameters stay. The
    /// tokenizer cannot tell a 0 that was left out from a 0 that was written,
    /// and the buffer takes both for left out: `ESC [ 0 C` moves the cursor
    /// one column, as `ESC [ C` does. Every other event is read as it is.
    pub open spec fn without_placeholder(self) -> Token {
        match self {
            Token::Csi { params, action } => if has_placeholder(params) {
                Token::Csi { params: params.update(0, Seq::empty()), action }
            } else {
                self
            },
            _ => self,
        }
    }
}

/// The events of `tokens`, each as the interpreter is to read it.
pub open spec fn without_placeholders(tokens: Seq<Token>) -> Seq<Token> {
    tokens.map_values(|token: Token| token.without_placeholder())
}

/// The events that print the characters of `chars`, one after the other.
pub open spec fn prints(chars: Seq<char>) -> Seq<Token> {
    chars.map_values(|c: char| Token::of_char(c))
}

impl Screen {
    /// The screen of a new or cleared buffer.
    pub open spec fn empty() -> Screen {
        Screen { lines: Seq::empty(), cursor: 0 }
    }

    /// The line store is within its capacity.
    pub open spec fn within_capacity(self) -> bool {
        self.lines.len() <= MAX_CAPACITY
    }

    /// `c` is written at the cursor, which moves one column right.
    pub open spec fn print(self, c: char) -> Screen {
        Screen {
            lines: with_current_line(
                self.lines,
                print_at(current_line(self.lines), self.cursor, c),
            ),
            cursor: self.cursor + 1,
        }
    }

    /// `c` is printed `n` times in a row.
    pub open spec fn print_repeat(self, c: char, n: nat) -> Screen
        decreases n,
    {
        if n == 0 {
            self
        } else {
            self.print(c).print_repeat(c, (n - 1) as nat)
        }
    }

    /// A new empty line becomes the current one and the cursor returns to
    /// column 0.
    pub open spec fn line_feed(self) -> Screen {
        Screen { lines: append_line(self.lines, Seq::empty()), cursor: 0 }
    }

    /// The cursor returns to column 0.
    pub open spec fn carriage_return(self) -> Screen {
        Screen { lines: self.lines, cursor: 0 }
    }

    /// Spaces are printed up to the next tab stop.
    pub open spec fn tab(self) -> Screen {
        self.print_repeat(' ', tab_width(self.cursor))
    }

    /// The cursor moves `n` columns left and stops at column 0.
    pub open spec fn cursor_back(self, n: nat) -> Screen {
        Screen { lines: self.lines, cursor: if self.cursor >= n { (self.cursor - n) as nat } else { 0 } }
    }

    /// The cursor moves `n` columns right, whatever the length of the line.
    pub open spec fn cursor_forward(self, n: nat) -> Screen {
        Screen { lines: self.lines, cursor: self.cursor + n }
    }

    /// The cursor moves to the 1-based column `column`; column 0 counts as
    /// column 1.
    pub open spec fn cursor_to_column(self, column: nat) -> Screen {
        Screen { lines: self.lines, cursor: if column > 0 { (column - 1) as nat } else { 0 } }
    }

    /// The current line is erased from the cursor on; a store without lines
    /// stays as it is.
    pub open spec fn erase_to_end(self) -> Screen {
        if self.lines.len() == 0 {
            self
        } else {
            Screen {
                lines: with_current_line(self.lines, erase_from(self.lines.last(), self.cursor)),
                cursor: self.cursor,
            }
        }
    }

    /// The effect of a single-byte control code.
    pub open spec fn execute(self, byte: u8) -> Screen {
        if byte == 0x0A {
            self.line_feed()
        } else if byte == 0x0D {
            self.carriage_return()
        } else if byte == 0x09 {
            self.tab()
        } else if byte == 0x08 {
            self.cursor_back(1)
        } else {
            self
        }
    }

    /// The effect of a parameterized control sequence.
    pub open spec fn csi_dispatch(self, params: Seq<Seq<u16>>, action: char) -> Screen {
        if action == 'G' {
            self.cursor_to_column(first_param(params, 1) as nat)
        } else if action == 'K' {
            if first_param(params, 0) == 0 {
                self.erase_to_end()
            } else {
                self
            }
        } else if action == 'C' {
            self.cursor_forward(first_param(params, 1) as nat)
        } else if action == 'D' {
            self.cursor_back(first_param(params, 1) as nat)
        } else {
            self
        }
    }

    /// The effect of one tokenizer event.
    pub open spec fn step(self, token: Token) -> Screen {
        match token {
            Token::Print(c) => self.print(c),
            Token::Execute(byte) => self.execute(byte),
            Token::Csi { params, action } => self.csi_dispatch(params, action),
        }
    }

    /// The cursor column that `token` leads to can be held in a `usize`. Only
    /// a cursor-forward sequence can ask for a column that cannot.
    pub open spec fn admits(self, token: Token) -> bool {
        match token {
            Token::Csi { params, action } => action == 'C' ==> self.cursor + first_param(params, 1)
                <= usize::MAX,
            _ => true,
        }
    }

    /// The effect of one event on a buffer: an event that the screen does not
    /// admit is dropped.
    pub open spec fn apply(self, token: Token) -> Screen {
        if self.admits(token) {
            self.step(token)
        } else {
            self
        }
    }

    /// The effect of a sequence of events on a buffer, first to last.
    pub open spec fn run(self, tokens: Seq<Token>) -> Screen
        decreases tokens.len(),
    {
        if tokens.len() == 0 {
            self
        } else {
            self.apply(tokens[0]).run(tokens.skip(1))
        }
    }
}

} // verus!
