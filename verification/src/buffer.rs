//! The buffer: one tokenizer, one line store and one cursor, behind the
//! operations that a caller feeds bytes to and a display reads lines from.

use std::collections::VecDeque;
use vstd::prelude::*;
use crate::event::{leading_param, strip_placeholders, tokens_of, Event};
use crate::interpreter::LogInterpreter;
use crate::screen::{append_line, line_text, without_placeholders, Screen, MAX_CAPACITY};
use crate::text::{chars_of, text_of};
use crate::tokenizer::{advance, consumed, emitted, new_parser};

verus! {

/// The screen after a tokenizer that has taken `consumed` takes `bytes`, and
/// each event that it reports is applied in turn, read without the 0 that the
/// tokenizer puts in the place of a first parameter that was left out.
pub open spec fn feed(screen: Screen, consumed: Seq<u8>, bytes: Seq<u8>) -> Screen
    decreases bytes.len(),
{
    if bytes.len() == 0 {
        screen
    } else {
        feed(
            screen.run(without_placeholders(emitted(consumed, bytes[0]))),
            consumed.push(bytes[0]),
            bytes.skip(1),
        )
    }
}

/// A terminal buffer. It lives as long as its owner keeps it; two buffers
/// share nothing. It never retains more than `MAX_CAPACITY` lines.
pub struct TerminalBuffer {
    interpreter: LogInterpreter,
    cursor: usize,
    parser: vte::Parser,
}

impl View for TerminalBuffer {
    type V = Screen;

    closed spec fn view(&self) -> Screen {
        self.interpreter.screen(self.cursor)
    }
}

impl TerminalBuffer {
    /// The bytes that the buffer's tokenizer has taken since the buffer was
    /// made. `clear` does not reset them: a control sequence that is cut in
    /// two by a `clear` is still read as one.
    pub closed spec fn consumed(&self) -> Seq<u8> {
        consumed(self.parser)
    }

    /// A buffer without lines, its cursor at column 0, its tokenizer new.
    pub fn new() -> (buffer: Self)
        ensures
            buffer@ == Screen::empty(),
            buffer@.within_capacity(),
            buffer.consumed() == Seq::<u8>::empty(),
    {
        let interpreter = LogInterpreter::new(VecDeque::new());
        assert(interpreter@ == Seq::<Seq<char>>::empty());
        TerminalBuffer { interpreter, cursor: 0, parser: new_parser() }
    }

    /// Applies one event. An event that would move the cursor to a column
    /// that no `usize` holds is dropped, and the answer is `false`.
    pub fn apply(&mut self, event: &Event) -> (applied: bool)
        ensures
            applied == old(self)@.admits(event@),
            final(self)@ == old(self)@.apply(event@),
            final(self).consumed() == old(self).consumed(),
            final(self)@.within_capacity(),
    {
        proof {
            use_type_invariant(&self.interpreter);
        }
        match event {
            Event::Print(c) => {
                self.interpreter.print(*c, &mut self.cursor);
                true
            },
            Event::Execute(byte) => {
                self.interpreter.execute(*byte, &mut self.cursor);
                true
            },
            Event::CsiDispatch { params, action } => {
                if *action == 'C' && leading_param(params, 1) as usize > usize::MAX - self.cursor {
                    false
                } else {
                    self.interpreter.csi_dispatch(params, *action, &mut self.cursor);
                    true
                }
            },
        }
    }

    /// Applies a sequence of events, first to last.
    pub fn apply_all(&mut self, events: &Vec<Event>)
        ensures
            final(self)@ == old(self)@.run(tokens_of(events@)),
            final(self).consumed() == old(self).consumed(),
            final(self)@.within_capacity(),
    {
        proof {
            use_type_invariant(&self.interpreter);
        }
        let ghost tokens = tokens_of(events@);
        assert(tokens.skip(0) == tokens);
        let mut next: usize = 0;
        while next < events.len()
            invariant
                next <= events.len(),
                tokens == tokens_of(events@),
                self@.run(tokens.skip(next as int)) == old(self)@.run(tokens),
                self.consumed() == old(self).consumed(),
                self@.within_capacity(),
            decreases events.len() - next,
        {
            assert(tokens.skip(next as int)[0] == events@[next as int]@);
            assert(tokens.skip(next as int).skip(1) == tokens.skip(next + 1));
            self.apply(&events[next]);
            next += 1;
        }
    }

    /// Feeds raw bytes through the tokenizer and applies every event that it
    /// reports, in order. A control sequence that leaves its first parameter
    /// out acts by its default; so does one that writes that parameter as 0,
    /// which the tokenizer reports in the same way.
    pub fn push(&mut self, bytes: &[u8])
        ensures
            final(self)@ == feed(old(self)@, old(self).consumed(), bytes@),
            final(self).consumed() == old(self).consumed() + bytes@,
            final(self)@.within_capacity(),
    {
        proof {
            use_type_invariant(&self.interpreter);
        }
        assert(bytes@.skip(0) == bytes@);
        let mut next: usize = 0;
        while next < bytes.len()
            invariant
                next <= bytes.len(),
                feed(self@, self.consumed(), bytes@.skip(next as int)) == feed(
                    old(self)@,
                    old(self).consumed(),
                    bytes@,
                ),
                self.consumed() == old(self).consumed() + bytes@.take(next as int),
                self@.within_capacity(),
            decreases bytes.len() - next,
        {
            assert(bytes@.skip(next as int)[0] == bytes@[next as int]);
            assert(bytes@.skip(next as int).skip(1) == bytes@.skip(next + 1));
            assert(bytes@.take(next as int).push(bytes@[next as int]) == bytes@.take(next + 1));
            let events = strip_placeholders(advance(&mut self.parser, bytes[next]));
            self.apply_all(&events);
            next += 1;
        }
        assert(bytes@.take(next as int) == bytes@);
    }

    /// Appends `text` as the newest line, as it stands: no control code in it
    /// is interpreted, and the cursor stays where it is. At capacity the
    /// oldest line leaves first.
    pub fn push_line(&mut self, text: &str)
        ensures
            final(self)@.lines == append_line(old(self)@.lines, text@),
            final(self)@.cursor == old(self)@.cursor,
            final(self).consumed() == old(self).consumed(),
            final(self)@.within_capacity(),
    {
        self.interpreter.push_line(chars_of(text));
    }

    /// The text of line `index`, counted from the oldest retained line; empty
    /// where `index` is negative or the buffer has no such line.
    pub fn get_line(&self, index: i32) -> (text: String)
        ensures
            text@ == line_text(self@.lines, index as int),
    {
        if index < 0 {
            return String::new();
        }
        match self.interpreter.line(index as usize) {
            Some(line) => text_of(line),
            None => String::new(),
        }
    }

    /// The number of lines that the buffer retains.
    pub fn get_size(&self) -> (size: usize)
        ensures
            size == self@.lines.len(),
            size <= MAX_CAPACITY,
    {
        self.interpreter.len()
    }

    /// The column of the cursor.
    pub fn cursor(&self) -> (column: usize)
        ensures
            column == self@.cursor,
    {
        self.cursor
    }

    /// Removes every line and returns the cursor to column 0.
    pub fn clear(&mut self)
        ensures
            final(self)@ == Screen::empty(),
            final(self)@.within_capacity(),
            final(self).consumed() == old(self).consumed(),
    {
        self.interpreter.clear();
        self.cursor = 0;
    }
}

} // verus!
