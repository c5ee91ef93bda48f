//! The events that the tokenizer hands to the interpreter, as plain values.

use vstd::prelude::*;
use crate::screen::{first_param, without_placeholders, Token};

verus! {

/// One event of the tokenizer.
#[derive(Debug, PartialEq, Eq)]
pub enum Event {
    /// A character to draw at the cursor.
    Print(char),
    /// A single-byte control code.
    Execute(u8),
    /// A parameterized control sequence: its parameters, each with its
    /// subparameters, and the character that ends it.
    CsiDispatch { params: Vec<Vec<u16>>, action: char },
}

/// A parameter list as a sequence of sequences.
pub open spec fn params_view(params: Seq<Vec<u16>>) -> Seq<Seq<u16>> {
    Seq::new(params.len(), |i: int| params[i]@)
}

impl View for Event {
    type V = Token;

    open spec fn view(&self) -> Token {
        match *self {
            Event::Print(c) => Token::Print(c),
            Event::Execute(byte) => Token::Execute(byte),
            Event::CsiDispatch { params, action } => Token::Csi {
                params: params_view(params@),
                action,
            },
        }
    }
}

/// A sequence of events as the tokens that the model reads.
pub open spec fn tokens_of(events: Seq<Event>) -> Seq<Token> {
    Seq::new(events.len(), |i: int| events[i]@)
}

impl Event {
    /// The event as the interpreter is to read it: a first parameter that is
    /// the single value 0 stands for one that was left out, and becomes an
    /// empty parameter.
    pub fn without_placeholder(self) -> (read: Event)
        ensures
            read@ == self@.without_placeholder(),
    {
        match self {
            Event::CsiDispatch { params, action } => {
                let mut params = params;
                let ghost reported = params_view(params@);
                if params.len() > 0 && params[0].len() == 1 && params[0][0] == 0 {
                    params[0] = Vec::new();
                    assert(params_view(params@) == reported.update(0, Seq::empty()));
                }
                Event::CsiDispatch { params, action }
            },
            other => other,
        }
    }
}

/// The events of `events`, in order, each as the interpreter is to read it.
pub fn strip_placeholders(events: Vec<Event>) -> (read: Vec<Event>)
    ensures
        tokens_of(read@) == without_placeholders(tokens_of(events@)),
{
    let ghost reported = events@;
    let mut read: Vec<Event> = Vec::new();
    for event in rest: events
        invariant
            rest.seq() == reported,
            read@.len() == rest.index(),
            forall|i: int|
                0 <= i < read@.len() ==> (#[trigger] read@[i])@ == reported[i]@.without_placeholder(),
    {
        read.push(event.without_placeholder());
    }
    assert(tokens_of(read@) == without_placeholders(tokens_of(reported)));
    read
}

/// The parameter that a control sequence acts on: the first subparameter of
/// its first parameter, or `default` where the list has none.
pub fn leading_param(params: &Vec<Vec<u16>>, default: u16) -> (value: u16)
    ensures
        value == first_param(params_view(params@), default),
{
    if params.len() > 0 && params[0].len() > 0 {
        params[0][0]
    } else {
        default
    }
}

} // verus!
