//! The tokenizer: a `vte::Parser` that classifies raw bytes into events.
//! What the parser does is taken on trust from the `vte` crate; this module
//! holds the declarations that say so, and nothing of the buffer's own rules.

use vstd::prelude::*;
use crate::event::{params_view, tokens_of, Event};
use crate::screen::Token;

verus! {

/// The tokenizer of the `vte` crate. Its state is opaque here.
#[verifier::external_type_specification]
#[verifier::external_body]
#[verifier::reject_recursive_types(OSC_RAW_BUF_SIZE)]
pub struct ExParser<const OSC_RAW_BUF_SIZE: usize>(vte::Parser<OSC_RAW_BUF_SIZE>);

/// The parameter list that `vte` hands to a dispatch. Its fields are opaque
/// here.
#[verifier::external_type_specification]
#[verifier::external_body]
pub struct ExParams(vte::Params);

/// The bytes that a parser has taken since it was made, first to last. A
/// parser keeps no other state: two parsers that have taken the same bytes
/// answer the next byte alike.
pub uninterp spec fn consumed(parser: vte::Parser) -> Seq<u8>;

/// The events that a parser which has taken the bytes `consumed` reports
/// when it takes `byte`: its calls of `print`, `execute` and `csi_dispatch`,
/// in the order in which it makes them.
pub uninterp spec fn emitted(consumed: Seq<u8>, byte: u8) -> Seq<Token>;

/// The parameters that a list holds, each with its subparameters, in order.
pub uninterp spec fn param_list(params: vte::Params) -> Seq<Seq<u16>>;

/// Collects the events of one byte in the order in which the parser reports
/// them. What else the parser reports (device control strings, operating
/// system commands, plain escape sequences) goes to the trait's own methods,
/// which do nothing.
struct Recorder {
    events: Vec<Event>,
}

impl View for Recorder {
    type V = Seq<Token>;

    closed spec fn view(&self) -> Seq<Token> {
        tokens_of(self.events@)
    }
}

impl vte::Perform for Recorder {
    /// Records a character to draw, after the events recorded so far.
    fn print(&mut self, c: char)
        ensures
            final(self)@ == old(self)@.push(Token::Print(c)),
    {
        self.events.push(Event::Print(c));
        assert(tokens_of(self.events@) == tokens_of(old(self).events@).push(Token::Print(c)));
    }

    /// Records a control code, after the events recorded so far.
    fn execute(&mut self, byte: u8)
        ensures
            final(self)@ == old(self)@.push(Token::Execute(byte)),
    {
        self.events.push(Event::Execute(byte));
        assert(tokens_of(self.events@) == tokens_of(old(self).events@).push(Token::Execute(byte)));
    }

    /// Records a control sequence with the parameters that `params` holds and
    /// the character that ends it, after the events recorded so far. The
    /// intermediate bytes and the flag for an overlong sequence are not part
    /// of an event.
    fn csi_dispatch(
        &mut self,
        params: &vte::Params,
        _intermediates: &[u8],
        _ignore: bool,
        action: char,
    )
        ensures
            final(self)@ == old(self)@.push(
                Token::Csi { params: param_list(*params), action },
            ),
    {
        let params = param_values(params);
        let ghost token = Token::Csi { params: params_view(params@), action };
        self.events.push(Event::CsiDispatch { params, action });
        assert(tokens_of(self.events@) == tokens_of(old(self).events@).push(token));
    }
}

/// Calls `vte::Parser::new`. Trusted: the new parser has taken no byte.
#[verifier::external_body]
pub(crate) fn new_parser() -> (parser: vte::Parser)
    ensures
        consumed(parser) == Seq::<u8>::empty(),
{
    vte::Parser::new()
}

/// Walks a list with `vte::Params::iter`. Trusted: the result holds the
/// list's parameters, each with its subparameters, in order.
#[verifier::external_body]
fn param_values(params: &vte::Params) -> (values: Vec<Vec<u16>>)
    ensures
        params_view(values@) == param_list(*params),
{
    params.iter().map(|param| param.to_vec()).collect()
}

/// Calls `vte::Parser::advance` with one byte. Trusted: the parser has then
/// taken `byte` after what it had taken before, and the events that come back
/// are those that it reported for this byte, which depend on nothing but the
/// bytes taken so far and `byte`.
#[verifier::external_body]
pub(crate) fn advance(parser: &mut vte::Parser, byte: u8) -> (events: Vec<Event>)
    ensures
        consumed(*final(parser)) == consumed(*old(parser)).push(byte),
        tokens_of(events@) == emitted(consumed(*old(parser)), byte),
{
    let mut recorder = Recorder { events: Vec::new() };
    parser.advance(&mut recorder, byte);
    recorder.events
}

} // verus!
