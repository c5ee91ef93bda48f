//! Conversions between a line of characters and text.

use vstd::prelude::*;
use vstd::std_specs::iter::IteratorSpec;

verus! {

/// `String::push` appends one character to the end of the string.
pub assume_specification[ String::push ](text: &mut String, c: char)
    ensures
        final(text)@ == old(text)@.push(c),
;

/// The text that holds the characters of `line`, in order.
pub fn text_of(line: &Vec<char>) -> (text: String)
    ensures
        text@ == line@,
{
    let mut text = String::new();
    let mut i: usize = 0;
    while i < line.len()
        invariant
            i <= line.len(),
            text@ == line@.take(i as int),
        decreases line.len() - i,
    {
        text.push(line[i]);
        i += 1;
    }
    text
}

/// The characters of `text`, in order.
pub fn chars_of(text: &str) -> (line: Vec<char>)
    ensures
        line@ == text@,
{
    broadcast use vstd::string::group_string_axioms;

    let mut line: Vec<char> = Vec::new();
    let mut rest = text.chars();
    loop
        invariant
            line@ + rest.remaining() == text@,
            rest.decrease() is Some,
        ensures
            line@ == text@,
        decreases rest.decrease()->0,
    {
        let ghost before = rest.remaining();
        match rest.next() {
            Some(c) => {
                assert(line@.push(c) + before.drop_first() == line@ + before);
                line.push(c);
            },
            None => {
                assert(line@ + before == line@);
                break;
            },
        }
    }
    line
}

} // verus!
