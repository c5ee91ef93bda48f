//! What holds of the interpreter's rules on every screen.

use vstd::prelude::*;
use crate::buffer::feed;
use crate::screen::{
    blank, current_line, first_param, has_placeholder, line_text, overwrite, print_at, prints,
    with_current_line, without_placeholders, Screen, Token, MAX_CAPACITY,
};
use crate::tokenizer::emitted;

verus! {

/// One print, column by column: the line grows to hold the column written
/// and no further, that column holds the character, the columns between the
/// old end of the line and the cursor hold spaces, and every other column is
/// as it was.
pub proof fn lemma_print_at(line: Seq<char>, cursor: nat, c: char)
    ensures
        print_at(line, cursor, c).len() == if cursor < line.len() {
            line.len()
        } else {
            cursor + 1
        },
        print_at(line, cursor, c)[cursor as int] == c,
        forall|i: int| 0 <= i < line.len() && i != cursor ==> print_at(line, cursor, c)[i] == line[i],
        forall|i: int| line.len() <= i < cursor ==> print_at(line, cursor, c)[i] == ' ',
{
}

/// Printing without a break: on a screen whose cursor stands at the end of
/// the current line, printing the characters of `chars` appends them to that
/// line, and the cursor moves right by their number. A store without lines
/// gets its first line with the first character.
pub proof fn lemma_print_appends(screen: Screen, chars: Seq<char>)
    requires
        screen.cursor == current_line(screen.lines).len(),
    ensures
        screen.run(prints(chars)).cursor == screen.cursor + chars.len(),
        chars.len() == 0 ==> screen.run(prints(chars)).lines == screen.lines,
        chars.len() > 0 ==> screen.run(prints(chars)).lines == with_current_line(
            screen.lines,
            current_line(screen.lines) + chars,
        ),
    decreases chars.len(),
{
    assert(prints(chars).len() == chars.len());
    if chars.len() > 0 {
        let line = current_line(screen.lines);
        let next = screen.print(chars[0]);
        let rest = chars.skip(1);
        assert(prints(chars)[0] == Token::Print(chars[0]));
        assert(prints(chars).skip(1) == prints(rest));
        assert(screen.apply(prints(chars)[0]) == next);
        assert(line + blank(0) == line);
        assert(current_line(next.lines) == line.push(chars[0]));
        lemma_print_appends(next, rest);
        assert(line.push(chars[0]) + rest == line + chars);
        if rest.len() > 0 {
            assert(with_current_line(next.lines, line + chars) == with_current_line(
                screen.lines,
                line + chars,
            ));
        } else {
            assert(line.push(chars[0]) == line + chars);
        }
    }
}

/// Printing into a new buffer: a sequence of one or more characters leaves
/// exactly one line, which holds those characters in order, and the cursor at
/// their number.
pub proof fn lemma_print_into_empty(chars: Seq<char>)
    requires
        chars.len() > 0,
    ensures
        Screen::empty().run(prints(chars)) == (Screen {
            lines: seq![chars],
            cursor: chars.len(),
        }),
{
    lemma_print_appends(Screen::empty(), chars);
    assert(Seq::<char>::empty() + chars == chars);
}

/// A single print is an overwrite of one column.
pub proof fn lemma_print_at_overwrites(line: Seq<char>, cursor: nat, c: char)
    ensures
        print_at(line, cursor, c) == overwrite(line, cursor, c, 1),
{
    assert(print_at(line, cursor, c) =~= overwrite(line, cursor, c, 1));
}

/// Printing `c` one or more times in a row overwrites that many columns of
/// the current line from the cursor on, pads with spaces up to the cursor
/// where the line was shorter, leaves every other line as it was, and moves
/// the cursor right by the number of prints.
pub proof fn lemma_print_repeat(screen: Screen, c: char, n: nat)
    requires
        n > 0,
    ensures
        screen.print_repeat(c, n) == (Screen {
            lines: with_current_line(
                screen.lines,
                overwrite(current_line(screen.lines), screen.cursor, c, n),
            ),
            cursor: screen.cursor + n,
        }),
    decreases n,
{
    let line = current_line(screen.lines);
    let next = screen.print(c);
    lemma_print_at_overwrites(line, screen.cursor, c);
    assert(next.print_repeat(c, 0) == next);
    if n > 1 {
        let m = (n - 1) as nat;
        lemma_print_repeat(next, c, m);
        assert(current_line(next.lines) == print_at(line, screen.cursor, c));
        assert(overwrite(print_at(line, screen.cursor, c), screen.cursor + 1, c, m) =~= overwrite(
            line,
            screen.cursor,
            c,
            n,
        ));
        assert(with_current_line(next.lines, overwrite(line, screen.cursor, c, n))
            == with_current_line(screen.lines, overwrite(line, screen.cursor, c, n)));
    }
}

/// A tab moves the cursor to the next multiple of 8 and writes spaces over
/// the columns that it passes.
pub proof fn lemma_tab(screen: Screen)
    ensures
        screen.execute(0x09).cursor > screen.cursor,
        screen.execute(0x09).cursor <= screen.cursor + 8,
        screen.execute(0x09).cursor % 8 == 0,
        screen.execute(0x09).lines == with_current_line(
            screen.lines,
            overwrite(
                current_line(screen.lines),
                screen.cursor,
                ' ',
                (screen.execute(0x09).cursor - screen.cursor) as nat,
            ),
        ),
{
    lemma_print_repeat(screen, ' ', (8 - screen.cursor % 8) as nat);
}

/// A tab on an empty current line with the cursor at column 0 leaves that
/// line as 8 spaces and the cursor at column 8.
pub proof fn lemma_tab_from_line_start(screen: Screen)
    requires
        screen.cursor == 0,
        current_line(screen.lines).len() == 0,
    ensures
        screen.execute(0x09).cursor == 8,
        screen.execute(0x09).lines == with_current_line(screen.lines, blank(8)),
{
    lemma_tab(screen);
    assert(overwrite(current_line(screen.lines), 0, ' ', 8) =~= blank(8));
}

/// A line feed at capacity: the oldest line leaves, the others keep their
/// order, a new empty line is the newest, the store still holds
/// `MAX_CAPACITY` lines, and the cursor is at column 0.
pub proof fn lemma_line_feed_at_capacity(screen: Screen)
    requires
        screen.lines.len() == MAX_CAPACITY,
    ensures
        screen.execute(0x0A).lines.len() == MAX_CAPACITY,
        screen.execute(0x0A).lines == screen.lines.skip(1).push(Seq::empty()),
        forall|i: int|
            0 <= i < MAX_CAPACITY - 1 ==> screen.execute(0x0A).lines[i] == screen.lines[i + 1],
        screen.execute(0x0A).lines.last() == Seq::<char>::empty(),
        screen.execute(0x0A).cursor == 0,
{
}

/// Printing any number of times keeps the number of lines, but for a store
/// without lines, which gets one.
pub proof fn lemma_print_repeat_line_count(screen: Screen, c: char, n: nat)
    ensures
        screen.print_repeat(c, n).lines.len() == if n > 0 && screen.lines.len() == 0 {
            1
        } else {
            screen.lines.len()
        },
{
    if n > 0 {
        lemma_print_repeat(screen, c, n);
    }
}

/// No event takes the store over its capacity.
pub proof fn lemma_apply_within_capacity(screen: Screen, token: Token)
    requires
        screen.within_capacity(),
    ensures
        screen.apply(token).within_capacity(),
{
    lemma_print_repeat_line_count(screen, ' ', (8 - screen.cursor % 8) as nat);
}

/// No sequence of events takes the store over its capacity.
pub proof fn lemma_run_within_capacity(screen: Screen, tokens: Seq<Token>)
    requires
        screen.within_capacity(),
    ensures
        screen.run(tokens).within_capacity(),
    decreases tokens.len(),
{
    if tokens.len() > 0 {
        lemma_apply_within_capacity(screen, tokens[0]);
        lemma_run_within_capacity(screen.apply(tokens[0]), tokens.skip(1));
    }
}

/// A cleared buffer reads as empty: it holds no line, and every index reads
/// as empty text.
pub proof fn lemma_cleared_reads_empty(index: int)
    ensures
        Screen::empty().lines.len() == 0,
        Screen::empty().cursor == 0,
        line_text(Screen::empty().lines, index) == Seq::<char>::empty(),
{
}

/// Moving the cursor to a 1-based column inside the current line and then
/// printing replaces the character at that column and no other, and leaves
/// the cursor one column further.
pub proof fn lemma_column_then_print(screen: Screen, params: Seq<Seq<u16>>, c: char)
    requires
        screen.lines.len() > 0,
        1 <= first_param(params, 1) <= screen.lines.last().len(),
    ensures
        screen.step(Token::Csi { params, action: 'G' }).step(Token::Print(c)) == (Screen {
            lines: screen.lines.update(
                screen.lines.len() - 1,
                screen.lines.last().update(first_param(params, 1) - 1, c),
            ),
            cursor: first_param(params, 1) as nat,
        }),
{
}

/// Moving the cursor right from column 0 of an empty current line and then
/// printing leaves that line as one space for each column passed, followed by
/// the character.
pub proof fn lemma_forward_then_print(screen: Screen, params: Seq<Seq<u16>>, c: char)
    requires
        screen.cursor == 0,
        current_line(screen.lines).len() == 0,
    ensures
        screen.step(Token::Csi { params, action: 'C' }).step(Token::Print(c)) == (Screen {
            lines: with_current_line(
                screen.lines,
                blank(first_param(params, 1) as nat).push(c),
            ),
            cursor: first_param(params, 1) as nat + 1,
        }),
{
    let line = current_line(screen.lines);
    assert(line + blank(first_param(params, 1) as nat) == blank(first_param(params, 1) as nat));
}

/// Erasing in line with parameter 0, given or by default, cuts the current
/// line at the cursor, or leaves it whole where the cursor stands at or past
/// its end; the other lines and the cursor stay as they are.
pub proof fn lemma_erase_to_end(screen: Screen, params: Seq<Seq<u16>>)
    requires
        screen.lines.len() > 0,
        first_param(params, 0) == 0,
    ensures
        screen.step(Token::Csi { params, action: 'K' }) == (Screen {
            lines: screen.lines.update(
                screen.lines.len() - 1,
                screen.lines.last().take(
                    if screen.cursor < screen.lines.last().len() {
                        screen.cursor as int
                    } else {
                        screen.lines.last().len() as int
                    },
                ),
            ),
            cursor: screen.cursor,
        }),
{
    let line = screen.lines.last();
    assert(line.take(line.len() as int) == line);
}

/// Events may be applied in one run or in two: the screen is the same.
pub proof fn lemma_run_concat(screen: Screen, first: Seq<Token>, second: Seq<Token>)
    ensures
        screen.run(first + second) == screen.run(first).run(second),
    decreases first.len(),
{
    if first.len() == 0 {
        assert(first + second == second);
    } else {
        assert((first + second)[0] == first[0]);
        assert((first + second).skip(1) == first.skip(1) + second);
        lemma_run_concat(screen.apply(first[0]), first.skip(1), second);
    }
}

/// Bytes may be pushed in one piece or in two: the screen is the same,
/// wherever the cut falls.
pub proof fn lemma_feed_concat(screen: Screen, consumed: Seq<u8>, first: Seq<u8>, second: Seq<u8>)
    ensures
        feed(screen, consumed, first + second) == feed(
            feed(screen, consumed, first),
            consumed + first,
            second,
        ),
    decreases first.len(),
{
    if first.len() == 0 {
        assert(first + second == second);
        assert(consumed + first == consumed);
    } else {
        assert((first + second)[0] == first[0]);
        assert((first + second).skip(1) == first.skip(1) + second);
        assert(consumed.push(first[0]) + first.skip(1) == consumed + first);
        lemma_feed_concat(
            screen.run(without_placeholders(emitted(consumed, first[0]))),
            consumed.push(first[0]),
            first.skip(1),
            second,
        );
    }
}

/// Reading an event without its placeholder changes the first parameter
/// alone, and only where that parameter is the single value 0: it is then
/// read as left out, so that a command finds its default in its place.
pub proof fn lemma_placeholder_reads_as_default(params: Seq<Seq<u16>>, action: char, default: u16)
    ensures
        (Token::Csi { params, action }).without_placeholder() is Csi,
        (Token::Csi { params, action }).without_placeholder()->action == action,
        first_param((Token::Csi { params, action }).without_placeholder()->params, default) == if
            has_placeholder(params) {
            default
        } else {
            first_param(params, default)
        },
        (Token::Csi { params, action }).without_placeholder()->params.len() == params.len(),
        forall|i: int|
            1 <= i < params.len() ==> (Token::Csi {
                params,
                action,
            }).without_placeholder()->params[i] == params[i],
{
}

/// A cursor-forward or cursor-backward sequence that leaves its parameter
/// out, as the tokenizer reports it, moves the cursor one column: right
/// whatever the line holds, left unless the cursor stands at column 0.
pub proof fn lemma_move_without_parameter(screen: Screen)
    ensures
        screen.step((Token::Csi { params: seq![seq![0u16]], action: 'C' }).without_placeholder())
            == screen.cursor_forward(1),
        screen.step((Token::Csi { params: seq![seq![0u16]], action: 'D' }).without_placeholder())
            == screen.cursor_back(1),
{
    let reported = seq![seq![0u16]];
    assert(has_placeholder(reported));
    assert(reported.update(0, Seq::<u16>::empty())[0].len() == 0);
}

} // verus!
