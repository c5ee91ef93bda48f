use aura_core::buffer::TerminalBuffer;
use aura_core::event::Event;
use aura_core::screen::MAX_CAPACITY;

fn pushed(bytes: &[u8]) -> TerminalBuffer {
    let mut buffer = TerminalBuffer::new();
    buffer.push(bytes);
    buffer
}

#[test]
fn new_buffer_is_empty() {
    let buffer = TerminalBuffer::new();
    assert_eq!(buffer.get_size(), 0);
    assert_eq!(buffer.cursor(), 0);
    assert_eq!(buffer.get_line(0), "");
}

#[test]
fn printable_bytes_make_one_line() {
    let buffer = pushed(b"hello, world");
    assert_eq!(buffer.get_size(), 1);
    assert_eq!(buffer.get_line(0), "hello, world");
    assert_eq!(buffer.cursor(), 12);
}

#[test]
fn multibyte_characters_count_as_one_column() {
    let buffer = pushed("h\u{e9}llo \u{2713}".as_bytes());
    assert_eq!(buffer.get_size(), 1);
    assert_eq!(buffer.get_line(0), "h\u{e9}llo \u{2713}");
    assert_eq!(buffer.cursor(), 7);
}

#[test]
fn empty_push_changes_nothing() {
    let buffer = pushed(b"");
    assert_eq!(buffer.get_size(), 0);
    assert_eq!(buffer.cursor(), 0);
}

#[test]
fn carriage_return_line_feed_splits_lines() {
    let buffer = pushed(b"abc\r\ndef");
    assert_eq!(buffer.get_size(), 2);
    assert_eq!(buffer.get_line(0), "abc");
    assert_eq!(buffer.get_line(1), "def");
    assert_eq!(buffer.cursor(), 3);
}

#[test]
fn backspace_moves_without_deleting() {
    let buffer = pushed(b"abc\x08\x08XY");
    assert_eq!(buffer.get_size(), 1);
    assert_eq!(buffer.get_line(0), "aXY");
    assert_eq!(buffer.cursor(), 3);
}

#[test]
fn backspace_stops_at_column_zero() {
    let buffer = pushed(b"a\x08\x08\x08Z");
    assert_eq!(buffer.get_line(0), "Z");
    assert_eq!(buffer.cursor(), 1);
}

#[test]
fn carriage_return_overwrites_from_line_start() {
    let buffer = pushed(b"abc\rX");
    assert_eq!(buffer.get_size(), 1);
    assert_eq!(buffer.get_line(0), "Xbc");
    assert_eq!(buffer.cursor(), 1);
}

#[test]
fn line_feed_keeps_no_column() {
    let buffer = pushed(b"abc\nd");
    assert_eq!(buffer.get_size(), 2);
    assert_eq!(buffer.get_line(0), "abc");
    assert_eq!(buffer.get_line(1), "d");
    assert_eq!(buffer.cursor(), 1);
}

#[test]
fn tab_on_empty_line_pads_to_column_eight() {
    let buffer = pushed(b"\t");
    assert_eq!(buffer.get_size(), 1);
    assert_eq!(buffer.get_line(0), "        ");
    assert_eq!(buffer.cursor(), 8);
}

#[test]
fn tab_advances_to_next_stop() {
    let buffer = pushed(b"abc\tx");
    assert_eq!(buffer.get_line(0), "abc     x");
    assert_eq!(buffer.cursor(), 9);
}

#[test]
fn tab_at_a_stop_advances_a_whole_stop() {
    let buffer = pushed(b"12345678\t");
    assert_eq!(buffer.get_line(0), "12345678        ");
    assert_eq!(buffer.cursor(), 16);
}

#[test]
fn tab_inside_a_line_overwrites_with_spaces() {
    let buffer = pushed(b"abcdefghij\r\t");
    assert_eq!(buffer.get_line(0), "        ij");
    assert_eq!(buffer.cursor(), 8);
}

#[test]
fn other_control_bytes_are_ignored() {
    let buffer = pushed(b"a\x07\x0bb");
    assert_eq!(buffer.get_size(), 1);
    assert_eq!(buffer.get_line(0), "ab");
    assert_eq!(buffer.cursor(), 2);
}

#[test]
fn column_then_print_replaces_one_character() {
    let buffer = pushed(b"abcdefgh\x1b[5Gx");
    assert_eq!(buffer.get_size(), 1);
    assert_eq!(buffer.get_line(0), "abcdxfgh");
    assert_eq!(buffer.cursor(), 5);
}

#[test]
fn column_zero_and_column_one_are_the_line_start() {
    let zero = pushed(b"abc\x1b[0Gx");
    assert_eq!(zero.get_line(0), "xbc");
    let one = pushed(b"abc\x1b[1Gx");
    assert_eq!(one.get_line(0), "xbc");
    let bare = pushed(b"abc\x1b[Gx");
    assert_eq!(bare.get_line(0), "xbc");
}

#[test]
fn forward_then_print_pads_with_spaces() {
    let buffer = pushed(b"\x1b[10Cy");
    assert_eq!(buffer.get_size(), 1);
    assert_eq!(buffer.get_line(0), "          y");
    assert_eq!(buffer.get_line(0).chars().count(), 11);
    assert_eq!(buffer.cursor(), 11);
}

#[test]
fn forward_alone_leaves_the_lines_alone() {
    let buffer = pushed(b"ab\x1b[3C");
    assert_eq!(buffer.get_line(0), "ab");
    assert_eq!(buffer.cursor(), 5);
}

#[test]
fn backward_stops_at_column_zero() {
    let near = pushed(b"abcdef\x1b[2DX");
    assert_eq!(near.get_line(0), "abcdXf");
    let far = pushed(b"abcdef\x1b[50DX");
    assert_eq!(far.get_line(0), "Xbcdef");
    assert_eq!(far.cursor(), 1);
}

#[test]
fn erase_in_line_cuts_at_the_cursor() {
    let given = pushed(b"hello\r\x1b[2C\x1b[0K");
    assert_eq!(given.get_line(0), "he");
    assert_eq!(given.cursor(), 2);
    let bare = pushed(b"hello\r\x1b[2C\x1b[K");
    assert_eq!(bare.get_line(0), "he");
    assert_eq!(bare.cursor(), 2);
}

#[test]
fn erase_in_line_past_the_end_keeps_the_line() {
    let buffer = pushed(b"hello\x1b[4C\x1b[K");
    assert_eq!(buffer.get_line(0), "hello");
    assert_eq!(buffer.cursor(), 9);
}

#[test]
fn erase_in_line_other_modes_change_nothing() {
    let one = pushed(b"hello\r\x1b[1K");
    assert_eq!(one.get_line(0), "hello");
    let two = pushed(b"hello\r\x1b[2K");
    assert_eq!(two.get_line(0), "hello");
}

#[test]
fn unknown_sequences_are_ignored() {
    let buffer = pushed(b"ab\x1b[31mcd\x1b[2Jef");
    assert_eq!(buffer.get_size(), 1);
    assert_eq!(buffer.get_line(0), "abcdef");
    assert_eq!(buffer.cursor(), 6);
}

#[test]
fn a_sequence_may_span_two_pushes() {
    let mut buffer = TerminalBuffer::new();
    buffer.push(b"abcdef\x1b[");
    assert_eq!(buffer.get_line(0), "abcdef");
    buffer.push(b"3");
    buffer.push(b"Gx");
    assert_eq!(buffer.get_line(0), "abxdef");
    assert_eq!(buffer.cursor(), 3);
}

#[test]
fn a_character_may_span_two_pushes() {
    let mut buffer = TerminalBuffer::new();
    let bytes = "\u{e9}".as_bytes();
    buffer.push(&bytes[..1]);
    assert_eq!(buffer.get_size(), 0);
    buffer.push(&bytes[1..]);
    assert_eq!(buffer.get_line(0), "\u{e9}");
    assert_eq!(buffer.cursor(), 1);
}

#[test]
fn get_line_out_of_range_is_empty() {
    let buffer = pushed(b"abc\ndef");
    assert_eq!(buffer.get_line(-1), "");
    assert_eq!(buffer.get_line(i32::MIN), "");
    assert_eq!(buffer.get_line(2), "");
    assert_eq!(buffer.get_line(i32::MAX), "");
    assert_eq!(buffer.get_line(1), "def");
}

#[test]
fn clear_empties_the_buffer() {
    let mut buffer = pushed(b"abc\ndef\nghi");
    assert_eq!(buffer.get_size(), 3);
    buffer.clear();
    assert_eq!(buffer.get_size(), 0);
    assert_eq!(buffer.get_line(0), "");
    assert_eq!(buffer.cursor(), 0);
    buffer.clear();
    assert_eq!(buffer.get_size(), 0);
    assert_eq!(buffer.get_line(0), "");
}

#[test]
fn clear_then_print_starts_a_line() {
    let mut buffer = pushed(b"abc\ndef");
    buffer.clear();
    buffer.push(b"x");
    assert_eq!(buffer.get_size(), 1);
    assert_eq!(buffer.get_line(0), "x");
    assert_eq!(buffer.cursor(), 1);
}

#[test]
fn line_feed_at_capacity_evicts_the_oldest_line() {
    let mut buffer = TerminalBuffer::new();
    for i in 0..MAX_CAPACITY {
        buffer.push_line(&format!("line {}", i));
    }
    assert_eq!(buffer.get_size(), 10000);
    assert_eq!(buffer.get_line(0), "line 0");
    assert_eq!(buffer.get_line(9999), "line 9999");
    buffer.push(b"\n");
    assert_eq!(buffer.get_size(), 10000);
    assert_eq!(buffer.get_line(0), "line 1");
    assert_eq!(buffer.get_line(9998), "line 9999");
    assert_eq!(buffer.get_line(9999), "");
    assert_eq!(buffer.cursor(), 0);
}

#[test]
fn line_feeds_never_pass_capacity() {
    let mut buffer = TerminalBuffer::new();
    let bytes = vec![b'\n'; MAX_CAPACITY + 5];
    buffer.push(&bytes);
    assert_eq!(buffer.get_size(), MAX_CAPACITY);
}

#[test]
fn push_line_appends_text_as_it_stands() {
    let mut buffer = pushed(b"ab");
    buffer.push_line("c\td\u{e9}");
    assert_eq!(buffer.get_size(), 2);
    assert_eq!(buffer.get_line(0), "ab");
    assert_eq!(buffer.get_line(1), "c\td\u{e9}");
    assert_eq!(buffer.cursor(), 2);
}

#[test]
fn push_line_at_capacity_evicts_the_oldest_line() {
    let mut buffer = TerminalBuffer::new();
    for i in 0..MAX_CAPACITY + 1 {
        buffer.push_line(&format!("{}", i));
    }
    assert_eq!(buffer.get_size(), MAX_CAPACITY);
    assert_eq!(buffer.get_line(0), "1");
    assert_eq!(buffer.get_line(9999), "10000");
}

#[test]
fn apply_print_event() {
    let mut buffer = TerminalBuffer::new();
    assert!(buffer.apply(&Event::Print('a')));
    assert!(buffer.apply(&Event::Print('b')));
    assert_eq!(buffer.get_size(), 1);
    assert_eq!(buffer.get_line(0), "ab");
    assert_eq!(buffer.cursor(), 2);
}

#[test]
fn apply_sequence_without_parameters_uses_defaults() {
    let mut buffer = TerminalBuffer::new();
    buffer.apply_all(&vec![
        Event::Print('a'),
        Event::Print('b'),
        Event::Print('c'),
        Event::CsiDispatch { params: vec![], action: 'D' },
    ]);
    assert_eq!(buffer.cursor(), 2);
    assert!(buffer.apply(&Event::CsiDispatch { params: vec![], action: 'C' }));
    assert_eq!(buffer.cursor(), 3);
    assert!(buffer.apply(&Event::CsiDispatch { params: vec![vec![]], action: 'C' }));
    assert_eq!(buffer.cursor(), 4);
    assert!(buffer.apply(&Event::CsiDispatch { params: vec![], action: 'G' }));
    assert_eq!(buffer.cursor(), 0);
    assert!(buffer.apply(&Event::CsiDispatch { params: vec![], action: 'C' }));
    assert!(buffer.apply(&Event::CsiDispatch { params: vec![], action: 'K' }));
    assert_eq!(buffer.get_line(0), "a");
    assert_eq!(buffer.cursor(), 1);
}

#[test]
fn apply_reads_the_first_subparameter_of_the_first_parameter() {
    let mut buffer = TerminalBuffer::new();
    let params = vec![vec![4, 9], vec![7]];
    assert!(buffer.apply(&Event::CsiDispatch { params, action: 'C' }));
    assert_eq!(buffer.cursor(), 4);
    assert_eq!(buffer.get_size(), 0);
}

#[test]
fn apply_erase_on_empty_store_changes_nothing() {
    let mut buffer = TerminalBuffer::new();
    assert!(buffer.apply(&Event::CsiDispatch { params: vec![vec![0]], action: 'K' }));
    assert_eq!(buffer.get_size(), 0);
    assert_eq!(buffer.cursor(), 0);
}

#[test]
fn apply_all_runs_events_in_order() {
    let mut buffer = TerminalBuffer::new();
    buffer.apply_all(&vec![
        Event::Print('h'),
        Event::Print('i'),
        Event::Execute(b'\n'),
        Event::CsiDispatch { params: vec![vec![3]], action: 'G' },
        Event::Print('!'),
    ]);
    assert_eq!(buffer.get_size(), 2);
    assert_eq!(buffer.get_line(0), "hi");
    assert_eq!(buffer.get_line(1), "  !");
    assert_eq!(buffer.cursor(), 3);
}

#[test]
fn line_feed_on_empty_store_appends_one_line() {
    let mut buffer = TerminalBuffer::new();
    assert!(buffer.apply(&Event::Execute(b'\n')));
    assert_eq!(buffer.get_size(), 1);
    assert_eq!(buffer.get_line(0), "");
}

#[test]
fn pushing_byte_by_byte_equals_pushing_at_once() {
    let bytes = "ab\tc\r\n\x1b[12Cx\x1b[3D\x1b[K\u{e9}\x08y\n".as_bytes();
    let whole = pushed(bytes);
    let mut pieces = TerminalBuffer::new();
    for byte in bytes {
        pieces.push(&[*byte]);
    }
    assert_eq!(pieces.get_size(), whole.get_size());
    assert_eq!(pieces.cursor(), whole.cursor());
    for index in 0..3 {
        assert_eq!(pieces.get_line(index), whole.get_line(index));
    }
    assert_eq!(whole.get_size(), 3);
    assert_eq!(whole.get_line(0), "ab      c");
    assert_eq!(whole.get_line(1), "          y");
    assert_eq!(whole.get_line(1).chars().count(), 11);
    assert_eq!(whole.cursor(), 0);
    assert_eq!(whole.get_line(2), "");
}

#[test]
fn forward_without_parameter_moves_one_column() {
    let buffer = pushed(b"ab\r\x1b[Cx");
    assert_eq!(buffer.get_size(), 1);
    assert_eq!(buffer.get_line(0), "ax");
    assert_eq!(buffer.cursor(), 2);
}

#[test]
fn backward_without_parameter_moves_one_column() {
    let mut buffer = TerminalBuffer::new();
    buffer.push(b"abc");
    buffer.push(b"\x1b[D");
    assert_eq!(buffer.cursor(), 2);
    buffer.push(b"X");
    assert_eq!(buffer.get_size(), 1);
    assert_eq!(buffer.get_line(0), "abX");
    assert_eq!(buffer.cursor(), 3);
}

#[test]
fn a_written_zero_is_read_as_left_out() {
    let forward = pushed(b"ab\r\x1b[0Cx");
    assert_eq!(forward.get_line(0), "ax");
    assert_eq!(forward.cursor(), 2);
    let backward = pushed(b"abc\x1b[0DX");
    assert_eq!(backward.get_line(0), "abX");
    assert_eq!(backward.cursor(), 3);
    let column = pushed(b"abc\x1b[0Gx");
    assert_eq!(column.get_line(0), "xbc");
    assert_eq!(column.cursor(), 1);
}

#[test]
fn a_left_out_first_parameter_before_others_uses_the_default() {
    let buffer = pushed(b"abcdef\r\x1b[;4Cx");
    assert_eq!(buffer.get_line(0), "axcdef");
    assert_eq!(buffer.cursor(), 2);
}

#[test]
fn backward_without_parameter_stops_at_column_zero() {
    let buffer = pushed(b"\x1b[D\x1b[Dx");
    assert_eq!(buffer.get_size(), 1);
    assert_eq!(buffer.get_line(0), "x");
    assert_eq!(buffer.cursor(), 1);
}
