use noverterm::terminal::parser::{
    dispatch, EraseMode, Op, Parser, ParserState, MAX_PARAMS, MAX_RAW,
};

fn feed(bytes: &[u8]) -> Vec<Op> {
    let mut parser = Parser::new();
    parser.feed(bytes)
}

#[test]
fn plain_text_prints_each_character() {
    assert_eq!(feed(b"hi"), vec![Op::Print('h'), Op::Print('i')]);
}

#[test]
fn space_is_printable() {
    assert_eq!(feed(b" "), vec![Op::Print(' ')]);
    assert_eq!(feed(b"~"), vec![Op::Print('~')]);
}

#[test]
fn control_characters_map_to_operations() {
    assert_eq!(
        feed(b"\x08\x09\x0a\x0d"),
        vec![Op::Backspace, Op::Tab, Op::LineFeed, Op::CarriageReturn]
    );
}

#[test]
fn other_control_bytes_are_dropped() {
    assert_eq!(feed(b"\x00\x07\x7f"), Vec::<Op>::new());
}

#[test]
fn escape_enters_escape_mode() {
    let mut parser = Parser::new();
    assert_eq!(parser.advance(0x1b), None);
    assert_eq!(parser.state, ParserState::Escape);
    assert_eq!(parser.advance(b'['), None);
    assert_eq!(parser.state, ParserState::Csi);
}

#[test]
fn unknown_escape_byte_is_lost() {
    let mut parser = Parser::new();
    assert_eq!(parser.feed(b"\x1bZ"), Vec::<Op>::new());
    assert_eq!(parser.state, ParserState::Ground);
    assert_eq!(parser.feed(b"a"), vec![Op::Print('a')]);
}

#[test]
fn escape_next_line_and_index_feed_a_line() {
    assert_eq!(feed(b"\x1bE"), vec![Op::LineFeed]);
    assert_eq!(feed(b"\x1bD"), vec![Op::LineFeed]);
}

#[test]
fn cursor_moves_default_to_one() {
    assert_eq!(feed(b"\x1b[A"), vec![Op::CursorMove(-1, 0)]);
    assert_eq!(feed(b"\x1b[B"), vec![Op::CursorMove(1, 0)]);
    assert_eq!(feed(b"\x1b[C"), vec![Op::CursorMove(0, 1)]);
    assert_eq!(feed(b"\x1b[D"), vec![Op::CursorMove(0, -1)]);
    assert_eq!(feed(b"\x1b[0C"), vec![Op::CursorMove(0, 1)]);
}

#[test]
fn cursor_moves_take_their_count() {
    assert_eq!(feed(b"\x1b[12A"), vec![Op::CursorMove(-12, 0)]);
    assert_eq!(feed(b"\x1b[3D"), vec![Op::CursorMove(0, -3)]);
}

#[test]
fn cursor_position_is_one_based_on_the_wire() {
    assert_eq!(feed(b"\x1b[5;10H"), vec![Op::CursorSet(4, 9)]);
    assert_eq!(feed(b"\x1b[H"), vec![Op::CursorSet(0, 0)]);
    assert_eq!(feed(b"\x1b[;7f"), vec![Op::CursorSet(0, 6)]);
    assert_eq!(feed(b"\x1b[3H"), vec![Op::CursorSet(2, 0)]);
}

#[test]
fn erase_modes() {
    assert_eq!(feed(b"\x1b[K"), vec![Op::EraseInLine(EraseMode::ToEnd)]);
    assert_eq!(feed(b"\x1b[1K"), vec![Op::EraseInLine(EraseMode::ToStart)]);
    assert_eq!(feed(b"\x1b[2K"), vec![Op::EraseInLine(EraseMode::All)]);
    assert_eq!(feed(b"\x1b[J"), vec![Op::EraseInDisplay(EraseMode::ToEnd)]);
    assert_eq!(feed(b"\x1b[1J"), vec![Op::EraseInDisplay(EraseMode::ToStart)]);
    assert_eq!(feed(b"\x1b[2J"), vec![Op::EraseInDisplay(EraseMode::All)]);
}

#[test]
fn erase_with_unknown_mode_is_unknown() {
    assert_eq!(feed(b"\x1b[7K"), vec![Op::Unknown(b"\x1b[7K".to_vec())]);
}

#[test]
fn rendition_carries_its_codes() {
    assert_eq!(feed(b"\x1b[1;31m"), vec![Op::SetGraphicRendition(vec![1, 31])]);
    assert_eq!(feed(b"\x1b[m"), vec![Op::SetGraphicRendition(vec![0])]);
    assert_eq!(feed(b"\x1b[;1m"), vec![Op::SetGraphicRendition(vec![0, 1])]);
}

#[test]
fn window_report_is_acknowledged() {
    assert_eq!(feed(b"\x1b[8;24;80t"), vec![Op::ResizeAcknowledge]);
}

#[test]
fn unrecognised_final_byte_is_unknown() {
    assert_eq!(feed(b"\x1b[5n"), vec![Op::Unknown(b"\x1b[5n".to_vec())]);
}

#[test]
fn abandoned_sequence_is_unknown_and_parser_recovers() {
    let mut parser = Parser::new();
    assert_eq!(parser.feed(b"\x1b[12\x07"), vec![Op::Unknown(b"\x1b[12\x07".to_vec())]);
    assert_eq!(parser.state, ParserState::Ground);
    assert_eq!(parser.feed(b"ok"), vec![Op::Print('o'), Op::Print('k')]);
}

#[test]
fn sequence_split_across_chunks_is_completed() {
    let mut parser = Parser::new();
    assert_eq!(parser.feed(b"a\x1b[1"), vec![Op::Print('a')]);
    assert_eq!(parser.state, ParserState::Csi);
    assert_eq!(parser.feed(b"0;2"), Vec::<Op>::new());
    assert_eq!(parser.feed(b"0Hb"), vec![Op::CursorSet(9, 19), Op::Print('b')]);
}

#[test]
fn chunks_give_the_same_operations_as_the_whole() {
    let stream: &[u8] = b"ab\x1b[2;3H\x1b[1;32mxy\r\n\xc3\xa9\x1b[K";
    let whole = feed(stream);
    for cut in 0..=stream.len() {
        let mut parser = Parser::new();
        let mut ops = parser.feed(&stream[..cut]);
        ops.extend(parser.feed(&stream[cut..]));
        assert_eq!(ops, whole);
    }
}

#[test]
fn ten_thousand_digits_stay_bounded() {
    let mut parser = Parser::new();
    assert_eq!(parser.feed(b"\x1b["), Vec::<Op>::new());
    for _ in 0..10_000 {
        assert_eq!(parser.advance(b'9'), None);
        assert!(parser.params.len() <= MAX_PARAMS);
        assert!(parser.raw.len() <= MAX_RAW);
    }
    assert_eq!(parser.current, 0xFFFF);
    assert_eq!(parser.advance(b'B'), Some(Op::CursorMove(0xFFFF, 0)));
    assert_eq!(parser.state, ParserState::Ground);
    assert!(parser.raw.is_empty());
}

#[test]
fn parameter_saturates_at_its_maximum() {
    assert_eq!(feed(b"\x1b[65535C"), vec![Op::CursorMove(0, 65535)]);
    assert_eq!(feed(b"\x1b[65536C"), vec![Op::CursorMove(0, 65535)]);
    assert_eq!(feed(b"\x1b[65534C"), vec![Op::CursorMove(0, 65534)]);
}

#[test]
fn excess_parameters_are_ignored() {
    let mut bytes = b"\x1b[".to_vec();
    for i in 0..40 {
        if i > 0 {
            bytes.push(b';');
        }
        bytes.push(b'1');
    }
    bytes.push(b'm');
    let ops = feed(&bytes);
    assert_eq!(ops, vec![Op::SetGraphicRendition(vec![1; MAX_PARAMS])]);
}

#[test]
fn unknown_keeps_at_most_the_recorded_bytes() {
    let mut bytes = b"\x1b[".to_vec();
    bytes.extend(std::iter::repeat(b'1').take(100));
    bytes.push(b'n');
    let ops = feed(&bytes);
    assert_eq!(ops.len(), 1);
    match &ops[0] {
        Op::Unknown(raw) => {
            assert_eq!(raw.len(), MAX_RAW);
            assert_eq!(&raw[..3], b"\x1b[1");
        }
        other => panic!("unexpected operation {:?}", other),
    }
}

#[test]
fn two_byte_character_is_assembled() {
    assert_eq!(feed("é".as_bytes()), vec![Op::Print('é')]);
}

#[test]
fn three_and_four_byte_characters_are_assembled() {
    assert_eq!(feed("€".as_bytes()), vec![Op::Print('€')]);
    assert_eq!(feed("😀".as_bytes()), vec![Op::Print('😀')]);
}

#[test]
fn character_split_across_chunks_is_assembled() {
    let bytes = "€".as_bytes();
    let mut parser = Parser::new();
    assert_eq!(parser.feed(&bytes[..1]), Vec::<Op>::new());
    assert_eq!(parser.need, 2);
    assert_eq!(parser.feed(&bytes[1..2]), Vec::<Op>::new());
    assert_eq!(parser.feed(&bytes[2..]), vec![Op::Print('€')]);
    assert_eq!(parser.need, 0);
}

#[test]
fn truncated_character_is_dropped_and_next_byte_is_read() {
    assert_eq!(feed(b"\xe2\x82A"), vec![Op::Print('A')]);
    assert_eq!(feed(b"\xc3\n"), vec![Op::LineFeed]);
}

#[test]
fn stray_continuation_and_invalid_lead_bytes_are_dropped() {
    assert_eq!(feed(b"\x80\xbf\xc0\xc1\xf5\xffz"), vec![Op::Print('z')]);
}

#[test]
fn overlong_and_surrogate_encodings_are_dropped() {
    assert_eq!(feed(b"\xe0\x80\x80"), Vec::<Op>::new());
    assert_eq!(feed(b"\xed\xa0\x80"), Vec::<Op>::new());
    assert_eq!(feed(b"\xf4\x90\x80\x80"), Vec::<Op>::new());
    assert_eq!(feed(b"\xf0\x80\x80\x80"), Vec::<Op>::new());
}

#[test]
fn reset_returns_to_ground() {
    let mut parser = Parser::new();
    parser.feed(b"\x1b[12;3");
    parser.reset();
    assert_eq!(parser.state, ParserState::Ground);
    assert!(parser.params.is_empty());
    assert!(parser.raw.is_empty());
    assert_eq!(parser.current, 0);
    assert_eq!(parser.feed(b"H"), vec![Op::Print('H')]);
}

#[test]
fn dispatch_builds_the_operation_of_a_final_byte() {
    assert_eq!(dispatch(vec![2, 4], b'H', vec![]), Op::CursorSet(1, 3));
    assert_eq!(dispatch(vec![0], b'A', vec![]), Op::CursorMove(-1, 0));
    assert_eq!(dispatch(vec![9], b'z', vec![1, 2, 3]), Op::Unknown(vec![1, 2, 3]));
}

#[test]
fn parser_stays_well_formed() {
    let mut parser = Parser::new();
    assert!(parser.is_well_formed());
    for chunk in [&b"\x1b"[..], b"[", b"12;", b"999999", b";;;;;;;;;;;;;;;;;;;;", b"\xe2", b"\xf0\x9f", b"m"] {
        parser.feed(chunk);
        assert!(parser.is_well_formed());
    }
}

#[test]
fn tampered_parser_is_not_well_formed() {
    let mut parser = Parser::new();
    parser.raw.push(0x1b);
    assert!(!parser.is_well_formed());
    let mut parser = Parser::new();
    parser.need = 4;
    assert!(!parser.is_well_formed());
    let mut parser = Parser::new();
    parser.state = ParserState::Csi;
    parser.params = vec![0; MAX_PARAMS + 1];
    assert!(!parser.is_well_formed());
}
