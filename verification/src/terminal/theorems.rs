//! Theorems about the parser and the screen, stated over their
//! mathematical values and proved once for every input.

use vstd::prelude::*;
use crate::terminal::parser::{
    emitted, is_printable, is_scalar_value, lemma_step_bounded, op_bounded, OpView, ParserModel,
    ParserState,
};
use crate::terminal::renderer::{blank_cells, blank_row, Cell, Pen, Screen, TerminalModel};

verus! {

/// Whatever bytes the parser reads, its pending state stays within its
/// fixed bounds, and so does the payload of every operation it emits.
pub proof fn theorem_parser_bounded(p: ParserModel, bytes: Seq<u8>)
    requires
        p.wf(),
    ensures
        p.parse(bytes).0.wf(),
        forall|i: int| 0 <= i < p.parse(bytes).1.len() ==> op_bounded(#[trigger] p.parse(bytes).1[i]),
    decreases bytes.len(),
{
    if bytes.len() > 0 {
        theorem_parser_bounded(p, bytes.drop_last());
        let (before, ops) = p.parse(bytes.drop_last());
        lemma_step_bounded(before, bytes.last());
    }
}

/// Reading a stream in two chunks gives the same parser and the same
/// operations as reading it at once.
pub proof fn theorem_parse_chunks(p: ParserModel, first: Seq<u8>, second: Seq<u8>)
    ensures
        p.parse(first + second).0 == p.parse(first).0.parse(second).0,
        p.parse(first + second).1 == p.parse(first).1 + p.parse(first).0.parse(second).1,
    decreases second.len(),
{
    if second.len() == 0 {
        assert(first + second =~= first);
        assert(p.parse(first).1 + Seq::<OpView>::empty() =~= p.parse(first).1);
    } else {
        theorem_parse_chunks(p, first, second.drop_last());
        assert((first + second).drop_last() =~= first + second.drop_last());
        assert((first + second).last() == second.last());
        let mid = p.parse(first).0;
        let (before, ops) = mid.parse(second.drop_last());
        let (after, op) = before.step(second.last());
        assert(p.parse(first).1 + (ops + emitted(op)) =~= (p.parse(first).1 + ops) + emitted(op));
    }
}

/// The two bytes of a two-byte encoding are a lead byte and a
/// continuation byte that carry the scalar value six bits at a time.
proof fn lemma_encoding_width_2(v: u32)
    by (bit_vector)
    requires
        0x80 <= v && v <= 0x7FF,
    ensures
        ({
            let b0 = 0xC0u8 | ((v >> 6) & 0x1F) as u8;
            let b1 = 0x80u8 | (v & 0x3F) as u8;
            &&& 0xC2 <= b0 && b0 <= 0xDF
            &&& 0x80 <= b1 && b1 <= 0xBF
            &&& (b0 as u32 - 0xC0) * 64 + (b1 as u32 - 0x80) == v
        }),
{
}

/// The three bytes of a three-byte encoding likewise.
proof fn lemma_encoding_width_3(v: u32)
    by (bit_vector)
    requires
        0x800 <= v && v <= 0xFFFF,
    ensures
        ({
            let b0 = 0xE0u8 | ((v >> 12) & 0x0F) as u8;
            let b1 = 0x80u8 | ((v >> 6) & 0x3F) as u8;
            let b2 = 0x80u8 | (v & 0x3F) as u8;
            &&& 0xE0 <= b0 && b0 <= 0xEF
            &&& 0x80 <= b1 && b1 <= 0xBF
            &&& 0x80 <= b2 && b2 <= 0xBF
            &&& ((b0 as u32 - 0xE0) * 64 + (b1 as u32 - 0x80)) * 64 + (b2 as u32 - 0x80) == v
        }),
{
}

/// The four bytes of a four-byte encoding likewise.
proof fn lemma_encoding_width_4(v: u32)
    by (bit_vector)
    requires
        0x1_0000 <= v && v <= 0x10_FFFF,
    ensures
        ({
            let b0 = 0xF0u8 | ((v >> 18) & 0x7) as u8;
            let b1 = 0x80u8 | ((v >> 12) & 0x3F) as u8;
            let b2 = 0x80u8 | ((v >> 6) & 0x3F) as u8;
            let b3 = 0x80u8 | (v & 0x3F) as u8;
            &&& 0xF0 <= b0 && b0 <= 0xF4
            &&& 0x80 <= b1 && b1 <= 0xBF
            &&& 0x80 <= b2 && b2 <= 0xBF
            &&& 0x80 <= b3 && b3 <= 0xBF
            &&& (((b0 as u32 - 0xF0) * 64 + (b1 as u32 - 0x80)) * 64 + (b2 as u32 - 0x80)) * 64 + (
            b3 as u32 - 0x80) == v
        }),
{
}

/// The single byte of a one-byte encoding is the scalar value.
proof fn lemma_encoding_width_1(v: u32)
    by (bit_vector)
    requires
        v <= 0x7F,
    ensures
        (v & 0x7F) as u8 == v,
{
}

/// A character that is no control character: at or above the space,
/// and not the delete character.
pub open spec fn is_visible(c: char) -> bool {
    c as u32 >= 0x20 && c as u32 != 0x7F
}

/// A visible character, written in UTF-8 to a parser in ground mode,
/// comes out as exactly one print of that character and leaves the
/// parser at rest. What was pending of an earlier character is dropped.
pub proof fn theorem_decodes_character(p: ParserModel, c: char)
    requires
        p.wf(),
        p.state == ParserState::Ground,
        is_visible(c),
    ensures
        p.parse(vstd::utf8::encode_scalar(c as u32)) == (
            ParserModel::ground(),
            seq![OpView::Print(c)],
        ),
{
    let v = c as u32;
    assert(is_scalar_value(v));
    let bytes = vstd::utf8::encode_scalar(v);
    let none = Seq::<OpView>::empty();
    if v < 0x80 {
        lemma_encoding_width_1(v);
    } else if v < 0x800 {
        lemma_encoding_width_2(v);
    } else if v < 0x1_0000 {
        lemma_encoding_width_3(v);
    } else {
        lemma_encoding_width_4(v);
    }
    assert(p.parse(Seq::<u8>::empty()) == (p, none));
    let s1 = p.step(bytes[0]);
    assert(bytes.take(1).drop_last() =~= Seq::<u8>::empty());
    assert(p.parse(bytes.take(1)) == (s1.0, none + emitted(s1.1)));
    if v < 0x80 {
        assert(bytes.take(1) =~= bytes);
        assert(bytes[0] as char == c);
        assert(none + emitted(s1.1) =~= seq![OpView::Print(c)]);
    } else {
        assert(s1.1 is None);
        assert(none + emitted(s1.1) =~= none);
        let s2 = s1.0.step(bytes[1]);
        assert(bytes.take(2).drop_last() =~= bytes.take(1));
        assert(p.parse(bytes.take(2)) == (s2.0, none + emitted(s2.1)));
        if v < 0x800 {
            assert(bytes.take(2) =~= bytes);
            assert(none + emitted(s2.1) =~= seq![OpView::Print(c)]);
        } else {
            assert(s2.1 is None);
            assert(none + emitted(s2.1) =~= none);
            let s3 = s2.0.step(bytes[2]);
            assert(bytes.take(3).drop_last() =~= bytes.take(2));
            assert(p.parse(bytes.take(3)) == (s3.0, none + emitted(s3.1)));
            if v < 0x1_0000 {
                assert(bytes.take(3) =~= bytes);
                assert(none + emitted(s3.1) =~= seq![OpView::Print(c)]);
            } else {
                assert(s3.1 is None);
                assert(none + emitted(s3.1) =~= none);
                let s4 = s3.0.step(bytes[3]);
                assert(bytes.take(4).drop_last() =~= bytes.take(3));
                assert(p.parse(bytes.take(4)) == (s4.0, none + emitted(s4.1)));
                assert(bytes.take(4) =~= bytes);
                assert(none + emitted(s4.1) =~= seq![OpView::Print(c)]);
            }
        }
    }
}

/// The UTF-8 encoding of a text given as its scalar values, in order.
pub open spec fn encode_text(values: Seq<u32>) -> Seq<u8>
    decreases values.len(),
{
    if values.len() == 0 {
        Seq::empty()
    } else {
        encode_text(values.drop_last()) + vstd::utf8::encode_scalar(values.last())
    }
}

/// One print for each scalar value, in order.
pub open spec fn prints(values: Seq<u32>) -> Seq<OpView> {
    Seq::new(values.len(), |i: int| OpView::Print(values[i] as char))
}

/// A text of visible characters, written in UTF-8 to a parser in ground
/// mode, comes out as one print for each character, in order, and
/// leaves the parser in ground mode with nothing pending.
pub proof fn theorem_decodes_text(p: ParserModel, values: Seq<u32>)
    requires
        p.wf(),
        p.state == ParserState::Ground,
        p.need == 0,
        forall|i: int|
            0 <= i < values.len() ==> is_scalar_value(#[trigger] values[i]) && is_visible(
                values[i] as char,
            ),
    ensures
        p.parse(encode_text(values)) == (ParserModel::ground(), prints(values)),
    decreases values.len(),
{
    if values.len() == 0 {
        assert(p.params =~= Seq::<u16>::empty());
        assert(p.raw =~= Seq::<u8>::empty());
        assert(prints(values) =~= Seq::<OpView>::empty());
    } else {
        let head = values.drop_last();
        let last = values.last();
        assert forall|i: int| 0 <= i < head.len() implies is_scalar_value(#[trigger] head[i])
            && is_visible(head[i] as char) by {
            assert(head[i] == values[i]);
        }
        theorem_decodes_text(p, head);
        theorem_parse_chunks(p, encode_text(head), vstd::utf8::encode_scalar(last));
        assert(is_scalar_value(last));
        assert((last as char) as u32 == last);
        theorem_decodes_character(ParserModel::ground(), last as char);
        assert(prints(head) + seq![OpView::Print(last as char)] =~= prints(values));
    }
}

/// Every operation keeps a well-formed screen well-formed: the grid
/// keeps its size and the cursor stays inside it.
pub proof fn theorem_apply_wf(s: Screen, op: OpView)
    requires
        s.wf(),
    ensures
        s.apply(op).wf(),
        s.apply(op).rows == s.rows,
        s.apply(op).cols == s.cols,
{
    match op {
        OpView::Print(ch) => {
            if s.cursor_row < s.rows && s.cursor_col < s.cols {
                let written = Screen {
                    cells: s.cells.update(
                        s.cursor_row,
                        s.cells[s.cursor_row].update(s.cursor_col, s.pen.stamp(ch)),
                    ),
                    ..s
                };
                assert(written.wf());
                lemma_linefeed_wf(written);
            }
        },
        OpView::LineFeed => {
            lemma_linefeed_wf(s);
        },
        OpView::Tab => {
            assert(s.tab().wf());
        },
        _ => {},
    }
}

/// A line feed keeps a well-formed screen well-formed.
proof fn lemma_linefeed_wf(s: Screen)
    requires
        s.wf(),
    ensures
        s.linefeed().wf(),
        s.linefeed().rows == s.rows,
        s.linefeed().cols == s.cols,
{
    if s.cursor_row < s.last_row() {
    } else {
        let t = s.linefeed();
        assert(t.cells == s.scrolled());
        assert forall|r: int| 0 <= r < t.rows implies (#[trigger] t.cells[r]).len() == t.cols by {
            if s.rows > 0 {
                if r < s.rows - 1 {
                    assert(t.cells[r] == s.cells[r + 1]);
                } else {
                    assert(t.cells[r] == blank_row(s.cols));
                }
            }
        }
    }
}

/// Every byte keeps a well-formed terminal well-formed.
pub proof fn theorem_step_wf(t: TerminalModel, b: u8)
    requires
        t.wf(),
    ensures
        t.step(b).wf(),
        t.step(b).screen.rows == t.screen.rows,
        t.step(b).screen.cols == t.screen.cols,
{
    lemma_step_bounded(t.parser, b);
    match t.parser.step(b).1 {
        Some(o) => {
            theorem_apply_wf(t.screen, o);
        },
        None => {},
    }
}

/// Every run of bytes keeps a well-formed terminal well-formed, and
/// never changes the size of its grid.
pub proof fn theorem_write_wf(t: TerminalModel, bytes: Seq<u8>)
    requires
        t.wf(),
    ensures
        t.write(bytes).wf(),
        t.write(bytes).screen.rows == t.screen.rows,
        t.write(bytes).screen.cols == t.screen.cols,
    decreases bytes.len(),
{
    if bytes.len() > 0 {
        theorem_write_wf(t, bytes.drop_last());
        theorem_step_wf(t.write(bytes.drop_last()), bytes.last());
    }
}

/// Writing bytes to a terminal is parsing them and applying the
/// operations that come out, in order.
pub proof fn theorem_write_is_parse_then_apply(t: TerminalModel, bytes: Seq<u8>)
    ensures
        t.write(bytes).parser == t.parser.parse(bytes).0,
        t.write(bytes).screen == t.screen.apply_all(t.parser.parse(bytes).1),
    decreases bytes.len(),
{
    if bytes.len() > 0 {
        theorem_write_is_parse_then_apply(t, bytes.drop_last());
        let (before, ops) = t.parser.parse(bytes.drop_last());
        let (after, op) = before.step(bytes.last());
        match op {
            Some(o) => {
                assert((ops + emitted(op)).drop_last() =~= ops);
                assert((ops + emitted(op)).last() == o);
            },
            None => {
                assert(ops + emitted(op) =~= ops);
            },
        }
    }
}

/// Writing a stream in two chunks gives the same terminal as writing it
/// at once.
pub proof fn theorem_write_chunks(t: TerminalModel, first: Seq<u8>, second: Seq<u8>)
    ensures
        t.write(first + second) == t.write(first).write(second),
    decreases second.len(),
{
    if second.len() == 0 {
        assert(first + second =~= first);
    } else {
        theorem_write_chunks(t, first, second.drop_last());
        assert((first + second).drop_last() =~= first + second.drop_last());
        assert((first + second).last() == second.last());
    }
}

/// The screen after printing a run of characters, one after another.
pub open spec fn print_all(s: Screen, chars: Seq<char>) -> Screen
    decreases chars.len(),
{
    if chars.len() == 0 {
        s
    } else {
        print_all(s, chars.drop_last()).print(chars.last())
    }
}

/// The row `row` with the cells from column `from` on overwritten by
/// `chars` in the style of `pen`.
pub open spec fn overwrite(row: Seq<Cell>, from: int, chars: Seq<char>, pen: Pen) -> Seq<Cell> {
    Seq::new(
        row.len(),
        |c: int|
            if from <= c < from + chars.len() {
                pen.stamp(chars[c - from])
            } else {
                row[c]
            },
    )
}

/// Printing characters that all fit before the last column writes them
/// side by side and leaves the cursor behind the last of them.
pub proof fn lemma_print_within_row(s: Screen, chars: Seq<char>)
    requires
        s.wf(),
        s.cursor_row < s.rows,
        s.cursor_col + chars.len() < s.cols,
    ensures
        print_all(s, chars) == (Screen {
            cells: s.cells.update(
                s.cursor_row,
                overwrite(s.cells[s.cursor_row], s.cursor_col, chars, s.pen),
            ),
            cursor_col: s.cursor_col + chars.len(),
            ..s
        }),
    decreases chars.len(),
{
    let r = s.cursor_row;
    if chars.len() == 0 {
        assert(overwrite(s.cells[r], s.cursor_col, chars, s.pen) =~= s.cells[r]);
        assert(s.cells.update(r, s.cells[r]) =~= s.cells);
    } else {
        let head = chars.drop_last();
        lemma_print_within_row(s, head);
        let mid = print_all(s, head);
        let c = s.cursor_col + head.len();
        assert(mid.cursor_col == c);
        assert(mid.cells[r] == overwrite(s.cells[r], s.cursor_col, head, s.pen));
        assert(mid.cells[r].update(c, s.pen.stamp(chars.last())) =~= overwrite(
            s.cells[r],
            s.cursor_col,
            chars,
            s.pen,
        ));
        assert(mid.cells.update(r, mid.cells[r].update(c, s.pen.stamp(chars.last())))
            =~= s.cells.update(r, overwrite(s.cells[r], s.cursor_col, chars, s.pen)));
    }
}

/// Printing one run of characters after another is printing the two
/// runs as one.
pub proof fn lemma_print_all_concat(s: Screen, first: Seq<char>, second: Seq<char>)
    ensures
        print_all(s, first + second) == print_all(print_all(s, first), second),
    decreases second.len(),
{
    if second.len() == 0 {
        assert(first + second =~= first);
    } else {
        lemma_print_all_concat(s, first, second.drop_last());
        assert((first + second).drop_last() =~= first + second.drop_last());
        assert((first + second).last() == second.last());
    }
}

/// The screen with the cursor's row overwritten by `chars` from the
/// cursor on, and nothing else changed.
pub open spec fn with_row_written(s: Screen, chars: Seq<char>) -> Screen {
    Screen {
        cells: s.cells.update(
            s.cursor_row,
            overwrite(s.cells[s.cursor_row], s.cursor_col, chars, s.pen),
        ),
        ..s
    }
}

/// Printing characters that reach exactly the last column writes them
/// side by side and then wraps as a line feed does.
pub proof fn lemma_print_to_boundary(s: Screen, chars: Seq<char>)
    requires
        s.wf(),
        s.cursor_row < s.rows,
        chars.len() > 0,
        s.cursor_col + chars.len() == s.cols,
    ensures
        print_all(s, chars) == with_row_written(s, chars).linefeed(),
{
    let r = s.cursor_row;
    let head = chars.drop_last();
    lemma_print_within_row(s, head);
    let mid = print_all(s, head);
    let c = s.cols - 1;
    assert(mid.cells[r] == overwrite(s.cells[r], s.cursor_col, head, s.pen));
    assert(mid.cells[r].update(c, s.pen.stamp(chars.last())) =~= overwrite(
        s.cells[r],
        s.cursor_col,
        chars,
        s.pen,
    ));
    assert(mid.cells.update(r, mid.cells[r].update(c, s.pen.stamp(chars.last()))) =~= s.cells.update(
        r,
        overwrite(s.cells[r], s.cursor_col, chars, s.pen),
    ));
}

/// Printing as many characters as the grid has columns, without a line
/// feed, wraps exactly once, at the column boundary. The characters
/// that fit fill the rest of the cursor's row; then the cursor wraps as
/// a line feed does, to the next row or, on the last row, by scrolling
/// the grid; the remaining characters follow from column zero; and the
/// cursor ends in the column in which it began.
pub proof fn theorem_row_of_prints_wraps_once(s: Screen, chars: Seq<char>)
    requires
        s.wf(),
        s.rows > 0,
        s.cols > 0,
        chars.len() == s.cols,
    ensures
        ({
            let fit = s.cols - s.cursor_col;
            let wrapped = with_row_written(s, chars.take(fit)).linefeed();
            &&& print_all(s, chars) == (Screen {
                cursor_col: s.cursor_col,
                ..with_row_written(wrapped, chars.skip(fit))
            })
            &&& wrapped.cursor_col == 0
            &&& s.cursor_row < s.rows - 1 ==> print_all(s, chars).cursor_row == s.cursor_row + 1
            &&& s.cursor_row == s.rows - 1 ==> print_all(s, chars).cursor_row == s.cursor_row
        }),
{
    let fit = s.cols - s.cursor_col;
    let first = chars.take(fit);
    let second = chars.skip(fit);
    assert(first + second =~= chars);
    lemma_print_all_concat(s, first, second);
    lemma_print_to_boundary(s, first);
    let filled = with_row_written(s, first);
    assert(filled.wf());
    lemma_linefeed_wf(filled);
    let wrapped = filled.linefeed();
    lemma_print_within_row(wrapped, second);
}

/// Printing as many characters as the grid has columns, from column
/// zero and without a line feed, fills the cursor's row with them and
/// leaves the cursor at column zero of the next row; on the last row
/// the grid scrolls instead.
pub proof fn theorem_full_row_wraps(s: Screen, chars: Seq<char>)
    requires
        s.wf(),
        s.cols > 0,
        s.rows > 0,
        s.cursor_col == 0,
        chars.len() == s.cols,
    ensures
        print_all(s, chars) == (Screen {
            cells: s.cells.update(s.cursor_row, Seq::new(s.cols as nat, |c: int| s.pen.stamp(chars[c]))),
            ..s
        }).linefeed(),
        print_all(s, chars).cursor_col == 0,
        s.cursor_row < s.rows - 1 ==> {
            &&& print_all(s, chars).cursor_row == s.cursor_row + 1
            &&& print_all(s, chars).cells[s.cursor_row] == Seq::new(s.cols as nat, |c: int| s.pen.stamp(chars[c]))
        },
{
    lemma_print_to_boundary(s, chars);
    assert(overwrite(s.cells[s.cursor_row], 0, chars, s.pen) =~= Seq::new(
        s.cols as nat,
        |c: int| s.pen.stamp(chars[c]),
    ));
}

/// A line feed on the last row scrolls the grid up by exactly one row:
/// every row takes the content of the row below it, the former top row
/// is gone, the bottom row is blank, and the cursor stays on the last
/// row, at column zero.
pub proof fn theorem_linefeed_scrolls(s: Screen)
    requires
        s.wf(),
        s.rows > 0,
        s.cursor_row == s.rows - 1,
    ensures
        s.linefeed().wf(),
        s.linefeed().rows == s.rows,
        s.linefeed().cols == s.cols,
        forall|r: int| 0 <= r < s.rows - 1 ==> #[trigger] s.linefeed().cells[r] == s.cells[r + 1],
        s.linefeed().cells[s.rows - 1] == blank_row(s.cols),
        s.linefeed().cursor_row == s.rows - 1,
        s.linefeed().cursor_col == 0,
        s.linefeed().pen == s.pen,
{
    lemma_linefeed_wf(s);
}

/// A line feed above the last row moves the cursor down and leaves
/// every cell as it was.
pub proof fn theorem_linefeed_moves(s: Screen)
    requires
        s.wf(),
        s.cursor_row < s.last_row(),
    ensures
        s.linefeed() == (Screen { cursor_row: s.cursor_row + 1, cursor_col: 0, ..s }),
{
}

/// After a resize the grid has exactly `rows` rows of `cols` cells, all
/// of them blank, and the cursor is at the origin.
pub proof fn theorem_resize_shape(s: Screen, rows: int, cols: int)
    requires
        0 <= rows <= u16::MAX,
        0 <= cols <= u16::MAX,
    ensures
        s.resize(rows, cols).wf(),
        s.resize(rows, cols).cells.len() == rows,
        forall|r: int| 0 <= r < rows ==> (#[trigger] s.resize(rows, cols).cells[r]).len() == cols,
        forall|r: int, c: int|
            0 <= r < rows && 0 <= c < cols ==> #[trigger] s.resize(rows, cols).cells[r][c]
                == Cell::blank(),
        s.resize(rows, cols).cursor_row == 0,
        s.resize(rows, cols).cursor_col == 0,
{
    assert(s.resize(rows, cols).cells == blank_cells(rows, cols));
}

/// Rendition code 0 returns the pen to its default, whatever codes
/// came before it.
pub proof fn theorem_reset_restores_pen(pen: Pen, codes: Seq<u16>)
    ensures
        pen.sgr_all(codes.push(0)) == Pen::plain(),
        pen.sgr_all(codes).sgr(0) == Pen::plain(),
{
    assert(codes.push(0).drop_last() =~= codes);
}

/// The reset sequence `ESC [ 0 m`, written to a terminal whose parser
/// is at rest, returns the pen to its default and changes nothing else.
pub proof fn theorem_reset_sequence(t: TerminalModel)
    requires
        t.wf(),
        t.parser == ParserModel::ground(),
    ensures
        t.write(seq![0x1Bu8, 0x5Bu8, 0x30u8, 0x6Du8]) == (TerminalModel {
            screen: Screen { pen: Pen::plain(), ..t.screen },
            parser: ParserModel::ground(),
        }),
{
    let bytes = seq![0x1Bu8, 0x5Bu8, 0x30u8, 0x6Du8];
    let b1 = seq![0x1Bu8];
    let b2 = seq![0x1Bu8, 0x5Bu8];
    let b3 = seq![0x1Bu8, 0x5Bu8, 0x30u8];
    assert(bytes.drop_last() =~= b3);
    assert(b3.drop_last() =~= b2);
    assert(b2.drop_last() =~= b1);
    assert(b1.drop_last() =~= Seq::<u8>::empty());
    assert(t.write(Seq::<u8>::empty()) == t);
    let t1 = t.step(0x1B);
    assert(t.write(b1) == t1);
    assert(t1.parser.state == ParserState::Escape);
    let t2 = t1.step(0x5B);
    assert(t.write(b2) == t2);
    assert(t2.parser.state == ParserState::Csi);
    let t3 = t2.step(0x30);
    assert(t.write(b3) == t3);
    assert(t3.parser.state == ParserState::Csi);
    assert(t3.parser.current == 0);
    assert(t3.parser.params =~= Seq::<u16>::empty());
    let t4 = t3.step(0x6D);
    assert(t.write(bytes) == t4);
    let codes = seq![0u16];
    assert(t3.parser.step(0x6D).1 == Some(OpView::SetGraphicRendition(codes))) by {
        assert(Seq::<u16>::empty().push(0u16) =~= codes);
    }
    assert(codes =~= Seq::<u16>::empty().push(0u16));
    theorem_reset_restores_pen(t.screen.pen, Seq::<u16>::empty());
}

/// Placing the cursor inside the grid and printing a character puts
/// that character, in the pen's style, into exactly that cell: every
/// other cell is as it was, unless the print wrapped on the last row and
/// the grid scrolled.
pub proof fn theorem_print_at(s: Screen, row: int, col: int, ch: char)
    requires
        s.wf(),
        0 <= row < s.rows,
        0 <= col < s.cols,
        !(row == s.rows - 1 && col == s.cols - 1),
    ensures
        s.cursor_set(row, col).print(ch).cells[row][col] == s.pen.stamp(ch),
        forall|r: int, c: int|
            0 <= r < s.rows && 0 <= c < s.cols && !(r == row && c == col) ==> #[trigger] s.cursor_set(
                row,
                col,
            ).print(ch).cells[r][c] == s.cells[r][c],
{
}

/// The decimal digits of `n`, most significant first.
pub open spec fn decimal(n: nat) -> Seq<u8>
    decreases n,
{
    if n < 10 {
        seq![(0x30 + n) as u8]
    } else {
        decimal(n / 10).push((0x30 + n % 10) as u8)
    }
}

/// The control sequence that places the cursor at the one-based
/// position `row`, `col`: `ESC [ row ; col H`.
pub open spec fn cursor_position_sequence(row: nat, col: nat) -> Seq<u8> {
    seq![0x1Bu8, 0x5Bu8] + decimal(row) + seq![0x3Bu8] + decimal(col) + seq![0x48u8]
}

/// Parsing one byte is taking one step.
proof fn lemma_parse_one(p: ParserModel, b: u8)
    ensures
        p.parse(seq![b]) == (p.step(b).0, emitted(p.step(b).1)),
{
    let one = seq![b];
    assert(one.len() == 1);
    assert(one.drop_last() =~= Seq::<u8>::empty());
    assert(one.last() == b);
    assert(p.parse(Seq::<u8>::empty()) == (p, Seq::<OpView>::empty()));
    assert(Seq::<OpView>::empty() + emitted(p.step(b).1) =~= emitted(p.step(b).1));
}

/// Inside a control sequence, the decimal digits of a number within
/// the parameter range make that number the current parameter, and
/// emit nothing.
proof fn lemma_parse_decimal(p: ParserModel, n: nat)
    requires
        p.wf(),
        p.state == ParserState::Csi,
        p.current == 0,
        n <= 0xFFFF,
    ensures
        p.parse(decimal(n)).0.wf(),
        p.parse(decimal(n)).0.state == ParserState::Csi,
        p.parse(decimal(n)).0.params == p.params,
        p.parse(decimal(n)).0.current == n,
        p.parse(decimal(n)).1 == Seq::<OpView>::empty(),
    decreases n,
{
    let none = Seq::<OpView>::empty();
    if n < 10 {
        lemma_parse_one(p, (0x30 + n) as u8);
    } else {
        let digit = (0x30 + n % 10) as u8;
        lemma_parse_decimal(p, n / 10);
        assert(decimal(n).drop_last() =~= decimal(n / 10));
        assert(decimal(n).last() == digit);
        let before = p.parse(decimal(n / 10)).0;
        assert(before.step(digit).1 is None);
        assert(none + emitted(before.step(digit).1) =~= none);
    }
}

/// The control sequence for a cursor position, read by a parser in
/// ground mode, comes out as exactly one cursor placement at that
/// position, counted from zero, and leaves the parser at rest.
pub proof fn theorem_cursor_position_parses(p: ParserModel, row: nat, col: nat)
    requires
        p.wf(),
        p.state == ParserState::Ground,
        1 <= row <= 0xFFFF,
        1 <= col <= 0xFFFF,
    ensures
        p.parse(cursor_position_sequence(row, col)) == (
            ParserModel::ground(),
            seq![OpView::CursorSet(row - 1, col - 1)],
        ),
{
    let none = Seq::<OpView>::empty();
    let intro = seq![0x1Bu8, 0x5Bu8];
    // ESC [
    assert(intro.drop_last() =~= seq![0x1Bu8]);
    lemma_parse_one(p, 0x1B);
    let p1 = p.step(0x1B).0;
    assert(p.parse(seq![0x1Bu8]) == (p1, none));
    let p2 = p1.step(0x5B).0;
    assert(none + emitted(p1.step(0x5B).1) =~= none);
    assert(p.parse(intro) == (p2, none));
    assert(p2.params =~= Seq::<u16>::empty());
    // row
    lemma_parse_decimal(p2, row);
    theorem_parse_chunks(p, intro, decimal(row));
    let p3 = p2.parse(decimal(row)).0;
    assert(none + none =~= none);
    assert(p.parse(intro + decimal(row)) == (p3, none));
    // ;
    lemma_parse_one(p3, 0x3B);
    theorem_parse_chunks(p, intro + decimal(row), seq![0x3Bu8]);
    let p4 = p3.step(0x3B).0;
    assert(p.parse(intro + decimal(row) + seq![0x3Bu8]) == (p4, none));
    assert(p4.params =~= seq![row as u16]);
    // col
    lemma_parse_decimal(p4, col);
    theorem_parse_chunks(p, intro + decimal(row) + seq![0x3Bu8], decimal(col));
    let p5 = p4.parse(decimal(col)).0;
    assert(p.parse(intro + decimal(row) + seq![0x3Bu8] + decimal(col)) == (p5, none));
    // H
    lemma_parse_one(p5, 0x48);
    theorem_parse_chunks(p, intro + decimal(row) + seq![0x3Bu8] + decimal(col), seq![0x48u8]);
    let params = seq![row as u16, col as u16];
    assert(seq![row as u16].push(col as u16) =~= params);
    assert(none + seq![OpView::CursorSet(row - 1, col - 1)] =~= seq![
        OpView::CursorSet(row - 1, col - 1),
    ]);
}

/// Round trip through the terminal: writing the control sequence for
/// a cursor position inside the grid, and then a printable character,
/// puts that character, in the pen's style, into exactly the cell at
/// that position. Every other cell is as it was, the cursor stands
/// behind the character, and the parser is at rest. The last cell of
/// the grid is left out: a print there wraps and scrolls the grid.
pub proof fn theorem_cursor_position_round_trip(t: TerminalModel, row: nat, col: nat, x: u8)
    requires
        t.wf(),
        t.parser.state == ParserState::Ground,
        1 <= row <= t.screen.rows,
        1 <= col <= t.screen.cols,
        !(row == t.screen.rows && col == t.screen.cols),
        is_printable(x),
    ensures
        ({
            let after = t.write(cursor_position_sequence(row, col).push(x));
            &&& after.parser == ParserModel::ground()
            &&& after.screen == t.screen.cursor_set(row - 1, col - 1).print(x as char)
            &&& after.screen.cells[row - 1][col - 1] == t.screen.pen.stamp(x as char)
            &&& forall|r: int, c: int|
                0 <= r < t.screen.rows && 0 <= c < t.screen.cols && !(r == row - 1 && c == col - 1)
                    ==> #[trigger] after.screen.cells[r][c] == t.screen.cells[r][c]
        }),
{
    let sequence = cursor_position_sequence(row, col);
    let bytes = sequence.push(x);
    theorem_cursor_position_parses(t.parser, row, col);
    assert(bytes.drop_last() =~= sequence);
    let place = OpView::CursorSet(row - 1, col - 1);
    let print = OpView::Print(x as char);
    let ops = seq![place, print];
    assert(seq![place] + emitted(Some(print)) =~= ops);
    assert(t.parser.parse(bytes) == (ParserModel::ground(), ops));
    theorem_write_is_parse_then_apply(t, bytes);
    assert(ops.drop_last() =~= seq![place]);
    assert(seq![place].drop_last() =~= Seq::<OpView>::empty());
    assert(t.screen.apply_all(Seq::<OpView>::empty()) == t.screen);
    assert(t.screen.apply_all(seq![place]) == t.screen.cursor_set(row - 1, col - 1));
    assert(t.screen.apply_all(ops) == t.screen.cursor_set(row - 1, col - 1).print(x as char));
    theorem_print_at(t.screen, row - 1, col - 1, x as char);
}

/// The characters with the given scalar values, in order.
pub open spec fn chars_of(values: Seq<u32>) -> Seq<char> {
    Seq::new(values.len(), |i: int| values[i] as char)
}

/// Applying one print for each character is printing the characters
/// one after another.
proof fn lemma_apply_prints(s: Screen, values: Seq<u32>)
    ensures
        s.apply_all(prints(values)) == print_all(s, chars_of(values)),
    decreases values.len(),
{
    if values.len() > 0 {
        let head = values.drop_last();
        lemma_apply_prints(s, head);
        assert(prints(values).drop_last() =~= prints(head));
        assert(chars_of(values).drop_last() =~= chars_of(head));
    }
}

/// Writing a text of visible characters in UTF-8 to a terminal whose
/// parser is in ground mode with nothing pending prints its characters
/// one after another, and leaves the parser as it was.
pub proof fn theorem_write_text(t: TerminalModel, values: Seq<u32>)
    requires
        t.wf(),
        t.parser.state == ParserState::Ground,
        t.parser.need == 0,
        forall|i: int|
            0 <= i < values.len() ==> is_scalar_value(#[trigger] values[i]) && is_visible(
                values[i] as char,
            ),
    ensures
        t.write(encode_text(values)) == (TerminalModel {
            screen: print_all(t.screen, chars_of(values)),
            parser: ParserModel::ground(),
        }),
{
    theorem_decodes_text(t.parser, values);
    theorem_write_is_parse_then_apply(t, encode_text(values));
    lemma_apply_prints(t.screen, values);
}

} // verus!
