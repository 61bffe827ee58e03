//! Byte-level escape-sequence parser.
//!
//! The parser is a state machine over single bytes. It classifies a raw
//! terminal stream into printable characters, control characters and
//! escape / CSI sequences, and emits one terminal operation at a time.
//! Every piece of state it keeps is bounded, whatever the input.

use vstd::prelude::*;

verus! {

/// Largest number of numeric parameters kept for one control sequence.
/// Parameters beyond this count are ignored.
pub const MAX_PARAMS: usize = 16;

/// Largest number of raw bytes remembered of a sequence in progress.
/// Bytes beyond this count are not recorded.
pub const MAX_RAW: usize = 32;

/// Value at which a numeric parameter saturates.
pub const MAX_PARAM_VALUE: u16 = 0xFFFF;

/// Which part of a line or of the display an erase operation clears.
#[derive(Clone, Copy, Debug, PartialEq, Eq, Structural)]
pub enum EraseMode {
    /// From the cursor to the end, the cursor's cell included.
    ToEnd,
    /// From the start to the cursor, the cursor's cell included.
    ToStart,
    /// Everything.
    All,
}

/// One terminal operation, as emitted by the parser.
#[derive(Debug, PartialEq, Eq)]
pub enum Op {
    /// Write a character at the cursor.
    Print(char),
    LineFeed,
    CarriageReturn,
    Backspace,
    Tab,
    /// Move the cursor by a number of rows and columns.
    CursorMove(i32, i32),
    /// Place the cursor at a zero-based row and column.
    CursorSet(u16, u16),
    EraseInLine(EraseMode),
    EraseInDisplay(EraseMode),
    /// Change the pen; the codes are applied in order.
    SetGraphicRendition(Vec<u16>),
    /// Marker for a window report; it changes nothing.
    ResizeAcknowledge,
    /// A sequence that was not recognised, with the bytes recorded of it.
    Unknown(Vec<u8>),
}

/// Mathematical value of an [`Op`].
pub enum OpView {
    Print(char),
    LineFeed,
    CarriageReturn,
    Backspace,
    Tab,
    CursorMove(int, int),
    CursorSet(int, int),
    EraseInLine(EraseMode),
    EraseInDisplay(EraseMode),
    SetGraphicRendition(Seq<u16>),
    ResizeAcknowledge,
    Unknown(Seq<u8>),
}

impl View for Op {
    type V = OpView;

    open spec fn view(&self) -> OpView {
        match *self {
            Op::Print(c) => OpView::Print(c),
            Op::LineFeed => OpView::LineFeed,
            Op::CarriageReturn => OpView::CarriageReturn,
            Op::Backspace => OpView::Backspace,
            Op::Tab => OpView::Tab,
            Op::CursorMove(dr, dc) => OpView::CursorMove(dr as int, dc as int),
            Op::CursorSet(r, c) => OpView::CursorSet(r as int, c as int),
            Op::EraseInLine(m) => OpView::EraseInLine(m),
            Op::EraseInDisplay(m) => OpView::EraseInDisplay(m),
            Op::SetGraphicRendition(codes) => OpView::SetGraphicRendition(codes@),
            Op::ResizeAcknowledge => OpView::ResizeAcknowledge,
            Op::Unknown(raw) => OpView::Unknown(raw@),
        }
    }
}

/// The view of an optional operation.
pub open spec fn op_view(op: Option<Op>) -> Option<OpView> {
    match op {
        Some(o) => Some(o@),
        None => None,
    }
}

/// The views of a list of operations, in order.
pub open spec fn ops_view(ops: Seq<Op>) -> Seq<OpView> {
    Seq::new(ops.len(), |i: int| ops[i]@)
}

/// Mode of the state machine.
#[derive(Clone, Copy, Debug, PartialEq, Eq, Structural)]
pub enum ParserState {
    /// Ordinary text.
    Ground,
    /// An escape byte was seen.
    Escape,
    /// Collecting the parameters of a control sequence.
    Csi,
}

/// Mathematical value of a [`Parser`].
pub struct ParserModel {
    pub state: ParserState,
    /// Parameters completed so far.
    pub params: Seq<u16>,
    /// Parameter being accumulated.
    pub current: u16,
    /// Bytes recorded of the sequence in progress.
    pub raw: Seq<u8>,
    /// Continuation bytes still owed to a multi-byte character.
    pub need: u8,
    /// Bits collected of that character.
    pub acc: u32,
    /// Smallest scalar value that its length may encode.
    pub min: u32,
}

// ---------------------------------------------------------------------
// Bytes
// ---------------------------------------------------------------------

pub open spec fn is_digit(b: u8) -> bool {
    0x30 <= b <= 0x39
}

/// A printable ASCII byte, the space included.
pub open spec fn is_printable(b: u8) -> bool {
    0x20 <= b <= 0x7E
}

/// A byte that continues a multi-byte character.
pub open spec fn is_continuation(b: u8) -> bool {
    0x80 <= b <= 0xBF
}

/// Number of continuation bytes that follow the lead byte `b`, or zero
/// where `b` leads no multi-byte character.
pub open spec fn lead_need(b: u8) -> u8 {
    if 0xC2 <= b <= 0xDF {
        1
    } else if 0xE0 <= b <= 0xEF {
        2
    } else if 0xF0 <= b <= 0xF4 {
        3
    } else {
        0
    }
}

/// Payload bits of the lead byte `b`.
pub open spec fn lead_bits(b: u8) -> u32 {
    if 0xC2 <= b <= 0xDF {
        (b - 0xC0) as u32
    } else if 0xE0 <= b <= 0xEF {
        (b - 0xE0) as u32
    } else if 0xF0 <= b <= 0xF4 {
        (b - 0xF0) as u32
    } else {
        0
    }
}

/// Smallest scalar value that a character led by `b` may encode.
pub open spec fn lead_min(b: u8) -> u32 {
    if 0xC2 <= b <= 0xDF {
        0x80
    } else if 0xE0 <= b <= 0xEF {
        0x800
    } else if 0xF0 <= b <= 0xF4 {
        0x1_0000
    } else {
        0
    }
}

/// A Unicode scalar value: a code point that is no surrogate.
pub open spec fn is_scalar_value(x: u32) -> bool {
    x <= 0xD7FF || (0xE000 <= x && x <= 0x10_FFFF)
}

/// The accumulator after one more continuation byte.
pub open spec fn push_bits(acc: u32, b: u8) -> u32 {
    (acc * 64 + (b - 0x80)) as u32
}

// ---------------------------------------------------------------------
// Parameters
// ---------------------------------------------------------------------

/// A parameter after one more decimal digit, saturating.
pub open spec fn push_digit(current: u16, b: u8) -> u16 {
    let v = current as int * 10 + (b - 0x30);
    if v > MAX_PARAM_VALUE as int {
        MAX_PARAM_VALUE
    } else {
        v as u16
    }
}

/// The parameter list after one more parameter, the excess ignored.
pub open spec fn push_param(params: Seq<u16>, value: u16) -> Seq<u16> {
    if params.len() < MAX_PARAMS as nat {
        params.push(value)
    } else {
        params
    }
}

/// The raw record after one more byte, the excess not recorded.
pub open spec fn push_raw(raw: Seq<u8>, b: u8) -> Seq<u8> {
    if raw.len() < MAX_RAW as nat {
        raw.push(b)
    } else {
        raw
    }
}

/// The parameter at `index`, zero where it was omitted.
pub open spec fn param_at(params: Seq<u16>, index: int) -> int {
    if 0 <= index < params.len() {
        params[index] as int
    } else {
        0
    }
}

/// The parameter at `index` as a count: an omitted or zero count is one.
pub open spec fn count_at(params: Seq<u16>, index: int) -> int {
    if param_at(params, index) == 0 {
        1
    } else {
        param_at(params, index)
    }
}

/// The erase mode that a parameter selects, if any.
pub open spec fn erase_mode(value: int) -> Option<EraseMode> {
    if value == 0 {
        Some(EraseMode::ToEnd)
    } else if value == 1 {
        Some(EraseMode::ToStart)
    } else if value == 2 {
        Some(EraseMode::All)
    } else {
        None
    }
}

/// The operation of a control sequence that ends in `last`, given its
/// parameters and the bytes recorded of it.
///
/// Cursor movements count from one where the count is omitted or zero;
/// a cursor position is one-based on the wire and zero-based in the
/// operation; an erase mode defaults to zero.
pub open spec fn csi_dispatch(params: Seq<u16>, last: u8, raw: Seq<u8>) -> OpView {
    if last == 0x41 {
        OpView::CursorMove(-count_at(params, 0), 0)
    } else if last == 0x42 {
        OpView::CursorMove(count_at(params, 0), 0)
    } else if last == 0x43 {
        OpView::CursorMove(0, count_at(params, 0))
    } else if last == 0x44 {
        OpView::CursorMove(0, -count_at(params, 0))
    } else if last == 0x48 || last == 0x66 {
        OpView::CursorSet(count_at(params, 0) - 1, count_at(params, 1) - 1)
    } else if last == 0x4A {
        match erase_mode(param_at(params, 0)) {
            Some(m) => OpView::EraseInDisplay(m),
            None => OpView::Unknown(raw),
        }
    } else if last == 0x4B {
        match erase_mode(param_at(params, 0)) {
            Some(m) => OpView::EraseInLine(m),
            None => OpView::Unknown(raw),
        }
    } else if last == 0x6D {
        OpView::SetGraphicRendition(params)
    } else if last == 0x74 {
        OpView::ResizeAcknowledge
    } else {
        OpView::Unknown(raw)
    }
}

// ---------------------------------------------------------------------
// The state machine
// ---------------------------------------------------------------------

impl ParserModel {
    /// The parser at rest: ordinary text, nothing pending.
    pub open spec fn ground() -> ParserModel {
        ParserModel {
            state: ParserState::Ground,
            params: Seq::empty(),
            current: 0,
            raw: Seq::empty(),
            need: 0,
            acc: 0,
            min: 0,
        }
    }

    /// Every piece of pending state is within its fixed bound, and no
    /// mode carries state that belongs to another.
    pub open spec fn wf(self) -> bool {
        &&& self.params.len() <= MAX_PARAMS as nat
        &&& self.raw.len() <= MAX_RAW as nat
        &&& self.need <= 3
        &&& (self.state != ParserState::Csi ==> self.params.len() == 0 && self.current == 0)
        &&& (self.state == ParserState::Ground ==> self.raw.len() == 0)
        &&& (self.state != ParserState::Ground ==> self.need == 0)
        &&& (self.need == 0 ==> self.acc == 0 && self.min == 0)
        &&& (self.need == 1 ==> self.acc <= 0x7FFF)
        &&& (self.need == 2 ==> self.acc <= 0x1FF)
        &&& (self.need == 3 ==> self.acc <= 0x7)
    }

    /// One byte of ordinary text, with no character pending.
    pub open spec fn step_text(b: u8) -> (ParserModel, Option<OpView>) {
        if b == 0x1B {
            (
                ParserModel {
                    state: ParserState::Escape,
                    params: Seq::empty(),
                    current: 0,
                    raw: seq![b],
                    need: 0,
                    acc: 0,
                    min: 0,
                },
                None,
            )
        } else if b == 0x08 {
            (Self::ground(), Some(OpView::Backspace))
        } else if b == 0x09 {
            (Self::ground(), Some(OpView::Tab))
        } else if b == 0x0A {
            (Self::ground(), Some(OpView::LineFeed))
        } else if b == 0x0D {
            (Self::ground(), Some(OpView::CarriageReturn))
        } else if is_printable(b) {
            (Self::ground(), Some(OpView::Print(b as char)))
        } else if lead_need(b) > 0 {
            (
                ParserModel {
                    state: ParserState::Ground,
                    params: Seq::empty(),
                    current: 0,
                    raw: Seq::empty(),
                    need: lead_need(b),
                    acc: lead_bits(b),
                    min: lead_min(b),
                },
                None,
            )
        } else {
            (Self::ground(), None)
        }
    }

    /// One byte in ground mode. A continuation byte extends the pending
    /// character and, where it completes a scalar value in its shortest
    /// encoding, prints it. Any other byte drops what was pending and is
    /// read as ordinary text.
    pub open spec fn step_ground(self, b: u8) -> (ParserModel, Option<OpView>) {
        if self.need > 0 && is_continuation(b) {
            let acc = push_bits(self.acc, b);
            if self.need == 1 {
                if acc >= self.min && is_scalar_value(acc) {
                    (Self::ground(), Some(OpView::Print(acc as char)))
                } else {
                    (Self::ground(), None)
                }
            } else {
                (
                    ParserModel {
                        state: ParserState::Ground,
                        params: Seq::empty(),
                        current: 0,
                        raw: Seq::empty(),
                        need: (self.need - 1) as u8,
                        acc: acc,
                        min: self.min,
                    },
                    None,
                )
            }
        } else {
            Self::step_text(b)
        }
    }

    /// One byte after an escape byte. `[` opens a control sequence; `D`
    /// and `E` move to the next line; any other byte is lost.
    pub open spec fn step_escape(self, b: u8) -> (ParserModel, Option<OpView>) {
        if b == 0x5B {
            (
                ParserModel {
                    state: ParserState::Csi,
                    params: Seq::empty(),
                    current: 0,
                    raw: push_raw(self.raw, b),
                    need: 0,
                    acc: 0,
                    min: 0,
                },
                None,
            )
        } else if b == 0x44 || b == 0x45 {
            (Self::ground(), Some(OpView::LineFeed))
        } else {
            (Self::ground(), None)
        }
    }

    /// One byte inside a control sequence. A digit extends the current
    /// parameter, `;` closes it, and any other byte ends the sequence.
    pub open spec fn step_csi(self, b: u8) -> (ParserModel, Option<OpView>) {
        if is_digit(b) {
            (
                ParserModel {
                    state: ParserState::Csi,
                    params: self.params,
                    current: push_digit(self.current, b),
                    raw: push_raw(self.raw, b),
                    need: 0,
                    acc: 0,
                    min: 0,
                },
                None,
            )
        } else if b == 0x3B {
            (
                ParserModel {
                    state: ParserState::Csi,
                    params: push_param(self.params, self.current),
                    current: 0,
                    raw: push_raw(self.raw, b),
                    need: 0,
                    acc: 0,
                    min: 0,
                },
                None,
            )
        } else {
            (
                Self::ground(),
                Some(
                    csi_dispatch(push_param(self.params, self.current), b, push_raw(self.raw, b)),
                ),
            )
        }
    }

    /// The parser after one byte, and the operation that the byte
    /// completes, if any.
    pub open spec fn step(self, b: u8) -> (ParserModel, Option<OpView>) {
        match self.state {
            ParserState::Ground => self.step_ground(b),
            ParserState::Escape => self.step_escape(b),
            ParserState::Csi => self.step_csi(b),
        }
    }

    /// The parser after a run of bytes, and the operations that the run
    /// completes, in order.
    pub open spec fn parse(self, bytes: Seq<u8>) -> (ParserModel, Seq<OpView>)
        decreases bytes.len(),
    {
        if bytes.len() == 0 {
            (self, Seq::empty())
        } else {
            let (before, ops) = self.parse(bytes.drop_last());
            let (after, op) = before.step(bytes.last());
            (after, ops + emitted(op))
        }
    }
}

/// The operations that one step adds to the output: one or none.
pub open spec fn emitted(op: Option<OpView>) -> Seq<OpView> {
    match op {
        Some(o) => seq![o],
        None => Seq::empty(),
    }
}

/// The payload of an operation is within the parser's fixed bounds.
pub open spec fn op_bounded(op: OpView) -> bool {
    match op {
        OpView::SetGraphicRendition(codes) => codes.len() <= MAX_PARAMS as nat,
        OpView::Unknown(raw) => raw.len() <= MAX_RAW as nat,
        OpView::CursorMove(dr, dc) => -0xFFFF <= dr <= 0xFFFF && -0xFFFF <= dc <= 0xFFFF,
        OpView::CursorSet(r, c) => 0 <= r < 0xFFFF && 0 <= c < 0xFFFF,
        _ => true,
    }
}

// ---------------------------------------------------------------------
// Executable parser
// ---------------------------------------------------------------------

/// `char::from_u32` of the standard library. Its documentation promises
/// the character with the given code for every Unicode scalar value, and
/// `None` for a surrogate or a value above `0x10FFFF`.
pub assume_specification[ char::from_u32 ](x: u32) -> (c: Option<char>)
    ensures
        is_scalar_value(x) ==> c == Some(x as char),
        !is_scalar_value(x) ==> c is None,
;

/// The escape-sequence parser: a mode and the bounded state pending in it.
#[derive(Debug)]
pub struct Parser {
    pub state: ParserState,
    pub params: Vec<u16>,
    pub current: u16,
    pub raw: Vec<u8>,
    pub need: u8,
    pub acc: u32,
    pub min: u32,
}

impl View for Parser {
    type V = ParserModel;

    open spec fn view(&self) -> ParserModel {
        ParserModel {
            state: self.state,
            params: self.params@,
            current: self.current,
            raw: self.raw@,
            need: self.need,
            acc: self.acc,
            min: self.min,
        }
    }
}

/// Appends `value` to `params` unless the list is full.
fn store_param(params: &mut Vec<u16>, value: u16)
    ensures
        final(params)@ == push_param(old(params)@, value),
{
    if params.len() < MAX_PARAMS {
        params.push(value);
    }
}

/// Appends `b` to `raw` unless the record is full.
fn store_raw(raw: &mut Vec<u8>, b: u8)
    ensures
        final(raw)@ == push_raw(old(raw)@, b),
{
    if raw.len() < MAX_RAW {
        raw.push(b);
    }
}

/// The parameter at `index`, zero where it was omitted.
fn param_or_zero(params: &Vec<u16>, index: usize) -> (value: u16)
    ensures
        value as int == param_at(params@, index as int),
{
    if index < params.len() {
        params[index]
    } else {
        0
    }
}

/// The parameter at `index` as a count of at least one.
fn param_or_one(params: &Vec<u16>, index: usize) -> (value: u16)
    ensures
        value as int == count_at(params@, index as int),
{
    let value = param_or_zero(params, index);
    if value == 0 {
        1
    } else {
        value
    }
}

/// The erase mode that `value` selects, if any.
fn select_erase_mode(value: u16) -> (mode: Option<EraseMode>)
    ensures
        mode == erase_mode(value as int),
{
    if value == 0 {
        Some(EraseMode::ToEnd)
    } else if value == 1 {
        Some(EraseMode::ToStart)
    } else if value == 2 {
        Some(EraseMode::All)
    } else {
        None
    }
}

/// Builds the operation of a finished control sequence.
pub fn dispatch(params: Vec<u16>, last: u8, raw: Vec<u8>) -> (op: Op)
    ensures
        op@ == csi_dispatch(params@, last, raw@),
{
    if last == 0x41 {
        let n = param_or_one(&params, 0);
        Op::CursorMove(-(n as i32), 0)
    } else if last == 0x42 {
        let n = param_or_one(&params, 0);
        Op::CursorMove(n as i32, 0)
    } else if last == 0x43 {
        let n = param_or_one(&params, 0);
        Op::CursorMove(0, n as i32)
    } else if last == 0x44 {
        let n = param_or_one(&params, 0);
        Op::CursorMove(0, -(n as i32))
    } else if last == 0x48 || last == 0x66 {
        let row = param_or_one(&params, 0);
        let col = param_or_one(&params, 1);
        Op::CursorSet(row - 1, col - 1)
    } else if last == 0x4A {
        match select_erase_mode(param_or_zero(&params, 0)) {
            Some(m) => Op::EraseInDisplay(m),
            None => Op::Unknown(raw),
        }
    } else if last == 0x4B {
        match select_erase_mode(param_or_zero(&params, 0)) {
            Some(m) => Op::EraseInLine(m),
            None => Op::Unknown(raw),
        }
    } else if last == 0x6D {
        Op::SetGraphicRendition(params)
    } else if last == 0x74 {
        Op::ResizeAcknowledge
    } else {
        Op::Unknown(raw)
    }
}

impl Parser {
    /// The parser's pending state is within its bounds.
    pub open spec fn wf(&self) -> bool {
        self@.wf()
    }

    /// Whether the parser's pending state is within its bounds.
    pub fn is_well_formed(&self) -> (ok: bool)
        ensures
            ok == self.wf(),
    {
        let csi = match self.state {
            ParserState::Csi => true,
            _ => false,
        };
        let ground = match self.state {
            ParserState::Ground => true,
            _ => false,
        };
        self.params.len() <= MAX_PARAMS && self.raw.len() <= MAX_RAW && self.need <= 3 && (csi || (
        self.params.len() == 0 && self.current == 0)) && (!ground || self.raw.len() == 0) && (ground
            || self.need == 0) && (self.need != 0 || (self.acc == 0 && self.min == 0)) && (self.need
            != 1 || self.acc <= 0x7FFF) && (self.need != 2 || self.acc <= 0x1FF) && (self.need != 3
            || self.acc <= 0x7)
    }

    /// A parser at rest.
    pub fn new() -> (p: Parser)
        ensures
            p@ == ParserModel::ground(),
            p.wf(),
    {
        Parser {
            state: ParserState::Ground,
            params: Vec::new(),
            current: 0,
            raw: Vec::new(),
            need: 0,
            acc: 0,
            min: 0,
        }
    }

    /// Returns to rest, dropping whatever was pending.
    pub fn reset(&mut self)
        ensures
            final(self)@ == ParserModel::ground(),
            final(self).wf(),
    {
        self.state = ParserState::Ground;
        self.params.clear();
        self.current = 0;
        self.raw.clear();
        self.need = 0;
        self.acc = 0;
        self.min = 0;
    }

    /// Reads one byte of ordinary text with no character pending.
    fn advance_text(&mut self, byte: u8) -> (op: Option<Op>)
        requires
            old(self)@ == ParserModel::ground(),
        ensures
            final(self)@ == ParserModel::step_text(byte).0,
            op_view(op) == ParserModel::step_text(byte).1,
    {
        if byte == 0x1B {
            self.state = ParserState::Escape;
            self.raw.push(byte);
            assert(self.raw@ =~= seq![byte]);
            None
        } else if byte == 0x08 {
            Some(Op::Backspace)
        } else if byte == 0x09 {
            Some(Op::Tab)
        } else if byte == 0x0A {
            Some(Op::LineFeed)
        } else if byte == 0x0D {
            Some(Op::CarriageReturn)
        } else if 0x20 <= byte && byte <= 0x7E {
            Some(Op::Print(byte as char))
        } else if 0xC2 <= byte && byte <= 0xDF {
            self.need = 1;
            self.acc = (byte - 0xC0) as u32;
            self.min = 0x80;
            None
        } else if 0xE0 <= byte && byte <= 0xEF {
            self.need = 2;
            self.acc = (byte - 0xE0) as u32;
            self.min = 0x800;
            None
        } else if 0xF0 <= byte && byte <= 0xF4 {
            self.need = 3;
            self.acc = (byte - 0xF0) as u32;
            self.min = 0x1_0000;
            None
        } else {
            None
        }
    }

    /// Reads one byte in ground mode.
    fn advance_ground(&mut self, byte: u8) -> (op: Option<Op>)
        requires
            old(self).wf(),
            old(self).state == ParserState::Ground,
        ensures
            final(self)@ == old(self)@.step_ground(byte).0,
            op_view(op) == old(self)@.step_ground(byte).1,
    {
        if self.need > 0 && 0x80 <= byte && byte <= 0xBF {
            let acc: u32 = self.acc * 64 + (byte - 0x80) as u32;
            if self.need == 1 {
                let min = self.min;
                self.reset();
                if acc >= min {
                    match char::from_u32(acc) {
                        Some(c) => Some(Op::Print(c)),
                        None => None,
                    }
                } else {
                    None
                }
            } else {
                self.need = self.need - 1;
                self.acc = acc;
                assert(self.params@ =~= Seq::<u16>::empty());
                assert(self.raw@ =~= Seq::<u8>::empty());
                None
            }
        } else {
            self.reset();
            self.advance_text(byte)
        }
    }

    /// Reads one byte after an escape byte.
    fn advance_escape(&mut self, byte: u8) -> (op: Option<Op>)
        requires
            old(self).wf(),
            old(self).state == ParserState::Escape,
        ensures
            final(self)@ == old(self)@.step_escape(byte).0,
            op_view(op) == old(self)@.step_escape(byte).1,
    {
        if byte == 0x5B {
            self.state = ParserState::Csi;
            store_raw(&mut self.raw, byte);
            assert(self.params@ =~= Seq::<u16>::empty());
            None
        } else if byte == 0x44 || byte == 0x45 {
            self.reset();
            Some(Op::LineFeed)
        } else {
            self.reset();
            None
        }
    }

    /// Reads one byte inside a control sequence.
    fn advance_csi(&mut self, byte: u8) -> (op: Option<Op>)
        requires
            old(self).wf(),
            old(self).state == ParserState::Csi,
        ensures
            final(self)@ == old(self)@.step_csi(byte).0,
            op_view(op) == old(self)@.step_csi(byte).1,
    {
        if 0x30 <= byte && byte <= 0x39 {
            let digit: u16 = (byte - 0x30) as u16;
            if self.current > (MAX_PARAM_VALUE - digit) / 10 {
                self.current = MAX_PARAM_VALUE;
            } else {
                self.current = self.current * 10 + digit;
            }
            store_raw(&mut self.raw, byte);
            None
        } else if byte == 0x3B {
            store_param(&mut self.params, self.current);
            self.current = 0;
            store_raw(&mut self.raw, byte);
            None
        } else {
            let mut params: Vec<u16> = Vec::new();
            let mut raw: Vec<u8> = Vec::new();
            std::mem::swap(&mut self.params, &mut params);
            std::mem::swap(&mut self.raw, &mut raw);
            store_param(&mut params, self.current);
            store_raw(&mut raw, byte);
            self.reset();
            Some(dispatch(params, byte, raw))
        }
    }

    /// Reads one byte and returns the operation that it completes, if
    /// any. Malformed input is never an error: the parser returns to
    /// rest and goes on.
    pub fn advance(&mut self, byte: u8) -> (op: Option<Op>)
        requires
            old(self).wf(),
        ensures
            final(self).wf(),
            final(self)@ == old(self)@.step(byte).0,
            op_view(op) == old(self)@.step(byte).1,
    {
        proof {
            lemma_step_bounded(self@, byte);
        }
        match self.state {
            ParserState::Ground => self.advance_ground(byte),
            ParserState::Escape => self.advance_escape(byte),
            ParserState::Csi => self.advance_csi(byte),
        }
    }

    /// Reads a chunk of bytes and returns the operations that it
    /// completes, in order. A sequence cut off by the end of the chunk
    /// stays pending for the next one.
    pub fn feed(&mut self, data: &[u8]) -> (ops: Vec<Op>)
        requires
            old(self).wf(),
        ensures
            final(self).wf(),
            final(self)@ == old(self)@.parse(data@).0,
            ops_view(ops@) == old(self)@.parse(data@).1,
    {
        let mut ops: Vec<Op> = Vec::new();
        let mut i: usize = 0;
        assert(data@.take(0) =~= Seq::<u8>::empty());
        assert(ops_view(ops@) =~= Seq::<OpView>::empty());
        while i < data.len()
            invariant
                i <= data.len(),
                self.wf(),
                self@ == old(self)@.parse(data@.take(i as int)).0,
                ops_view(ops@) == old(self)@.parse(data@.take(i as int)).1,
            decreases data.len() - i,
        {
            let ghost before = ops@;
            let op = self.advance(data[i]);
            match op {
                Some(o) => {
                    ops.push(o);
                    assert(ops_view(ops@) =~= ops_view(before) + seq![o@]);
                },
                None => {
                    assert(ops_view(ops@) =~= ops_view(before) + Seq::<OpView>::empty());
                },
            }
            assert(data@.take(i + 1).drop_last() =~= data@.take(i as int));
            assert(data@.take(i + 1).last() == data@[i as int]);
            i = i + 1;
        }
        assert(data@.take(i as int) =~= data@);
        ops
    }
}

/// One step keeps the parser within its bounds, and so is what it emits.
pub proof fn lemma_step_bounded(p: ParserModel, b: u8)
    requires
        p.wf(),
    ensures
        p.step(b).0.wf(),
        p.step(b).1 matches Some(op) ==> op_bounded(op),
{
}

} // verus!
