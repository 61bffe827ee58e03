//! Screen buffer: a grid of styled cells, a cursor and a pen.
//!
//! Every operation is total. A request that points outside the grid is
//! clamped to it, and a grid without rows or without columns ignores
//! whatever would need a cell.

use vstd::prelude::*;
use crate::terminal::parser::{EraseMode, Op, OpView, Parser, ParserModel};

verus! {

/// Foreground colour of a cell that no sequence has styled.
pub const DEFAULT_FG: u32 = 0x00F1_F5F9;

/// Background colour of a cell that no sequence has styled.
pub const DEFAULT_BG: u32 = 0x000F_172A;

/// Distance between tab stops, in columns.
pub const TAB_WIDTH: u16 = 8;

/// One position of the grid: a character and its style.
#[derive(Clone, Copy, Debug, PartialEq, Eq, Structural)]
pub struct Cell {
    pub ch: char,
    /// Foreground colour, as `0x00RRGGBB`.
    pub fg: u32,
    /// Background colour, as `0x00RRGGBB`.
    pub bg: u32,
    pub bold: bool,
    pub italic: bool,
    pub underline: bool,
}

impl Cell {
    /// The blank cell: a space in the default colours, with no style.
    pub open spec fn blank() -> Cell {
        Cell { ch: ' ', fg: DEFAULT_FG, bg: DEFAULT_BG, bold: false, italic: false, underline: false }
    }
}

impl Default for Cell {
    fn default() -> (cell: Cell)
        ensures
            cell == Cell::blank(),
    {
        Cell { ch: ' ', fg: DEFAULT_FG, bg: DEFAULT_BG, bold: false, italic: false, underline: false }
    }
}

/// The colour of palette entry `index`: eight normal colours, then their
/// eight bright forms. An index outside the palette gives the default
/// foreground.
pub open spec fn palette(index: int) -> u32 {
    if index == 0 {
        0x0000_0000
    } else if index == 1 {
        0x00CD_3131
    } else if index == 2 {
        0x000D_BC79
    } else if index == 3 {
        0x00E5_E510
    } else if index == 4 {
        0x0024_72C8
    } else if index == 5 {
        0x00BC_3FBC
    } else if index == 6 {
        0x0011_A8CD
    } else if index == 7 {
        0x00E5_E5E5
    } else if index == 8 {
        0x0066_6666
    } else if index == 9 {
        0x00F1_4C4C
    } else if index == 10 {
        0x0023_D18B
    } else if index == 11 {
        0x00F5_F543
    } else if index == 12 {
        0x003B_8EEA
    } else if index == 13 {
        0x00D6_70D6
    } else if index == 14 {
        0x0029_B8DB
    } else if index == 15 {
        0x00FF_FFFF
    } else {
        DEFAULT_FG
    }
}

/// The colour of palette entry `index`.
pub fn palette_color(index: u16) -> (color: u32)
    ensures
        color == palette(index as int),
{
    match index {
        0 => 0x0000_0000,
        1 => 0x00CD_3131,
        2 => 0x000D_BC79,
        3 => 0x00E5_E510,
        4 => 0x0024_72C8,
        5 => 0x00BC_3FBC,
        6 => 0x0011_A8CD,
        7 => 0x00E5_E5E5,
        8 => 0x0066_6666,
        9 => 0x00F1_4C4C,
        10 => 0x0023_D18B,
        11 => 0x00F5_F543,
        12 => 0x003B_8EEA,
        13 => 0x00D6_70D6,
        14 => 0x0029_B8DB,
        15 => 0x00FF_FFFF,
        _ => DEFAULT_FG,
    }
}

/// The style given to newly printed characters.
#[derive(Clone, Copy, Debug, PartialEq, Eq, Structural)]
pub struct Pen {
    pub fg: u32,
    pub bg: u32,
    pub bold: bool,
    pub italic: bool,
    pub underline: bool,
}

impl Pen {
    /// The default pen: default colours, no style.
    pub open spec fn plain() -> Pen {
        Pen { fg: DEFAULT_FG, bg: DEFAULT_BG, bold: false, italic: false, underline: false }
    }

    /// The cell that this pen draws for `ch`.
    pub open spec fn stamp(self, ch: char) -> Cell {
        Cell {
            ch: ch,
            fg: self.fg,
            bg: self.bg,
            bold: self.bold,
            italic: self.italic,
            underline: self.underline,
        }
    }

    /// The pen after one rendition code. Code 0 resets the pen; 1, 3
    /// and 4 switch bold, italic and underline on, 22, 23 and 24 off;
    /// 30 to 37 and 90 to 97 pick a foreground from the palette, 40 to 47
    /// and 100 to 107 a background; 39 and 49 restore the default
    /// colours. Any other code changes nothing.
    pub open spec fn sgr(self, code: u16) -> Pen {
        if code == 0 {
            Pen::plain()
        } else if code == 1 {
            Pen { bold: true, ..self }
        } else if code == 3 {
            Pen { italic: true, ..self }
        } else if code == 4 {
            Pen { underline: true, ..self }
        } else if code == 22 {
            Pen { bold: false, ..self }
        } else if code == 23 {
            Pen { italic: false, ..self }
        } else if code == 24 {
            Pen { underline: false, ..self }
        } else if 30 <= code <= 37 {
            Pen { fg: palette(code - 30), ..self }
        } else if code == 39 {
            Pen { fg: DEFAULT_FG, ..self }
        } else if 40 <= code <= 47 {
            Pen { bg: palette(code - 40), ..self }
        } else if code == 49 {
            Pen { bg: DEFAULT_BG, ..self }
        } else if 90 <= code <= 97 {
            Pen { fg: palette(code - 90 + 8), ..self }
        } else if 100 <= code <= 107 {
            Pen { bg: palette(code - 100 + 8), ..self }
        } else {
            self
        }
    }

    /// The pen after a list of rendition codes, applied in order.
    pub open spec fn sgr_all(self, codes: Seq<u16>) -> Pen
        decreases codes.len(),
    {
        if codes.len() == 0 {
            self
        } else {
            self.sgr_all(codes.drop_last()).sgr(codes.last())
        }
    }

    /// The default pen.
    pub fn new() -> (pen: Pen)
        ensures
            pen == Pen::plain(),
    {
        Pen { fg: DEFAULT_FG, bg: DEFAULT_BG, bold: false, italic: false, underline: false }
    }

    /// The cell that this pen draws for `ch`.
    pub fn draw(&self, ch: char) -> (cell: Cell)
        ensures
            cell == self.stamp(ch),
    {
        Cell {
            ch,
            fg: self.fg,
            bg: self.bg,
            bold: self.bold,
            italic: self.italic,
            underline: self.underline,
        }
    }

    /// Applies one rendition code.
    pub fn apply_code(&mut self, code: u16)
        ensures
            *final(self) == old(self).sgr(code),
    {
        if code == 0 {
            *self = Pen::new();
        } else if code == 1 {
            self.bold = true;
        } else if code == 3 {
            self.italic = true;
        } else if code == 4 {
            self.underline = true;
        } else if code == 22 {
            self.bold = false;
        } else if code == 23 {
            self.italic = false;
        } else if code == 24 {
            self.underline = false;
        } else if 30 <= code && code <= 37 {
            self.fg = palette_color(code - 30);
        } else if code == 39 {
            self.fg = DEFAULT_FG;
        } else if 40 <= code && code <= 47 {
            self.bg = palette_color(code - 40);
        } else if code == 49 {
            self.bg = DEFAULT_BG;
        } else if 90 <= code && code <= 97 {
            self.fg = palette_color(code - 90 + 8);
        } else if 100 <= code && code <= 107 {
            self.bg = palette_color(code - 100 + 8);
        }
    }

    /// Applies a list of rendition codes in order.
    pub fn apply_codes(&mut self, codes: &Vec<u16>)
        ensures
            *final(self) == old(self).sgr_all(codes@),
    {
        let mut i: usize = 0;
        assert(codes@.take(0) =~= Seq::<u16>::empty());
        while i < codes.len()
            invariant
                i <= codes.len(),
                *self == old(self).sgr_all(codes@.take(i as int)),
            decreases codes.len() - i,
        {
            self.apply_code(codes[i]);
            assert(codes@.take(i + 1).drop_last() =~= codes@.take(i as int));
            i = i + 1;
        }
        assert(codes@.take(i as int) =~= codes@);
    }
}

// ---------------------------------------------------------------------
// The screen as a mathematical value
// ---------------------------------------------------------------------

/// A row of `cols` blank cells.
pub open spec fn blank_row(cols: int) -> Seq<Cell> {
    Seq::new(cols as nat, |c: int| Cell::blank())
}

/// A grid of `rows` by `cols` blank cells.
pub open spec fn blank_cells(rows: int, cols: int) -> Seq<Seq<Cell>> {
    Seq::new(rows as nat, |r: int| blank_row(cols))
}

/// `value`, brought into the range from `low` to `high`.
pub open spec fn clamp(value: int, low: int, high: int) -> int {
    if value < low {
        low
    } else if value > high {
        high
    } else {
        value
    }
}

/// The first tab stop strictly to the right of column `col`.
pub open spec fn next_tab_stop(col: int) -> int {
    (col / (TAB_WIDTH as int) + 1) * (TAB_WIDTH as int)
}

/// Whether an erase in the cursor's line clears column `c`, the cursor
/// being in column `cursor`.
pub open spec fn line_erases(mode: EraseMode, c: int, cursor: int) -> bool {
    match mode {
        EraseMode::ToEnd => c >= cursor,
        EraseMode::ToStart => c <= cursor,
        EraseMode::All => true,
    }
}

/// Whether an erase in the display clears the cell at row `r` and column
/// `c`, the cursor being at `cursor_row` and `cursor_col`.
pub open spec fn display_erases(
    mode: EraseMode,
    r: int,
    c: int,
    cursor_row: int,
    cursor_col: int,
) -> bool {
    match mode {
        EraseMode::ToEnd => r > cursor_row || (r == cursor_row && c >= cursor_col),
        EraseMode::ToStart => r < cursor_row || (r == cursor_row && c <= cursor_col),
        EraseMode::All => true,
    }
}

/// The visible state of a terminal: its cells, its cursor and its pen.
pub struct Screen {
    pub rows: int,
    pub cols: int,
    /// The cells, row by row.
    pub cells: Seq<Seq<Cell>>,
    pub cursor_row: int,
    pub cursor_col: int,
    pub pen: Pen,
}

impl Screen {
    /// Index of the last row; zero where there is no row.
    pub open spec fn last_row(self) -> int {
        if self.rows == 0 {
            0
        } else {
            self.rows - 1
        }
    }

    /// Index of the last column; zero where there is no column.
    pub open spec fn last_col(self) -> int {
        if self.cols == 0 {
            0
        } else {
            self.cols - 1
        }
    }

    /// The grid has `rows` rows of `cols` cells each, and the cursor is
    /// inside it (at the origin where the grid is empty).
    pub open spec fn wf(self) -> bool {
        &&& 0 <= self.rows <= u16::MAX
        &&& 0 <= self.cols <= u16::MAX
        &&& self.cells.len() == self.rows
        &&& forall|r: int| 0 <= r < self.rows ==> (#[trigger] self.cells[r]).len() == self.cols
        &&& 0 <= self.cursor_row <= self.last_row()
        &&& 0 <= self.cursor_col <= self.last_col()
    }

    /// A blank screen with the cursor at the origin and the default pen.
    pub open spec fn new(rows: int, cols: int) -> Screen {
        Screen {
            rows: rows,
            cols: cols,
            cells: blank_cells(rows, cols),
            cursor_row: 0,
            cursor_col: 0,
            pen: Pen::plain(),
        }
    }

    /// The screen after a resize: a blank grid of the new size, the
    /// cursor at the origin, the pen kept.
    pub open spec fn resize(self, rows: int, cols: int) -> Screen {
        Screen {
            rows: rows,
            cols: cols,
            cells: blank_cells(rows, cols),
            cursor_row: 0,
            cursor_col: 0,
            pen: self.pen,
        }
    }

    /// The cells after scrolling up by one row: the top row is gone and
    /// a blank row has come in at the bottom.
    pub open spec fn scrolled(self) -> Seq<Seq<Cell>> {
        if self.rows == 0 {
            self.cells
        } else {
            self.cells.subrange(1, self.rows).push(blank_row(self.cols))
        }
    }

    /// Line feed: the cursor goes to the start of the next row; on the
    /// last row the grid scrolls up instead.
    pub open spec fn linefeed(self) -> Screen {
        if self.cursor_row < self.last_row() {
            Screen { cursor_row: self.cursor_row + 1, cursor_col: 0, ..self }
        } else {
            Screen { cells: self.scrolled(), cursor_col: 0, ..self }
        }
    }

    /// Carriage return: the cursor goes to column zero.
    pub open spec fn carriage_return(self) -> Screen {
        Screen { cursor_col: 0, ..self }
    }

    /// Backspace: the cursor goes one column left, and stays at column
    /// zero.
    pub open spec fn backspace(self) -> Screen {
        if self.cursor_col > 0 {
            Screen { cursor_col: self.cursor_col - 1, ..self }
        } else {
            self
        }
    }

    /// Tab: the cursor goes to the next tab stop, or to the last column
    /// where that stop lies beyond it.
    pub open spec fn tab(self) -> Screen {
        Screen { cursor_col: clamp(next_tab_stop(self.cursor_col), 0, self.last_col()), ..self }
    }

    /// Print: the cell under the cursor becomes `ch` in the pen's style
    /// and the cursor advances; from the last column it wraps with a
    /// line feed. Without a cell under the cursor nothing happens.
    pub open spec fn print(self, ch: char) -> Screen {
        if self.cursor_row < self.rows && self.cursor_col < self.cols {
            let written = Screen {
                cells: self.cells.update(
                    self.cursor_row,
                    self.cells[self.cursor_row].update(self.cursor_col, self.pen.stamp(ch)),
                ),
                ..self
            };
            if self.cursor_col + 1 < self.cols {
                Screen { cursor_col: self.cursor_col + 1, ..written }
            } else {
                written.linefeed()
            }
        } else {
            self
        }
    }

    /// Relative cursor movement, clamped to the grid.
    pub open spec fn cursor_move(self, dr: int, dc: int) -> Screen {
        Screen {
            cursor_row: clamp(self.cursor_row + dr, 0, self.last_row()),
            cursor_col: clamp(self.cursor_col + dc, 0, self.last_col()),
            ..self
        }
    }

    /// Absolute cursor placement at a zero-based position, clamped to
    /// the grid.
    pub open spec fn cursor_set(self, row: int, col: int) -> Screen {
        Screen {
            cursor_row: clamp(row, 0, self.last_row()),
            cursor_col: clamp(col, 0, self.last_col()),
            ..self
        }
    }

    /// Erase in line: the selected cells of the cursor's row become
    /// blank.
    pub open spec fn erase_in_line(self, mode: EraseMode) -> Screen {
        Screen {
            cells: Seq::new(
                self.cells.len(),
                |r: int|
                    Seq::new(
                        self.cells[r].len(),
                        |c: int|
                            if r == self.cursor_row && line_erases(mode, c, self.cursor_col) {
                                Cell::blank()
                            } else {
                                self.cells[r][c]
                            },
                    ),
            ),
            ..self
        }
    }

    /// Erase in display: the selected cells of the grid become blank.
    pub open spec fn erase_in_display(self, mode: EraseMode) -> Screen {
        Screen {
            cells: Seq::new(
                self.cells.len(),
                |r: int|
                    Seq::new(
                        self.cells[r].len(),
                        |c: int|
                            if display_erases(mode, r, c, self.cursor_row, self.cursor_col) {
                                Cell::blank()
                            } else {
                                self.cells[r][c]
                            },
                    ),
            ),
            ..self
        }
    }

    /// Select graphic rendition: the codes change the pen, in order.
    pub open spec fn set_rendition(self, codes: Seq<u16>) -> Screen {
        Screen { pen: self.pen.sgr_all(codes), ..self }
    }

    /// The screen after one operation.
    pub open spec fn apply(self, op: OpView) -> Screen {
        match op {
            OpView::Print(ch) => self.print(ch),
            OpView::LineFeed => self.linefeed(),
            OpView::CarriageReturn => self.carriage_return(),
            OpView::Backspace => self.backspace(),
            OpView::Tab => self.tab(),
            OpView::CursorMove(dr, dc) => self.cursor_move(dr, dc),
            OpView::CursorSet(row, col) => self.cursor_set(row, col),
            OpView::EraseInLine(mode) => self.erase_in_line(mode),
            OpView::EraseInDisplay(mode) => self.erase_in_display(mode),
            OpView::SetGraphicRendition(codes) => self.set_rendition(codes),
            OpView::ResizeAcknowledge => self,
            OpView::Unknown(_) => self,
        }
    }

    /// The screen after a list of operations, applied in order.
    pub open spec fn apply_all(self, ops: Seq<OpView>) -> Screen
        decreases ops.len(),
    {
        if ops.len() == 0 {
            self
        } else {
            self.apply_all(ops.drop_last()).apply(ops.last())
        }
    }
}

/// A terminal as a mathematical value: a screen and the parser that
/// feeds it.
pub struct TerminalModel {
    pub screen: Screen,
    pub parser: ParserModel,
}

impl TerminalModel {
    pub open spec fn wf(self) -> bool {
        self.screen.wf() && self.parser.wf()
    }

    /// A blank terminal with its parser at rest.
    pub open spec fn new(rows: int, cols: int) -> TerminalModel {
        TerminalModel { screen: Screen::new(rows, cols), parser: ParserModel::ground() }
    }

    /// The terminal after one byte of output: the parser reads the byte,
    /// and the screen applies the operation that it completes, if any.
    pub open spec fn step(self, b: u8) -> TerminalModel {
        let (parser, op) = self.parser.step(b);
        match op {
            Some(o) => TerminalModel { screen: self.screen.apply(o), parser: parser },
            None => TerminalModel { screen: self.screen, parser: parser },
        }
    }

    /// The terminal after a run of output bytes.
    pub open spec fn write(self, bytes: Seq<u8>) -> TerminalModel
        decreases bytes.len(),
    {
        if bytes.len() == 0 {
            self
        } else {
            self.write(bytes.drop_last()).step(bytes.last())
        }
    }

    /// The terminal after a resize; a sequence in progress stays
    /// pending.
    pub open spec fn resize(self, rows: int, cols: int) -> TerminalModel {
        TerminalModel { screen: self.screen.resize(rows, cols), parser: self.parser }
    }
}

// ---------------------------------------------------------------------
// The executable screen buffer
// ---------------------------------------------------------------------

/// The cells of a grid held as a vector of rows.
pub open spec fn grid_cells(grid: Seq<Vec<Cell>>) -> Seq<Seq<Cell>> {
    Seq::new(grid.len(), |r: int| grid[r]@)
}

/// A row of `cols` blank cells.
pub fn make_blank_row(cols: u16) -> (row: Vec<Cell>)
    ensures
        row@ == blank_row(cols as int),
{
    let mut row: Vec<Cell> = Vec::new();
    let mut c: u16 = 0;
    while c < cols
        invariant
            c <= cols,
            row@.len() == c,
            forall|k: int| 0 <= k < c ==> row@[k] == Cell::blank(),
        decreases cols - c,
    {
        row.push(Cell::default());
        c = c + 1;
    }
    assert(row@ =~= blank_row(cols as int));
    row
}

/// A grid of `rows` by `cols` blank cells.
pub fn make_blank_grid(rows: u16, cols: u16) -> (grid: Vec<Vec<Cell>>)
    ensures
        grid_cells(grid@) == blank_cells(rows as int, cols as int),
{
    let mut grid: Vec<Vec<Cell>> = Vec::new();
    let mut r: u16 = 0;
    while r < rows
        invariant
            r <= rows,
            grid@.len() == r,
            forall|k: int| 0 <= k < r ==> (#[trigger] grid@[k])@ == blank_row(cols as int),
        decreases rows - r,
    {
        grid.push(make_blank_row(cols));
        r = r + 1;
    }
    assert(grid_cells(grid@) =~= blank_cells(rows as int, cols as int));
    grid
}

/// A copy of what a terminal shows: every cell and the cursor.
#[derive(Debug, PartialEq, Eq)]
pub struct Snapshot {
    pub rows: u16,
    pub cols: u16,
    /// The cells, row by row.
    pub cells: Vec<Vec<Cell>>,
    pub cursor_row: u16,
    pub cursor_col: u16,
}

impl Snapshot {
    /// Whether the snapshot shows `screen`: the same size, the same
    /// cells, the same cursor.
    pub open spec fn shows(&self, screen: Screen) -> bool {
        &&& self.rows as int == screen.rows
        &&& self.cols as int == screen.cols
        &&& grid_cells(self.cells@) == screen.cells
        &&& self.cursor_row as int == screen.cursor_row
        &&& self.cursor_col as int == screen.cursor_col
    }
}

/// A terminal: the grid of cells with its cursor and pen, and the
/// parser that reads the output written to it.
#[derive(Debug)]
pub struct TerminalGrid {
    pub rows: u16,
    pub cols: u16,
    pub grid: Vec<Vec<Cell>>,
    pub cursor_row: u16,
    pub cursor_col: u16,
    pub pen: Pen,
    pub parser: Parser,
}

impl View for TerminalGrid {
    type V = TerminalModel;

    open spec fn view(&self) -> TerminalModel {
        TerminalModel { screen: self.screen(), parser: self.parser@ }
    }
}

impl TerminalGrid {
    /// The visible state of this terminal.
    pub open spec fn screen(&self) -> Screen {
        Screen {
            rows: self.rows as int,
            cols: self.cols as int,
            cells: grid_cells(self.grid@),
            cursor_row: self.cursor_row as int,
            cursor_col: self.cursor_col as int,
            pen: self.pen,
        }
    }

    /// The grid matches the declared size, the cursor is inside it, and
    /// the parser is within its bounds.
    pub open spec fn wf(&self) -> bool {
        self@.wf()
    }

    /// Whether the grid matches the declared size, the cursor is inside
    /// it, and the parser is within its bounds.
    pub fn is_well_formed(&self) -> (ok: bool)
        ensures
            ok == self.wf(),
    {
        if self.grid.len() != self.rows as usize {
            return false;
        }
        let mut r: usize = 0;
        while r < self.grid.len()
            invariant
                r <= self.grid@.len(),
                self.grid@.len() == self.rows,
                forall|k: int| 0 <= k < r ==> (#[trigger] self.grid@[k])@.len() == self.cols,
            decreases self.grid@.len() - r,
        {
            if self.grid[r].len() != self.cols as usize {
                assert(self.screen().cells[r as int] == self.grid@[r as int]@);
                return false;
            }
            r = r + 1;
        }
        assert forall|k: int| 0 <= k < self.rows implies (#[trigger] self.screen().cells[k]).len()
            == self.cols by {
            assert(self.screen().cells[k] == self.grid@[k]@);
        }
        self.cursor_row <= self.last_row() && self.cursor_col <= self.last_col()
            && self.parser.is_well_formed()
    }

    /// A blank terminal of `rows` by `cols` cells.
    pub fn new(rows: u16, cols: u16) -> (term: TerminalGrid)
        ensures
            term.wf(),
            term@ == TerminalModel::new(rows as int, cols as int),
    {
        let grid = make_blank_grid(rows, cols);
        TerminalGrid {
            rows,
            cols,
            grid,
            cursor_row: 0,
            cursor_col: 0,
            pen: Pen::new(),
            parser: Parser::new(),
        }
    }

    /// Gives the terminal a new size. The grid becomes blank and the
    /// cursor returns to the origin; the pen and a sequence in progress
    /// are kept.
    pub fn resize(&mut self, rows: u16, cols: u16)
        requires
            old(self).wf(),
        ensures
            final(self).wf(),
            final(self)@ == old(self)@.resize(rows as int, cols as int),
    {
        self.rows = rows;
        self.cols = cols;
        self.grid = make_blank_grid(rows, cols);
        self.cursor_row = 0;
        self.cursor_col = 0;
    }

    /// Index of the last row; zero where there is no row.
    pub fn last_row(&self) -> (r: u16)
        ensures
            r as int == self.screen().last_row(),
    {
        if self.rows == 0 {
            0
        } else {
            self.rows - 1
        }
    }

    /// Index of the last column; zero where there is no column.
    pub fn last_col(&self) -> (c: u16)
        ensures
            c as int == self.screen().last_col(),
    {
        if self.cols == 0 {
            0
        } else {
            self.cols - 1
        }
    }

    /// Carriage return.
    pub fn carriage_return(&mut self)
        requires
            old(self).wf(),
        ensures
            final(self).wf(),
            final(self).screen() == old(self).screen().carriage_return(),
            final(self).parser == old(self).parser,
    {
        self.cursor_col = 0;
    }

    /// Backspace.
    pub fn backspace(&mut self)
        requires
            old(self).wf(),
        ensures
            final(self).wf(),
            final(self).screen() == old(self).screen().backspace(),
            final(self).parser == old(self).parser,
    {
        if self.cursor_col > 0 {
            self.cursor_col -= 1;
        }
    }

    /// Tab.
    pub fn tab(&mut self)
        requires
            old(self).wf(),
        ensures
            final(self).wf(),
            final(self).screen() == old(self).screen().tab(),
            final(self).parser == old(self).parser,
    {
        let stop: u32 = (self.cursor_col as u32 / TAB_WIDTH as u32 + 1) * TAB_WIDTH as u32;
        let last = self.last_col();
        if stop > last as u32 {
            self.cursor_col = last;
        } else {
            self.cursor_col = stop as u16;
        }
    }

    /// Moves the cursor by `dr` rows and `dc` columns, clamped to the
    /// grid.
    pub fn cursor_move(&mut self, dr: i32, dc: i32)
        requires
            old(self).wf(),
        ensures
            final(self).wf(),
            final(self).screen() == old(self).screen().cursor_move(dr as int, dc as int),
            final(self).parser == old(self).parser,
    {
        let last_row = self.last_row();
        let last_col = self.last_col();
        let row: i64 = self.cursor_row as i64 + dr as i64;
        let col: i64 = self.cursor_col as i64 + dc as i64;
        if row < 0 {
            self.cursor_row = 0;
        } else if row > last_row as i64 {
            self.cursor_row = last_row;
        } else {
            self.cursor_row = row as u16;
        }
        if col < 0 {
            self.cursor_col = 0;
        } else if col > last_col as i64 {
            self.cursor_col = last_col;
        } else {
            self.cursor_col = col as u16;
        }
    }

    /// Places the cursor at a zero-based position, clamped to the grid.
    pub fn cursor_set(&mut self, row: u16, col: u16)
        requires
            old(self).wf(),
        ensures
            final(self).wf(),
            final(self).screen() == old(self).screen().cursor_set(row as int, col as int),
            final(self).parser == old(self).parser,
    {
        let last_row = self.last_row();
        let last_col = self.last_col();
        self.cursor_row = if row > last_row { last_row } else { row };
        self.cursor_col = if col > last_col { last_col } else { col };
    }

    /// In a well-formed terminal every row of the grid has `cols` cells.
    pub proof fn lemma_grid_shape(&self)
        requires
            self.wf(),
        ensures
            self.grid@.len() == self.rows,
            forall|r: int| 0 <= r < self.rows ==> (#[trigger] self.grid@[r])@.len() == self.cols,
    {
        assert forall|r: int| 0 <= r < self.rows implies (#[trigger] self.grid@[r])@.len()
            == self.cols by {
            assert(self.screen().cells[r] == self.grid@[r]@);
        }
    }

    /// Scrolls the grid up by one row: the top row is discarded and a
    /// blank row comes in at the bottom.
    pub fn scroll_up(&mut self)
        requires
            old(self).wf(),
        ensures
            final(self).wf(),
            final(self).screen() == (Screen {
                cells: old(self).screen().scrolled(),
                ..old(self).screen()
            }),
            final(self).parser == old(self).parser,
    {
        if self.rows > 0 {
            let row = make_blank_row(self.cols);
            self.grid.remove(0);
            self.grid.push(row);
            assert(grid_cells(self.grid@) =~= old(self).screen().scrolled());
        }
    }

    /// Line feed.
    pub fn linefeed(&mut self)
        requires
            old(self).wf(),
        ensures
            final(self).wf(),
            final(self).screen() == old(self).screen().linefeed(),
            final(self).parser == old(self).parser,
    {
        if self.cursor_row < self.last_row() {
            self.cursor_row += 1;
        } else {
            self.scroll_up();
        }
        self.cursor_col = 0;
    }

    /// Prints `ch` at the cursor in the pen's style.
    pub fn print_char(&mut self, ch: char)
        requires
            old(self).wf(),
        ensures
            final(self).wf(),
            final(self).screen() == old(self).screen().print(ch),
            final(self).parser == old(self).parser,
    {
        if self.cursor_row < self.rows && self.cursor_col < self.cols {
            let row = self.cursor_row as usize;
            let col = self.cursor_col as usize;
            let cell = self.pen.draw(ch);
            self.grid[row][col] = cell;
            assert(grid_cells(self.grid@) =~= old(self).screen().cells.update(
                row as int,
                old(self).screen().cells[row as int].update(col as int, cell),
            ));
            if self.cursor_col + 1 < self.cols {
                self.cursor_col += 1;
            } else {
                self.linefeed();
            }
        }
    }

    /// Erases cells of the cursor's row.
    pub fn erase_in_line(&mut self, mode: EraseMode)
        requires
            old(self).wf(),
        ensures
            final(self).wf(),
            final(self).screen() == old(self).screen().erase_in_line(mode),
            final(self).parser == old(self).parser,
    {
        proof {
            self.lemma_grid_shape();
        }
        if self.cursor_row < self.rows {
            let row = self.cursor_row as usize;
            let cursor = self.cursor_col;
            let mut c: u16 = 0;
            while c < self.cols
                invariant
                    c <= self.cols,
                    self.rows == old(self).rows,
                    self.cols == old(self).cols,
                    self.cursor_row == old(self).cursor_row,
                    self.cursor_col == old(self).cursor_col,
                    self.pen == old(self).pen,
                    self.parser == old(self).parser,
                    old(self).wf(),
                    row == self.cursor_row,
                    row < self.rows,
                    cursor == self.cursor_col,
                    self.grid@.len() == self.rows,
                    forall|r: int| 0 <= r < self.rows ==> (#[trigger] self.grid@[r])@.len() == self.cols,
                    forall|r: int| 0 <= r < self.rows && r != row ==> (#[trigger] self.grid@[r])@ == old(self).grid@[r]@,
                    forall|k: int| 0 <= k < c ==> (#[trigger] self.grid@[row as int]@[k]) == (if line_erases(mode, k, cursor as int) {
                        Cell::blank()
                    } else {
                        old(self).grid@[row as int]@[k]
                    }),
                    forall|k: int| c <= k < self.cols ==> (#[trigger] self.grid@[row as int]@[k]) == old(self).grid@[row as int]@[k],
                decreases self.cols - c,
            {
                let hit = match mode {
                    EraseMode::ToEnd => c >= cursor,
                    EraseMode::ToStart => c <= cursor,
                    EraseMode::All => true,
                };
                if hit {
                    self.grid[row][c as usize] = Cell::default();
                }
                c = c + 1;
            }
            assert(self.screen().cells =~~= old(self).screen().erase_in_line(mode).cells);
        } else {
            assert(self.screen().cells =~~= old(self).screen().erase_in_line(mode).cells);
        }
    }

    /// Erases cells of the whole grid.
    pub fn erase_in_display(&mut self, mode: EraseMode)
        requires
            old(self).wf(),
        ensures
            final(self).wf(),
            final(self).screen() == old(self).screen().erase_in_display(mode),
            final(self).parser == old(self).parser,
    {
        proof {
            self.lemma_grid_shape();
        }
        let cursor_row = self.cursor_row;
        let cursor_col = self.cursor_col;
        let mut r: u16 = 0;
        while r < self.rows
            invariant
                r <= self.rows,
                self.rows == old(self).rows,
                self.cols == old(self).cols,
                self.cursor_row == old(self).cursor_row,
                self.cursor_col == old(self).cursor_col,
                self.pen == old(self).pen,
                self.parser == old(self).parser,
                old(self).wf(),
                cursor_row == self.cursor_row,
                cursor_col == self.cursor_col,
                self.grid@.len() == self.rows,
                forall|i: int| 0 <= i < self.rows ==> (#[trigger] self.grid@[i])@.len() == self.cols,
                forall|i: int| r <= i < self.rows ==> (#[trigger] self.grid@[i])@ == old(self).grid@[i]@,
                forall|i: int, k: int| 0 <= i < r && 0 <= k < self.cols ==> (#[trigger] self.grid@[i]@[k]) == (if display_erases(mode, i, k, cursor_row as int, cursor_col as int) {
                    Cell::blank()
                } else {
                    old(self).grid@[i]@[k]
                }),
            decreases self.rows - r,
        {
            let mut c: u16 = 0;
            while c < self.cols
                invariant
                    c <= self.cols,
                    r < self.rows,
                    self.rows == old(self).rows,
                    self.cols == old(self).cols,
                    self.cursor_row == old(self).cursor_row,
                    self.cursor_col == old(self).cursor_col,
                    self.pen == old(self).pen,
                    self.parser == old(self).parser,
                    old(self).wf(),
                    cursor_row == self.cursor_row,
                    cursor_col == self.cursor_col,
                    self.grid@.len() == self.rows,
                    forall|i: int| 0 <= i < self.rows ==> (#[trigger] self.grid@[i])@.len() == self.cols,
                    forall|i: int| r < i < self.rows ==> (#[trigger] self.grid@[i])@ == old(self).grid@[i]@,
                    forall|i: int, k: int| 0 <= i < r && 0 <= k < self.cols ==> (#[trigger] self.grid@[i]@[k]) == (if display_erases(mode, i, k, cursor_row as int, cursor_col as int) {
                        Cell::blank()
                    } else {
                        old(self).grid@[i]@[k]
                    }),
                    forall|k: int| 0 <= k < c ==> (#[trigger] self.grid@[r as int]@[k]) == (if display_erases(mode, r as int, k, cursor_row as int, cursor_col as int) {
                        Cell::blank()
                    } else {
                        old(self).grid@[r as int]@[k]
                    }),
                    forall|k: int| c <= k < self.cols ==> (#[trigger] self.grid@[r as int]@[k]) == old(self).grid@[r as int]@[k],
                decreases self.cols - c,
            {
                let hit = match mode {
                    EraseMode::ToEnd => r > cursor_row || (r == cursor_row && c >= cursor_col),
                    EraseMode::ToStart => r < cursor_row || (r == cursor_row && c <= cursor_col),
                    EraseMode::All => true,
                };
                if hit {
                    self.grid[r as usize][c as usize] = Cell::default();
                }
                c = c + 1;
            }
            r = r + 1;
        }
        assert(self.screen().cells =~~= old(self).screen().erase_in_display(mode).cells);
    }

    /// Changes the pen by a list of rendition codes.
    pub fn set_rendition(&mut self, codes: &Vec<u16>)
        requires
            old(self).wf(),
        ensures
            final(self).wf(),
            final(self).screen() == old(self).screen().set_rendition(codes@),
            final(self).parser == old(self).parser,
    {
        self.pen.apply_codes(codes);
    }

    /// Applies one operation. No operation fails: what points outside
    /// the grid is clamped to it or ignored.
    pub fn apply(&mut self, op: &Op)
        requires
            old(self).wf(),
        ensures
            final(self).wf(),
            final(self).screen() == old(self).screen().apply(op@),
            final(self).parser == old(self).parser,
    {
        match op {
            Op::Print(ch) => self.print_char(*ch),
            Op::LineFeed => self.linefeed(),
            Op::CarriageReturn => self.carriage_return(),
            Op::Backspace => self.backspace(),
            Op::Tab => self.tab(),
            Op::CursorMove(dr, dc) => self.cursor_move(*dr, *dc),
            Op::CursorSet(row, col) => self.cursor_set(*row, *col),
            Op::EraseInLine(mode) => self.erase_in_line(*mode),
            Op::EraseInDisplay(mode) => self.erase_in_display(*mode),
            Op::SetGraphicRendition(codes) => self.set_rendition(codes),
            Op::ResizeAcknowledge => {},
            Op::Unknown(_) => {},
        }
    }

    /// A copy of what the terminal shows.
    pub fn snapshot(&self) -> (snap: Snapshot)
        requires
            self.wf(),
        ensures
            snap.shows(self.screen()),
    {
        proof {
            self.lemma_grid_shape();
        }
        let mut cells: Vec<Vec<Cell>> = Vec::new();
        let mut r: usize = 0;
        while r < self.grid.len()
            invariant
                r <= self.grid@.len(),
                cells@.len() == r,
                forall|i: int| 0 <= i < r ==> (#[trigger] cells@[i])@ == self.grid@[i]@,
            decreases self.grid@.len() - r,
        {
            let mut row: Vec<Cell> = Vec::new();
            let mut c: usize = 0;
            while c < self.grid[r].len()
                invariant
                    r < self.grid@.len(),
                    c <= self.grid@[r as int]@.len(),
                    row@.len() == c,
                    forall|k: int| 0 <= k < c ==> row@[k] == self.grid@[r as int]@[k],
                decreases self.grid@[r as int]@.len() - c,
            {
                row.push(self.grid[r][c]);
                c = c + 1;
            }
            assert(row@ =~= self.grid@[r as int]@);
            cells.push(row);
            r = r + 1;
        }
        assert(grid_cells(cells@) =~= grid_cells(self.grid@));
        Snapshot {
            rows: self.rows,
            cols: self.cols,
            cells,
            cursor_row: self.cursor_row,
            cursor_col: self.cursor_col,
        }
    }

    /// Begins an escape sequence, as the escape byte does.
    pub fn escape_sequence(&mut self)
        requires
            old(self).wf(),
        ensures
            final(self).wf(),
            final(self)@ == old(self)@.step(0x1B),
    {
        self.write_byte(0x1B);
    }

    /// Writes one byte of output to the terminal.
    pub fn write_byte(&mut self, byte: u8)
        requires
            old(self).wf(),
        ensures
            final(self).wf(),
            final(self)@ == old(self)@.step(byte),
    {
        let op = self.parser.advance(byte);
        match op {
            Some(o) => self.apply(&o),
            None => {},
        }
    }

    /// Writes a chunk of output to the terminal: text, control
    /// characters and escape sequences, in any mixture. A sequence cut
    /// off by the end of the chunk is completed by the next one.
    pub fn write(&mut self, data: &[u8])
        requires
            old(self).wf(),
        ensures
            final(self).wf(),
            final(self)@ == old(self)@.write(data@),
    {
        let mut i: usize = 0;
        assert(data@.take(0) =~= Seq::<u8>::empty());
        while i < data.len()
            invariant
                i <= data.len(),
                self.wf(),
                self@ == old(self)@.write(data@.take(i as int)),
            decreases data.len() - i,
        {
            self.write_byte(data[i]);
            assert(data@.take(i + 1).drop_last() =~= data@.take(i as int));
            i = i + 1;
        }
        assert(data@.take(i as int) =~= data@);
    }
}

} // verus!
