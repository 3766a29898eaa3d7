//! Console buffer implementation.

use vstd::prelude::*;

use crate::color::{Color, NamedColor};
use crate::decimal::{decimal, push_decimal};
use crate::escape::{fg_seq, goto_seq, push_fg, push_goto};

verus! {

/// Zero-indexed cursor position.
#[derive(Debug, Clone, Copy, PartialEq, Eq, Structural)]
pub struct CursorPos {
    /// The x-coordinate.
    pub col: u16,
    /// The y-coordinate.
    pub row: u16,
}

impl CursorPos {
    /// Note that this is col, row (x, y).
    pub fn at(col: u16, row: u16) -> (r: CursorPos)
        ensures
            r == (CursorPos { col, row }),
    {
        CursorPos { col, row }
    }
}

/// One character cell of the display.
#[derive(Debug, Clone, Copy, PartialEq, Eq, Structural)]
pub struct Cell {
    pub c: char,
    pub bg: Color,
    pub fg: Color,
}

/// The cell that fills erased and newly exposed parts of the grid.
pub open spec fn blank_cell() -> Cell {
    Cell {
        c: ' ',
        bg: Color::Named(NamedColor::Background),
        fg: Color::Named(NamedColor::Foreground),
    }
}

/// A row of `width` blank cells.
pub open spec fn blank_row(width: int) -> Seq<Cell> {
    Seq::new(width as nat, |i: int| blank_cell())
}

impl Cell {
    /// The blank cell.
    pub fn default() -> (r: Cell)
        ensures
            r == blank_cell(),
    {
        Cell {
            c: ' ',
            bg: Color::Named(NamedColor::Background),
            fg: Color::Named(NamedColor::Foreground),
        }
    }
}

/// One line of a grid buffer.
pub struct Row<C: Clone + Copy> {
    buf: Vec<C>,
}

impl<C: Clone + Copy> View for Row<C> {
    type V = Seq<C>;

    closed spec fn view(&self) -> Seq<C> {
        self.buf@
    }
}

impl<C: Clone + Copy> Row<C> {
    /// A row of `cols` copies of `fill`.
    pub fn new(cols: u16, fill: C) -> (r: Row<C>)
        ensures
            r@ == Seq::new(cols as nat, |i: int| fill),
    {
        let mut buf: Vec<C> = Vec::new();
        let mut i: u16 = 0;
        while i < cols
            invariant
                i <= cols,
                buf@ == Seq::new(i as nat, |j: int| fill),
            decreases cols - i,
        {
            buf.push(fill);
            i = i + 1;
            assert(buf@ =~= Seq::new(i as nat, |j: int| fill));
        }
        Row { buf }
    }
}

/// A rectangle of cells, stored row by row.
pub struct GridBuffer<C: Clone + Copy> {
    rows: Vec<Row<C>>,
}

impl<C: Clone + Copy> View for GridBuffer<C> {
    type V = Seq<Seq<C>>;

    closed spec fn view(&self) -> Seq<Seq<C>> {
        self.rows@.map_values(|r: Row<C>| r@)
    }
}

impl<C: Clone + Copy> GridBuffer<C> {
    /// `rows` rows of `cols` copies of `fill`.
    pub fn new(cols: u16, rows: u16, fill: C) -> (r: GridBuffer<C>)
        ensures
            r@ == Seq::new(rows as nat, |i: int| Seq::new(cols as nat, |j: int| fill)),
    {
        let mut v: Vec<Row<C>> = Vec::new();
        let mut i: u16 = 0;
        while i < rows
            invariant
                i <= rows,
                v@.map_values(|r: Row<C>| r@) == Seq::new(
                    i as nat,
                    |k: int| Seq::new(cols as nat, |j: int| fill),
                ),
            decreases rows - i,
        {
            let row = Row::new(cols, fill);
            let ghost before = v@;
            v.push(row);
            assert(v@ == before.push(row));
            assert(v@.map_values(|r: Row<C>| r@) =~= before.map_values(|r: Row<C>| r@).push(row@));
            i = i + 1;
            assert(v@.map_values(|r: Row<C>| r@) =~= Seq::new(
                i as nat,
                |k: int| Seq::new(cols as nat, |j: int| fill),
            ));
        }
        GridBuffer { rows: v }
    }
}

/// What a grid holds, as mathematical values.
pub struct GridModel {
    pub width: int,
    pub height: int,
    pub cursor: CursorPos,
    pub saved_cursor: CursorPos,
    /// First row of the scrolling region.
    pub top: int,
    /// One past the last row of the scrolling region.
    pub bottom: int,
    /// `cells[row][col]`.
    pub cells: Seq<Seq<Cell>>,
    /// Rows that must be redrawn.
    pub dirty: Set<int>,
    /// Colours given to the glyphs printed next.
    pub template: Cell,
}

impl GridModel {
    /// A new grid: blank, cursor home, the region the whole screen, every
    /// row marked.
    pub open spec fn blank(width: int, height: int) -> GridModel {
        GridModel {
            width,
            height,
            cursor: CursorPos { col: 0, row: 0 },
            saved_cursor: CursorPos { col: 0, row: 0 },
            top: 0,
            bottom: height,
            cells: Seq::new(height as nat, |r: int| blank_row(width)),
            dirty: Set::new(|r: int| 0 <= r < height),
            template: blank_cell(),
        }
    }

    /// The shape and bounds that every grid keeps.
    pub open spec fn wf(self) -> bool {
        &&& 1 <= self.width <= u16::MAX
        &&& 1 <= self.height <= u16::MAX
        &&& self.cells.len() == self.height
        &&& forall|r: int| 0 <= r < self.height ==> #[trigger] self.cells[r].len() == self.width
        &&& self.cursor.col < self.width
        &&& self.cursor.row <= self.height
        &&& self.saved_cursor.col < self.width
        &&& self.saved_cursor.row <= self.height
        &&& 0 <= self.top < self.bottom <= self.height
        &&& forall|r: int| #[trigger] self.dirty.contains(r) ==> 0 <= r < self.height
    }

    pub open spec fn with_cursor(self, col: int, row: int) -> GridModel {
        GridModel { cursor: CursorPos { col: col as u16, row: row as u16 }, ..self }
    }

    pub open spec fn with_col(self, col: int) -> GridModel {
        self.with_cursor(col, self.cursor.row as int)
    }

    pub open spec fn with_row(self, row: int) -> GridModel {
        self.with_cursor(self.cursor.col as int, row)
    }

    /// Replaces row `r` and marks it dirty.
    pub open spec fn with_line(self, r: int, line: Seq<Cell>) -> GridModel {
        GridModel { cells: self.cells.update(r, line), dirty: self.dirty.insert(r), ..self }
    }

    /// Writes one cell and marks its row dirty.
    pub open spec fn with_cell(self, r: int, c: int, v: Cell) -> GridModel {
        self.with_line(r, self.cells[r].update(c, v))
    }

    /// Row `r` after moving the text of rows `[start, end)` up by `n`.
    pub open spec fn scrolled_up_line(self, end: int, n: int, r: int) -> Seq<Cell> {
        if r + n < end {
            self.cells[r + n]
        } else {
            blank_row(self.width)
        }
    }

    /// Row `r` after moving the text of rows `[start, end)` down by `n`.
    pub open spec fn scrolled_down_line(self, start: int, n: int, r: int) -> Seq<Cell> {
        if r >= start + n {
            self.cells[r - n]
        } else {
            blank_row(self.width)
        }
    }

    /// Moves the text of rows `[start, end)` up by `n` rows; rows that
    /// nothing moves into become blank. Every row of the range is marked.
    pub open spec fn scroll_up_region(self, start: int, end: int, n: int) -> GridModel {
        if n < 1 {
            self
        } else {
            GridModel {
                cells: Seq::new(
                    self.height as nat,
                    |r: int|
                        if start <= r < end {
                            self.scrolled_up_line(end, n, r)
                        } else {
                            self.cells[r]
                        },
                ),
                dirty: self.dirty.union(Set::new(|r: int| start <= r < end)),
                ..self
            }
        }
    }

    /// Moves the text of rows `[start, end)` down by `n` rows.
    pub open spec fn scroll_down_region(self, start: int, end: int, n: int) -> GridModel {
        if n < 1 {
            self
        } else {
            GridModel {
                cells: Seq::new(
                    self.height as nat,
                    |r: int|
                        if start <= r < end {
                            self.scrolled_down_line(start, n, r)
                        } else {
                            self.cells[r]
                        },
                ),
                dirty: self.dirty.union(Set::new(|r: int| start <= r < end)),
                ..self
            }
        }
    }
}


/// How far a cursor motion goes.
pub enum Displace {
    Absolute(usize),
    Relative(i64),
    ToStart,
    ToTabStop,
}

/// Which part of the cursor's line an erase covers.
#[derive(Debug, Clone, Copy, PartialEq, Eq, Structural)]
pub enum LineClearMode {
    /// From the cursor to the end of the line.
    Right,
    /// From the start of the line up to the cursor.
    Left,
    /// The whole line.
    All,
}

/// Which part of the screen an erase covers.
#[derive(Debug, Clone, Copy, PartialEq, Eq, Structural)]
pub enum ClearMode {
    /// From the cursor to the end of the screen.
    Below,
    /// From the start of the screen up to the cursor.
    Above,
    /// The whole screen.
    All,
    /// The saved lines; there is no scrollback, so the whole screen.
    Saved,
}

/// A character attribute set by SGR.
#[derive(Debug, Clone, Copy, PartialEq, Eq, Structural)]
pub enum Attr {
    /// Back to the default colours.
    Reset,
    Foreground(Color),
    Background(Color),
    /// Bold, underline, blink and the like, which this grid does not render.
    Unrendered,
}

/// `v` pinned into `[0, hi]`.
pub open spec fn clamp(v: int, hi: int) -> int {
    if v < 0 {
        0
    } else if v > hi {
        hi
    } else {
        v
    }
}

/// The first tab stop (every eighth column) after `col`.
pub open spec fn next_tab_stop(col: int) -> int {
    col - col % 8 + 8
}

/// Where `n` tab moves take a cursor from `col` on a line whose last
/// column is `hi`.
pub open spec fn tabbed(col: int, n: int, hi: int) -> int
    decreases n,
{
    if n <= 0 {
        col
    } else {
        tabbed(clamp(next_tab_stop(col), hi), n - 1, hi)
    }
}

/// Whether an erase of the line in `mode` covers column `c`, the cursor
/// being at column `col`.
pub open spec fn line_clears(mode: LineClearMode, col: int, c: int) -> bool {
    match mode {
        LineClearMode::All => true,
        LineClearMode::Left => c < col,
        LineClearMode::Right => c >= col,
    }
}

/// Whether an erase of the screen in `mode` covers the cell `(c, r)`, the
/// cursor being at `cur`.
pub open spec fn screen_clears(mode: ClearMode, cur: CursorPos, r: int, c: int) -> bool {
    let before = r < cur.row || (r == cur.row && c < cur.col);
    match mode {
        ClearMode::All | ClearMode::Saved => true,
        ClearMode::Above => before,
        ClearMode::Below => !before,
    }
}

/// Whether an erase of the screen in `mode` covers some cell of row `r`
/// (of a line of at least `cur.col + 1` cells).
pub open spec fn screen_clears_row(mode: ClearMode, cur: CursorPos, r: int) -> bool {
    match mode {
        ClearMode::All | ClearMode::Saved => true,
        ClearMode::Above => r < cur.row || (r == cur.row && cur.col > 0),
        ClearMode::Below => r >= cur.row,
    }
}

/// The bytes of a reply to a device status report request.
pub open spec fn status_reply(cursor: CursorPos, param: int) -> Seq<u8> {
    if param == 5 {
        seq![0x1bu8, 0x5bu8, 0x30u8, 0x6eu8]
    } else if param == 6 {
        seq![0x1bu8, 0x5bu8] + decimal((cursor.row + 1) as nat) + seq![0x3bu8] + decimal(
            (cursor.col + 1) as nat,
        ) + seq![0x52u8]
    } else {
        Seq::empty()
    }
}

/// Rows that a change from `a` to `b` leaves marked: those marked before,
/// and every row whose cells differ.
pub open spec fn marks_changes(a: GridModel, b: GridModel) -> bool {
    &&& a.dirty.subset_of(b.dirty)
    &&& forall|r: int|
        0 <= r < a.height && 0 <= r < b.height && #[trigger] b.cells[r] != a.cells[r]
            ==> b.dirty.contains(r)
}

impl GridModel {
    pub open spec fn horizontal_target(self, d: Displace) -> int {
        match d {
            Displace::Absolute(n) => clamp(n as int, self.width - 1),
            Displace::Relative(o) => clamp(self.cursor.col + o, self.width - 1),
            Displace::ToStart => 0,
            Displace::ToTabStop => clamp(next_tab_stop(self.cursor.col as int), self.width - 1),
        }
    }

    /// Vertical motion never scrolls; there are no vertical tab stops.
    pub open spec fn vertical_target(self, d: Displace) -> int {
        match d {
            Displace::Absolute(n) => clamp(n as int, self.height - 1),
            Displace::Relative(o) => clamp(self.cursor.row + o, self.height - 1),
            Displace::ToStart => 0,
            Displace::ToTabStop => self.cursor.row as int,
        }
    }

    pub open spec fn goto(self, row: int, col: int) -> GridModel {
        self.with_cursor(clamp(col, self.width - 1), clamp(row, self.height - 1))
    }

    pub open spec fn move_rows(self, delta: int) -> GridModel {
        self.with_row(clamp(self.cursor.row + delta, self.height - 1))
    }

    pub open spec fn move_cols(self, delta: int) -> GridModel {
        self.with_col(clamp(self.cursor.col + delta, self.width - 1))
    }

    pub open spec fn tab(self, count: int) -> GridModel {
        self.with_col(tabbed(self.cursor.col as int, count, self.width - 1))
    }

    /// Prints `c` at the cursor with the template's colours and advances.
    /// A cursor left at the start of the row below the scrolling region
    /// (a pending wrap) first scrolls the region up; one left below the
    /// last row first returns to the last row.
    pub open spec fn input(self, c: char) -> GridModel {
        let s = if self.cursor.col == 0 && self.cursor.row == self.bottom {
            self.scroll_up_region(self.top, self.bottom, 1).with_row(self.bottom - 1)
        } else if self.cursor.row == self.height {
            self.with_row(self.height - 1)
        } else {
            self
        };
        let t = s.with_cell(
            s.cursor.row as int,
            s.cursor.col as int,
            Cell { c, fg: s.template.fg, bg: s.template.bg },
        );
        if t.cursor.col + 1 == t.width {
            t.with_cursor(0, t.cursor.row + 1)
        } else {
            t.with_col(t.cursor.col + 1)
        }
    }

    pub open spec fn linefeed(self) -> GridModel {
        if self.cursor.row + 1 == self.bottom {
            self.scroll_up_region(self.top, self.bottom, 1)
        } else if self.cursor.row + 1 < self.height {
            self.with_row(self.cursor.row + 1)
        } else {
            self
        }
    }

    pub open spec fn reverse_index(self) -> GridModel {
        if self.cursor.row == self.top {
            self.scroll_down_region(self.top, self.bottom, 1)
        } else if self.cursor.row > 0 {
            self.with_row(self.cursor.row - 1)
        } else {
            self
        }
    }

    pub open spec fn insert_blank_lines(self, n: int) -> GridModel {
        if self.top <= self.cursor.row < self.bottom {
            self.scroll_down_region(self.cursor.row as int, self.bottom, n)
        } else {
            self
        }
    }

    pub open spec fn delete_lines(self, n: int) -> GridModel {
        if self.top <= self.cursor.row < self.bottom {
            self.scroll_up_region(self.cursor.row as int, self.bottom, n)
        } else {
            self
        }
    }

    /// The cursor's line with every cell for which `f` holds blanked.
    pub open spec fn line_erased(self, f: spec_fn(int) -> bool) -> Seq<Cell> {
        let line = self.cells[self.cursor.row as int];
        Seq::new(self.width as nat, |c: int| if f(c) { blank_cell() } else { line[c] })
    }

    pub open spec fn erase_chars(self, n: int) -> GridModel {
        let col = self.cursor.col as int;
        if self.cursor.row < self.height && n > 0 {
            self.with_line(self.cursor.row as int, self.line_erased(|c: int| col <= c < col + n))
        } else {
            self
        }
    }

    pub open spec fn delete_chars(self, n: int) -> GridModel {
        let col = self.cursor.col as int;
        let line = self.cells[self.cursor.row as int];
        if self.cursor.row < self.height {
            self.with_line(
                self.cursor.row as int,
                Seq::new(
                    self.width as nat,
                    |c: int|
                        if c < col {
                            line[c]
                        } else if c + n < self.width {
                            line[c + n]
                        } else {
                            blank_cell()
                        },
                ),
            )
        } else {
            self
        }
    }

    pub open spec fn insert_blank(self, n: int) -> GridModel {
        let col = self.cursor.col as int;
        let line = self.cells[self.cursor.row as int];
        if self.cursor.row < self.height && n >= 1 {
            self.with_line(
                self.cursor.row as int,
                Seq::new(
                    self.width as nat,
                    |c: int|
                        if c < col {
                            line[c]
                        } else if c >= col + n {
                            line[c - n]
                        } else {
                            blank_cell()
                        },
                ),
            )
        } else {
            self
        }
    }

    pub open spec fn clear_line(self, mode: LineClearMode) -> GridModel {
        let col = self.cursor.col as int;
        if self.cursor.row < self.height {
            self.with_line(
                self.cursor.row as int,
                self.line_erased(|c: int| line_clears(mode, col, c)),
            )
        } else {
            self
        }
    }

    pub open spec fn clear_screen(self, mode: ClearMode) -> GridModel {
        GridModel {
            cells: Seq::new(
                self.height as nat,
                |r: int|
                    Seq::new(
                        self.width as nat,
                        |c: int|
                            if screen_clears(mode, self.cursor, r, c) {
                                blank_cell()
                            } else {
                                self.cells[r][c]
                            },
                    ),
            ),
            dirty: self.dirty.union(
                Set::new(|r: int| 0 <= r < self.height && screen_clears_row(mode, self.cursor, r)),
            ),
            ..self
        }
    }

    pub open spec fn save_cursor(self) -> GridModel {
        GridModel { saved_cursor: self.cursor, ..self }
    }

    pub open spec fn restore_cursor(self) -> GridModel {
        GridModel { cursor: self.saved_cursor, ..self }
    }

    pub open spec fn terminal_attribute(self, attr: Attr) -> GridModel {
        match attr {
            Attr::Reset => GridModel { template: blank_cell(), ..self },
            Attr::Foreground(c) => GridModel { template: Cell { fg: c, ..self.template }, ..self },
            Attr::Background(c) => GridModel { template: Cell { bg: c, ..self.template }, ..self },
            Attr::Unrendered => self,
        }
    }

    /// `top` and `bottom` are one-based and inclusive; a range that ends
    /// before it starts is ignored.
    pub open spec fn set_scrolling_region(self, top: int, bottom: Option<usize>) -> GridModel {
        let t = if top == 0 {
            0
        } else {
            top - 1
        };
        let b = match bottom {
            Some(b) => if b < self.height {
                b as int
            } else {
                self.height
            },
            None => self.height,
        };
        if t < b {
            GridModel { top: t, bottom: b, ..self }.with_cursor(0, 0)
        } else {
            self
        }
    }

    pub open spec fn mark_all_dirty(self) -> GridModel {
        GridModel { dirty: Set::new(|r: int| 0 <= r < self.height), ..self }
    }

    /// First step of a resize to `h` rows: when the grid loses rows, the
    /// text scrolls up so that the cursor's line (and the lines above it)
    /// stay on screen, and the region and saved cursor are pulled in.
    pub open spec fn shrink_rows(self, h: int) -> GridModel {
        if h < self.height {
            let row = self.cursor.row as int;
            let occ = if self.cursor.col == 0 {
                row
            } else if row < self.height {
                row + 1
            } else {
                row
            };
            let s = if occ > h {
                self.scroll_up_region(0, occ, occ - h).with_row(row - (occ - h))
            } else {
                self
            };
            let b = if s.bottom < h {
                s.bottom
            } else {
                h
            };
            GridModel {
                top: if s.top < b {
                    s.top
                } else {
                    0
                },
                bottom: if s.top < b {
                    b
                } else {
                    h
                },
                saved_cursor: CursorPos {
                    col: s.saved_cursor.col,
                    row: if s.saved_cursor.row < h {
                        s.saved_cursor.row
                    } else {
                        (h - 1) as u16
                    },
                },
                ..s
            }
        } else {
            self
        }
    }

    /// The grid resized to `w` columns and `h` rows. Cells keep their
    /// position (after the scroll of `shrink_rows`); new cells are blank;
    /// a region that covered the whole screen keeps doing so; every row
    /// is marked.
    pub open spec fn resize(self, w: int, h: int) -> GridModel {
        let s = self.shrink_rows(h);
        GridModel {
            width: w,
            height: h,
            bottom: if self.height < h && s.bottom == self.height {
                h
            } else {
                s.bottom
            },
            cursor: CursorPos {
                col: if s.cursor.col < w {
                    s.cursor.col
                } else {
                    (w - 1) as u16
                },
                row: s.cursor.row,
            },
            saved_cursor: CursorPos {
                col: if s.saved_cursor.col < w {
                    s.saved_cursor.col
                } else {
                    (w - 1) as u16
                },
                row: s.saved_cursor.row,
            },
            cells: Seq::new(
                h as nat,
                |r: int|
                    Seq::new(
                        w as nat,
                        |c: int|
                            if r < self.height && c < self.width {
                                s.cells[r][c]
                            } else {
                                blank_cell()
                            },
                    ),
            ),
            dirty: Set::new(|r: int| 0 <= r < h),
            ..s
        }
    }
}

/// The display buffer of a console.
pub struct Grid {
    cursor: CursorPos,
    saved_cursor: CursorPos,
    scroll_top: u16,
    scroll_bottom: u16,
    width: u16,
    height: u16,
    buffer: GridBuffer<Cell>,
    dirty_rows: Vec<bool>,
    sgr_template: Cell,
}

impl View for Grid {
    type V = GridModel;

    closed spec fn view(&self) -> GridModel {
        GridModel {
            width: self.width as int,
            height: self.height as int,
            cursor: self.cursor,
            saved_cursor: self.saved_cursor,
            top: self.scroll_top as int,
            bottom: self.scroll_bottom as int,
            cells: self.buffer@,
            dirty: Set::new(|r: int| 0 <= r < self.dirty_rows@.len() && self.dirty_rows@[r]),
            template: self.sgr_template,
        }
    }
}

impl Grid {
    /// The representation agrees with the model.
    pub closed spec fn inv(&self) -> bool {
        self.dirty_rows@.len() == self.height
    }

    /// A well-formed grid.
    pub open spec fn wf(&self) -> bool {
        self@.wf() && self.inv()
    }

    /// Initialise an empty display buffer.
    pub fn new(width: u16, height: u16) -> (g: Grid)
        requires
            width >= 1,
            height >= 1,
        ensures
            g.wf(),
            g@ == GridModel::blank(width as int, height as int),
    {
        let mut dirty_rows: Vec<bool> = Vec::new();
        let mut i: u16 = 0;
        while i < height
            invariant
                i <= height,
                dirty_rows@ == Seq::new(i as nat, |j: int| true),
            decreases height - i,
        {
            dirty_rows.push(true);
            i = i + 1;
            assert(dirty_rows@ =~= Seq::new(i as nat, |j: int| true));
        }
        let g = Grid {
            cursor: CursorPos { col: 0, row: 0 },
            saved_cursor: CursorPos { col: 0, row: 0 },
            scroll_top: 0,
            scroll_bottom: height,
            width,
            height,
            buffer: GridBuffer::new(width, height, Cell::default()),
            dirty_rows,
            sgr_template: Cell::default(),
        };
        assert(g@.cells =~= GridModel::blank(width as int, height as int).cells);
        assert(g@.dirty =~= GridModel::blank(width as int, height as int).dirty);
        g
    }

    /// A copy of row `r`.
    fn line(&self, r: u16) -> (out: Row<Cell>)
        requires
            self.wf(),
            r < self@.height,
        ensures
            out@ == self@.cells[r as int],
    {
        let src = &self.buffer.rows[r as usize].buf;
        let mut buf: Vec<Cell> = Vec::new();
        let mut c: usize = 0;
        while c < src.len()
            invariant
                c <= src@.len(),
                buf@ == src@.subrange(0, c as int),
            decreases src@.len() - c,
        {
            buf.push(src[c]);
            c = c + 1;
            assert(buf@ =~= src@.subrange(0, c as int));
        }
        assert(buf@ =~= src@);
        Row { buf }
    }

    /// Replaces row `r` and marks it dirty.
    fn set_line(&mut self, r: u16, line: Row<Cell>)
        requires
            old(self).wf(),
            r < old(self)@.height,
            line@.len() == old(self)@.width,
        ensures
            final(self).wf(),
            final(self)@ == old(self)@.with_line(r as int, line@),
    {
        self.buffer.rows[r as usize] = line;
        self.dirty_rows[r as usize] = true;
        assert(self.buffer@ =~= old(self).buffer@.update(r as int, line@));
        assert(self@.dirty =~= old(self)@.dirty.insert(r as int));
    }

    /// The cell at `pos`.
    fn cell_at(&self, pos: CursorPos) -> (r: Cell)
        requires
            self.wf(),
            pos.row < self@.height,
            pos.col < self@.width,
        ensures
            r == self@.cells[pos.row as int][pos.col as int],
    {
        self.buffer.rows[pos.row as usize].buf[pos.col as usize]
    }

    /// Writes the cell at `pos` and marks its row dirty.
    fn put_cell(&mut self, pos: CursorPos, v: Cell)
        requires
            old(self).wf(),
            pos.row < old(self)@.height,
            pos.col < old(self)@.width,
        ensures
            final(self).wf(),
            final(self)@ == old(self)@.with_cell(pos.row as int, pos.col as int, v),
    {
        self.dirty_rows[pos.row as usize] = true;
        self.buffer.rows[pos.row as usize].buf[pos.col as usize] = v;
        assert(self.buffer@ =~= old(self).buffer@.update(
            pos.row as int,
            old(self).buffer@[pos.row as int].update(pos.col as int, v),
        ));
        assert(self@.dirty =~= old(self)@.dirty.insert(pos.row as int));
    }

    fn scroll_up_in_region(&mut self, start: u16, end: u16, lines: usize)
        requires
            old(self).wf(),
            start <= end <= old(self)@.height,
        ensures
            final(self).wf(),
            final(self)@ == old(self)@.scroll_up_region(start as int, end as int, lines as int),
    {
        if lines < 1 {
            return;
        }
        let ghost g0 = self@;
        let mut row: u16 = start;
        while row < end
            invariant
                self.wf(),
                g0.wf(),
                start <= row <= end,
                end <= g0.height,
                lines >= 1,
                self@.width == g0.width,
                self@.height == g0.height,
                self@.cursor == g0.cursor,
                self@.saved_cursor == g0.saved_cursor,
                self@.top == g0.top,
                self@.bottom == g0.bottom,
                self@.template == g0.template,
                forall|r: int|
                    0 <= r < g0.height ==> #[trigger] self@.cells[r] == if start <= r < row {
                        g0.scrolled_up_line(end as int, lines as int, r)
                    } else {
                        g0.cells[r]
                    },
                self@.dirty == g0.dirty.union(Set::new(|r: int| start <= r < row)),
            decreases end - row,
        {
            let line = if lines < (end - row) as usize {
                self.line(row + lines as u16)
            } else {
                Row::new(self.width, Cell::default())
            };
            assert(line@ == g0.scrolled_up_line(end as int, lines as int, row as int));
            self.set_line(row, line);
            row = row + 1;
            assert(self@.dirty =~= g0.dirty.union(Set::new(|r: int| start <= r < row)));
        }
        assert(self@.cells =~= g0.scroll_up_region(start as int, end as int, lines as int).cells);
    }

    fn scroll_down_in_region(&mut self, start: u16, end: u16, lines: usize)
        requires
            old(self).wf(),
            start <= end <= old(self)@.height,
        ensures
            final(self).wf(),
            final(self)@ == old(self)@.scroll_down_region(start as int, end as int, lines as int),
    {
        if lines < 1 {
            return;
        }
        let ghost g0 = self@;
        let mut row: u16 = end;
        while row > start
            invariant
                self.wf(),
                g0.wf(),
                start <= row <= end,
                end <= g0.height,
                lines >= 1,
                self@.width == g0.width,
                self@.height == g0.height,
                self@.cursor == g0.cursor,
                self@.saved_cursor == g0.saved_cursor,
                self@.top == g0.top,
                self@.bottom == g0.bottom,
                self@.template == g0.template,
                forall|r: int|
                    0 <= r < g0.height ==> #[trigger] self@.cells[r] == if row <= r < end {
                        g0.scrolled_down_line(start as int, lines as int, r)
                    } else {
                        g0.cells[r]
                    },
                self@.dirty == g0.dirty.union(Set::new(|r: int| row <= r < end)),
            decreases row - start,
        {
            row = row - 1;
            let line = if lines <= (row - start) as usize {
                self.line(row - lines as u16)
            } else {
                Row::new(self.width, Cell::default())
            };
            assert(line@ == g0.scrolled_down_line(start as int, lines as int, row as int));
            self.set_line(row, line);
            assert(self@.dirty =~= g0.dirty.union(Set::new(|r: int| row <= r < end)));
        }
        assert(self@.cells =~= g0.scroll_down_region(start as int, end as int, lines as int).cells);
    }
}

/// `n` as an `i64`, saturating.
fn saturating_i64(n: usize) -> (r: i64)
    ensures
        r == if n <= i64::MAX {
            n as int
        } else {
            i64::MAX as int
        },
{
    if n as u64 <= i64::MAX as u64 {
        n as i64
    } else {
        i64::MAX
    }
}

/// Tab moves stop at the last column.
proof fn lemma_tabbed_at_end(hi: int, n: int)
    requires
        hi >= 0,
    ensures
        tabbed(hi, n, hi) == hi,
    decreases n,
{
    if n > 0 {
        assert(clamp(next_tab_stop(hi), hi) == hi);
        lemma_tabbed_at_end(hi, n - 1);
    }
}

impl Grid {
    /// Mark all rows as dirty.
    pub fn mark_all_dirty(&mut self)
        requires
            old(self).wf(),
        ensures
            final(self).wf(),
            final(self)@ == old(self)@.mark_all_dirty(),
    {
        let n = self.dirty_rows.len();
        let mut i: usize = 0;
        while i < n
            invariant
                n == self.dirty_rows@.len(),
                i <= n,
                forall|j: int| 0 <= j < i ==> self.dirty_rows@[j],
                self.cursor == old(self).cursor,
                self.saved_cursor == old(self).saved_cursor,
                self.scroll_top == old(self).scroll_top,
                self.scroll_bottom == old(self).scroll_bottom,
                self.width == old(self).width,
                self.height == old(self).height,
                self.buffer@ == old(self).buffer@,
                self.sgr_template == old(self).sgr_template,
            decreases n - i,
        {
            self.dirty_rows[i] = true;
            i = i + 1;
        }
        assert(self@.dirty =~= old(self)@.mark_all_dirty().dirty);
    }

    fn move_horizontal(&mut self, d: Displace)
        requires
            old(self).wf(),
        ensures
            final(self).wf(),
            final(self)@ == old(self)@.with_col(old(self)@.horizontal_target(d)),
    {
        let hi: u16 = self.width - 1;
        let col: u16 = match d {
            Displace::Absolute(n) => if n > hi as usize {
                hi
            } else {
                n as u16
            },
            Displace::Relative(o) => {
                let t: i64 = if o > 0x10000 {
                    0x10000
                } else if o < -0x10000 {
                    -0x10000
                } else {
                    o
                };
                let v: i64 = self.cursor.col as i64 + t;
                if v < 0 {
                    0
                } else if v > hi as i64 {
                    hi
                } else {
                    v as u16
                }
            },
            Displace::ToStart => 0,
            Displace::ToTabStop => {
                let t: u32 = self.cursor.col as u32 - self.cursor.col as u32 % 8 + 8;
                if t > hi as u32 {
                    hi
                } else {
                    t as u16
                }
            },
        };
        self.cursor = CursorPos { col, row: self.cursor.row };
    }

    fn move_vertical(&mut self, d: Displace)
        requires
            old(self).wf(),
        ensures
            final(self).wf(),
            final(self)@ == old(self)@.with_row(old(self)@.vertical_target(d)),
    {
        let hi: u16 = self.height - 1;
        let row: u16 = match d {
            Displace::Absolute(n) => if n > hi as usize {
                hi
            } else {
                n as u16
            },
            Displace::Relative(o) => {
                let t: i64 = if o > 0x10000 {
                    0x10000
                } else if o < -0x10000 {
                    -0x10000
                } else {
                    o
                };
                let v: i64 = self.cursor.row as i64 + t;
                if v < 0 {
                    0
                } else if v > hi as i64 {
                    hi
                } else {
                    v as u16
                }
            },
            Displace::ToStart => 0,
            Displace::ToTabStop => self.cursor.row,
        };
        self.cursor = CursorPos { col: self.cursor.col, row };
    }

    /// Blanks the cells `[from, to)` of row `r` and marks the row.
    fn erase_in_line(&mut self, r: u16, from: u16, to: u16)
        requires
            old(self).wf(),
            r < old(self)@.height,
            to <= old(self)@.width,
        ensures
            final(self).wf(),
            final(self)@ == old(self)@.with_line(
                r as int,
                Seq::new(
                    old(self)@.width as nat,
                    |c: int|
                        if from <= c < to {
                            blank_cell()
                        } else {
                            old(self)@.cells[r as int][c]
                        },
                ),
            ),
    {
        let old_line = self.line(r);
        let ghost want = Seq::new(
            self@.width as nat,
            |c: int|
                if from <= c < to {
                    blank_cell()
                } else {
                    self@.cells[r as int][c]
                },
        );
        let mut buf: Vec<Cell> = Vec::new();
        let mut c: u16 = 0;
        while c < self.width
            invariant
                self.wf(),
                c <= self@.width,
                old_line@ == self@.cells[r as int],
                r < self@.height,
                want.len() == self@.width,
                want == Seq::new(
                    self@.width as nat,
                    |c: int|
                        if from <= c < to {
                            blank_cell()
                        } else {
                            self@.cells[r as int][c]
                        },
                ),
                buf@ == want.subrange(0, c as int),
            decreases self@.width - c,
        {
            let v = if from <= c && c < to {
                Cell::default()
            } else {
                old_line.buf[c as usize]
            };
            buf.push(v);
            c = c + 1;
            assert(buf@ =~= want.subrange(0, c as int));
        }
        assert(buf@ =~= want);
        self.set_line(r, Row { buf });
    }

    /// Resize this grid (not its connected PTY).
    pub fn resize(&mut self, new_width: u16, new_height: u16)
        requires
            old(self).wf(),
            new_width >= 1,
            new_height >= 1,
        ensures
            final(self).wf(),
            final(self)@ == old(self)@.resize(new_width as int, new_height as int),
    {
        let ghost g0 = self@;
        if new_height < self.height {
            let row = self.cursor.row;
            let occ: u16 = if self.cursor.col == 0 {
                row
            } else if row < self.height {
                row + 1
            } else {
                row
            };
            if occ > new_height {
                self.scroll_up_in_region(0, occ, (occ - new_height) as usize);
                self.cursor.row = row - (occ - new_height);
            }
            let b = if self.scroll_bottom < new_height {
                self.scroll_bottom
            } else {
                new_height
            };
            if self.scroll_top < b {
                self.scroll_bottom = b;
            } else {
                self.scroll_top = 0;
                self.scroll_bottom = new_height;
            }
            if self.saved_cursor.row >= new_height {
                self.saved_cursor.row = new_height - 1;
            }
        }
        assert(self@ == g0.shrink_rows(new_height as int));
        let ghost s = g0.shrink_rows(new_height as int);
        let mut rows: Vec<Row<Cell>> = Vec::new();
        let mut r: u16 = 0;
        while r < new_height
            invariant
                self.wf(),
                self@.cells == s.cells,
                self@.width == g0.width,
                self@.height == g0.height,
                r <= new_height,
                rows@.map_values(|x: Row<Cell>| x@) == Seq::new(
                    r as nat,
                    |i: int|
                        Seq::new(
                            new_width as nat,
                            |c: int|
                                if i < g0.height && c < g0.width {
                                    s.cells[i][c]
                                } else {
                                    blank_cell()
                                },
                        ),
                ),
            decreases new_height - r,
        {
            let ghost want = Seq::new(
                new_width as nat,
                |c: int|
                    if r < g0.height && c < g0.width {
                        s.cells[r as int][c]
                    } else {
                        blank_cell()
                    },
            );
            let mut buf: Vec<Cell> = Vec::new();
            let mut c: u16 = 0;
            while c < new_width
                invariant
                    self.wf(),
                    self@.cells == s.cells,
                    self@.width == g0.width,
                    self@.height == g0.height,
                    c <= new_width,
                    want.len() == new_width,
                    want == Seq::new(
                        new_width as nat,
                        |c: int|
                            if r < g0.height && c < g0.width {
                                s.cells[r as int][c]
                            } else {
                                blank_cell()
                            },
                    ),
                    buf@ == want.subrange(0, c as int),
                decreases new_width - c,
            {
                let v = if r < self.height && c < self.width {
                    self.cell_at(CursorPos { col: c, row: r })
                } else {
                    Cell::default()
                };
                buf.push(v);
                c = c + 1;
                assert(buf@ =~= want.subrange(0, c as int));
            }
            assert(buf@ =~= want);
            let ghost before = rows@;
            let line = Row { buf };
            rows.push(line);
            assert(rows@.map_values(|x: Row<Cell>| x@) =~= before.map_values(|x: Row<Cell>| x@).push(
                want,
            ));
            r = r + 1;
            assert(rows@.map_values(|x: Row<Cell>| x@) =~= Seq::new(
                r as nat,
                |i: int|
                    Seq::new(
                        new_width as nat,
                        |c: int|
                            if i < g0.height && c < g0.width {
                                s.cells[i][c]
                            } else {
                                blank_cell()
                            },
                    ),
            ));
        }
        let mut dirty_rows: Vec<bool> = Vec::new();
        let mut i: u16 = 0;
        while i < new_height
            invariant
                i <= new_height,
                dirty_rows@ == Seq::new(i as nat, |j: int| true),
            decreases new_height - i,
        {
            dirty_rows.push(true);
            i = i + 1;
            assert(dirty_rows@ =~= Seq::new(i as nat, |j: int| true));
        }
        if self.height < new_height && self.scroll_bottom == self.height {
            self.scroll_bottom = new_height;
        }
        self.buffer = GridBuffer { rows };
        self.dirty_rows = dirty_rows;
        self.height = new_height;
        if self.cursor.col >= new_width {
            self.cursor.col = new_width - 1;
        }
        if self.saved_cursor.col >= new_width {
            self.saved_cursor.col = new_width - 1;
        }
        self.width = new_width;
        assert(self@.dirty =~= Set::new(|r: int| 0 <= r < new_height));
        assert(self@.cells =~= g0.resize(new_width as int, new_height as int).cells);
    }
}

impl Grid {
    /// Print `c` at the cursor.
    pub fn input(&mut self, c: char)
        requires
            old(self).wf(),
        ensures
            final(self).wf(),
            final(self)@ == old(self)@.input(c),
    {
        if self.cursor.col == 0 && self.cursor.row == self.scroll_bottom {
            self.scroll_up_in_region(self.scroll_top, self.scroll_bottom, 1);
            self.cursor.row = self.cursor.row - 1;
        } else if self.cursor.row == self.height {
            self.cursor.row = self.height - 1;
        }
        let cell = Cell { c, fg: self.sgr_template.fg, bg: self.sgr_template.bg };
        self.put_cell(self.cursor, cell);
        if self.cursor.col + 1 == self.width {
            self.cursor.row = self.cursor.row + 1;
            self.carriage_return();
        } else {
            self.cursor.col = self.cursor.col + 1;
        }
    }

    /// Move to `row`, `col` (zero-based), clamped to the grid.
    pub fn goto(&mut self, row: usize, col: usize)
        requires
            old(self).wf(),
        ensures
            final(self).wf(),
            final(self)@ == old(self)@.goto(row as int, col as int),
    {
        self.move_horizontal(Displace::Absolute(col));
        self.move_vertical(Displace::Absolute(row));
    }

    pub fn goto_line(&mut self, row: usize)
        requires
            old(self).wf(),
        ensures
            final(self).wf(),
            final(self)@ == old(self)@.goto(row as int, old(self)@.cursor.col as int),
    {
        self.move_vertical(Displace::Absolute(row));
    }

    pub fn goto_col(&mut self, col: usize)
        requires
            old(self).wf(),
        ensures
            final(self).wf(),
            final(self)@ == old(self)@.with_col(clamp(col as int, old(self)@.width - 1)),
    {
        self.move_horizontal(Displace::Absolute(col));
    }

    /// Insert `cols` blanks at the cursor, shifting the rest of the line right.
    pub fn insert_blank(&mut self, cols: usize)
        requires
            old(self).wf(),
        ensures
            final(self).wf(),
            final(self)@ == old(self)@.insert_blank(cols as int),
    {
        if cols < 1 || self.cursor.row >= self.height {
            return;
        }
        let ghost g0 = self@;
        let r = self.cursor.row;
        let col = self.cursor.col;
        let old_line = self.line(r);
        let ghost want = Seq::new(
            g0.width as nat,
            |c: int|
                if c < col {
                    g0.cells[r as int][c]
                } else if c >= col + cols {
                    g0.cells[r as int][c - cols]
                } else {
                    blank_cell()
                },
        );
        let mut buf: Vec<Cell> = Vec::new();
        let mut c: u16 = 0;
        while c < self.width
            invariant
                self@ == g0,
                g0.wf(),
                r < g0.height,
                col < g0.width,
                old_line@ == g0.cells[r as int],
                c <= g0.width,
                want.len() == g0.width,
                want == Seq::new(
                    g0.width as nat,
                    |c: int|
                        if c < col {
                            g0.cells[r as int][c]
                        } else if c >= col + cols {
                            g0.cells[r as int][c - cols]
                        } else {
                            blank_cell()
                        },
                ),
                buf@ == want.subrange(0, c as int),
            decreases g0.width - c,
        {
            let v = if c < col {
                old_line.buf[c as usize]
            } else if (c - col) as usize >= cols {
                old_line.buf[c as usize - cols]
            } else {
                Cell::default()
            };
            buf.push(v);
            c = c + 1;
            assert(buf@ =~= want.subrange(0, c as int));
        }
        assert(buf@ =~= want);
        self.set_line(r, Row { buf });
    }

    pub fn move_up(&mut self, rows: usize)
        requires
            old(self).wf(),
        ensures
            final(self).wf(),
            final(self)@ == old(self)@.move_rows(-(rows as int)),
    {
        self.move_vertical(Displace::Relative(-saturating_i64(rows)));
    }

    pub fn move_down(&mut self, rows: usize)
        requires
            old(self).wf(),
        ensures
            final(self).wf(),
            final(self)@ == old(self)@.move_rows(rows as int),
    {
        self.move_vertical(Displace::Relative(saturating_i64(rows)));
    }

    /// Answer a device status report request: `5` asks whether the
    /// terminal is well, `6` where the cursor is; others get no answer.
    pub fn device_status(&self, out: &mut Vec<u8>, param: usize)
        requires
            self.wf(),
        ensures
            final(out)@ == old(out)@ + status_reply(self@.cursor, param as int),
    {
        if param == 5 {
            out.push(0x1b);
            out.push(0x5b);
            out.push(0x30);
            out.push(0x6e);
            assert(out@ =~= old(out)@ + status_reply(self@.cursor, param as int));
        } else if param == 6 {
            out.push(0x1b);
            out.push(0x5b);
            push_decimal(out, self.cursor.row as u32 + 1);
            out.push(0x3b);
            push_decimal(out, self.cursor.col as u32 + 1);
            out.push(0x52);
            assert(out@ =~= old(out)@ + status_reply(self@.cursor, param as int));
        } else {
            assert(out@ =~= old(out)@ + status_reply(self@.cursor, param as int));
        }
    }

    pub fn move_forward(&mut self, cols: usize)
        requires
            old(self).wf(),
        ensures
            final(self).wf(),
            final(self)@ == old(self)@.move_cols(cols as int),
    {
        self.move_horizontal(Displace::Relative(saturating_i64(cols)));
    }

    pub fn move_backward(&mut self, cols: usize)
        requires
            old(self).wf(),
        ensures
            final(self).wf(),
            final(self)@ == old(self)@.move_cols(-(cols as int)),
    {
        self.move_horizontal(Displace::Relative(-saturating_i64(cols)));
    }

    pub fn move_down_and_cr(&mut self, rows: usize)
        requires
            old(self).wf(),
        ensures
            final(self).wf(),
            final(self)@ == old(self)@.move_rows(rows as int).with_col(0),
    {
        self.move_vertical(Displace::Relative(saturating_i64(rows)));
        self.move_horizontal(Displace::ToStart);
    }

    pub fn move_up_and_cr(&mut self, rows: usize)
        requires
            old(self).wf(),
        ensures
            final(self).wf(),
            final(self)@ == old(self)@.move_rows(-(rows as int)).with_col(0),
    {
        self.move_vertical(Displace::Relative(-saturating_i64(rows)));
        self.move_horizontal(Displace::ToStart);
    }

    /// Advance to the next tab stop, `count` times.
    pub fn put_tab(&mut self, count: i64)
        requires
            old(self).wf(),
        ensures
            final(self).wf(),
            final(self)@ == old(self)@.tab(count as int),
    {
        let ghost g0 = self@;
        let ghost hi = g0.width - 1;
        let n: i64 = if count < 0 {
            0
        } else {
            count
        };
        let mut i: i64 = 0;
        while i < n && self.cursor.col < self.width - 1
            invariant
                self.wf(),
                g0.wf(),
                hi == g0.width - 1,
                0 <= i <= n,
                self@ == g0.with_col(self@.cursor.col as int),
                tabbed(g0.cursor.col as int, count as int, hi) == tabbed(
                    self@.cursor.col as int,
                    n - i,
                    hi,
                ),
            decreases n - i,
        {
            self.move_horizontal(Displace::ToTabStop);
            i = i + 1;
        }
        proof {
            if i < n {
                lemma_tabbed_at_end(hi, n - i);
            }
        }
    }

    pub fn move_forward_tabs(&mut self, count: i64)
        requires
            old(self).wf(),
        ensures
            final(self).wf(),
            final(self)@ == old(self)@.tab(count as int),
    {
        self.put_tab(count);
    }

    pub fn backspace(&mut self)
        requires
            old(self).wf(),
        ensures
            final(self).wf(),
            final(self)@ == old(self)@.move_cols(-1),
    {
        self.move_horizontal(Displace::Relative(-1));
    }

    pub fn carriage_return(&mut self)
        requires
            old(self).wf(),
        ensures
            final(self).wf(),
            final(self)@ == old(self)@.with_col(0),
    {
        self.move_horizontal(Displace::ToStart);
    }

    pub fn linefeed(&mut self)
        requires
            old(self).wf(),
        ensures
            final(self).wf(),
            final(self)@ == old(self)@.linefeed(),
    {
        if self.cursor.row as u32 + 1 == self.scroll_bottom as u32 {
            self.scroll_up(1);
        } else if (self.cursor.row as u32 + 1) < self.height as u32 {
            self.cursor.row = self.cursor.row + 1;
        }
    }

    /// A line feed; the carriage return is separate.
    pub fn newline(&mut self)
        requires
            old(self).wf(),
        ensures
            final(self).wf(),
            final(self)@ == old(self)@.linefeed(),
    {
        self.linefeed();
    }

    /// Move the text of the scrolling region up by `rows`.
    pub fn scroll_up(&mut self, rows: usize)
        requires
            old(self).wf(),
        ensures
            final(self).wf(),
            final(self)@ == old(self)@.scroll_up_region(
                old(self)@.top,
                old(self)@.bottom,
                rows as int,
            ),
    {
        self.scroll_up_in_region(self.scroll_top, self.scroll_bottom, rows);
    }

    /// Move the text of the scrolling region down by `rows`.
    pub fn scroll_down(&mut self, rows: usize)
        requires
            old(self).wf(),
        ensures
            final(self).wf(),
            final(self)@ == old(self)@.scroll_down_region(
                old(self)@.top,
                old(self)@.bottom,
                rows as int,
            ),
    {
        self.scroll_down_in_region(self.scroll_top, self.scroll_bottom, rows);
    }

    pub fn insert_blank_lines(&mut self, rows: usize)
        requires
            old(self).wf(),
        ensures
            final(self).wf(),
            final(self)@ == old(self)@.insert_blank_lines(rows as int),
    {
        if self.scroll_top <= self.cursor.row && self.cursor.row < self.scroll_bottom {
            self.scroll_down_in_region(self.cursor.row, self.scroll_bottom, rows);
        }
    }

    pub fn delete_lines(&mut self, rows: usize)
        requires
            old(self).wf(),
        ensures
            final(self).wf(),
            final(self)@ == old(self)@.delete_lines(rows as int),
    {
        if self.scroll_top <= self.cursor.row && self.cursor.row < self.scroll_bottom {
            self.scroll_up_in_region(self.cursor.row, self.scroll_bottom, rows);
        }
    }

    /// Blank `cols` cells from the cursor on.
    pub fn erase_chars(&mut self, cols: usize)
        requires
            old(self).wf(),
        ensures
            final(self).wf(),
            final(self)@ == old(self)@.erase_chars(cols as int),
    {
        if cols == 0 || self.cursor.row >= self.height {
            return;
        }
        let col = self.cursor.col;
        let to: u16 = if cols >= (self.width - col) as usize {
            self.width
        } else {
            col + cols as u16
        };
        let ghost g0 = self@;
        let ghost ci = col as int;
        let ghost n = cols as int;
        self.erase_in_line(self.cursor.row, col, to);
        assert(Seq::new(
            g0.width as nat,
            |c: int|
                if col <= c < to {
                    blank_cell()
                } else {
                    g0.cells[g0.cursor.row as int][c]
                },
        ) =~= g0.line_erased(|c: int| ci <= c < ci + n));
        assert(self@.cells =~= old(self)@.erase_chars(cols as int).cells);
    }

    /// Delete `cols` cells at the cursor, shifting the rest of the line left.
    pub fn delete_chars(&mut self, cols: usize)
        requires
            old(self).wf(),
        ensures
            final(self).wf(),
            final(self)@ == old(self)@.delete_chars(cols as int),
    {
        if self.cursor.row >= self.height {
            return;
        }
        let ghost g0 = self@;
        let r = self.cursor.row;
        let col = self.cursor.col;
        let old_line = self.line(r);
        let ghost want = Seq::new(
            g0.width as nat,
            |c: int|
                if c < col {
                    g0.cells[r as int][c]
                } else if c + cols < g0.width {
                    g0.cells[r as int][c + cols]
                } else {
                    blank_cell()
                },
        );
        let mut buf: Vec<Cell> = Vec::new();
        let mut c: u16 = 0;
        while c < self.width
            invariant
                self@ == g0,
                g0.wf(),
                r < g0.height,
                col < g0.width,
                old_line@ == g0.cells[r as int],
                c <= g0.width,
                want.len() == g0.width,
                want == Seq::new(
                    g0.width as nat,
                    |c: int|
                        if c < col {
                            g0.cells[r as int][c]
                        } else if c + cols < g0.width {
                            g0.cells[r as int][c + cols]
                        } else {
                            blank_cell()
                        },
                ),
                buf@ == want.subrange(0, c as int),
            decreases g0.width - c,
        {
            let v = if c < col {
                old_line.buf[c as usize]
            } else if cols < (self.width - c) as usize {
                old_line.buf[c as usize + cols]
            } else {
                Cell::default()
            };
            buf.push(v);
            c = c + 1;
            assert(buf@ =~= want.subrange(0, c as int));
        }
        assert(buf@ =~= want);
        self.set_line(r, Row { buf });
    }

    pub fn save_cursor_position(&mut self)
        requires
            old(self).wf(),
        ensures
            final(self).wf(),
            final(self)@ == old(self)@.save_cursor(),
    {
        self.saved_cursor = self.cursor;
    }

    pub fn restore_cursor_position(&mut self)
        requires
            old(self).wf(),
        ensures
            final(self).wf(),
            final(self)@ == old(self)@.restore_cursor(),
    {
        self.cursor = self.saved_cursor;
    }

    /// Erase part of the cursor's line.
    pub fn clear_line(&mut self, mode: LineClearMode)
        requires
            old(self).wf(),
        ensures
            final(self).wf(),
            final(self)@ == old(self)@.clear_line(mode),
    {
        if self.cursor.row >= self.height {
            return;
        }
        let (from, to) = match mode {
            LineClearMode::All => (0, self.width),
            LineClearMode::Left => (0, self.cursor.col),
            LineClearMode::Right => (self.cursor.col, self.width),
        };
        let ghost g0 = self@;
        let ghost ci = g0.cursor.col as int;
        self.erase_in_line(self.cursor.row, from, to);
        assert(Seq::new(
            g0.width as nat,
            |c: int|
                if from <= c < to {
                    blank_cell()
                } else {
                    g0.cells[g0.cursor.row as int][c]
                },
        ) =~= g0.line_erased(|c: int| line_clears(mode, ci, c)));
        assert(self@.cells =~= old(self)@.clear_line(mode).cells);
    }

    /// Erase part of the screen.
    pub fn clear_screen(&mut self, mode: ClearMode)
        requires
            old(self).wf(),
        ensures
            final(self).wf(),
            final(self)@ == old(self)@.clear_screen(mode),
    {
        let ghost g0 = self@;
        let ghost want = g0.clear_screen(mode);
        let cur = self.cursor;
        let mut r: u16 = 0;
        while r < self.height
            invariant
                self.wf(),
                g0.wf(),
                cur == g0.cursor,
                want == g0.clear_screen(mode),
                r <= g0.height,
                self@.width == g0.width,
                self@.height == g0.height,
                self@.cursor == g0.cursor,
                self@.saved_cursor == g0.saved_cursor,
                self@.top == g0.top,
                self@.bottom == g0.bottom,
                self@.template == g0.template,
                forall|i: int|
                    0 <= i < g0.height ==> #[trigger] self@.cells[i] == if i < r {
                        want.cells[i]
                    } else {
                        g0.cells[i]
                    },
                self@.dirty == g0.dirty.union(
                    Set::new(|i: int| 0 <= i < r && screen_clears_row(mode, cur, i)),
                ),
            decreases g0.height - r,
        {
            let (from, to): (u16, u16) = match mode {
                ClearMode::All | ClearMode::Saved => (0, self.width),
                ClearMode::Above => if r < cur.row {
                    (0, self.width)
                } else if r == cur.row {
                    (0, cur.col)
                } else {
                    (0, 0)
                },
                ClearMode::Below => if r > cur.row {
                    (0, self.width)
                } else if r == cur.row {
                    (cur.col, self.width)
                } else {
                    (0, 0)
                },
            };
            if from < to {
                self.erase_in_line(r, from, to);
                assert(self@.cells[r as int] =~= want.cells[r as int]);
            } else {
                assert(g0.cells[r as int] =~= want.cells[r as int]);
            }
            r = r + 1;
            assert(self@.dirty =~= g0.dirty.union(
                Set::new(|i: int| 0 <= i < r && screen_clears_row(mode, cur, i)),
            ));
        }
        assert(self@.cells =~= want.cells);
        assert(self@.dirty =~= want.dirty);
    }

    /// Move up a line, scrolling the region down at its top.
    pub fn reverse_index(&mut self)
        requires
            old(self).wf(),
        ensures
            final(self).wf(),
            final(self)@ == old(self)@.reverse_index(),
    {
        if self.cursor.row == self.scroll_top {
            self.scroll_down(1);
        } else if self.cursor.row > 0 {
            self.cursor.row = self.cursor.row - 1;
        }
    }

    /// SGR: set an attribute to apply to subsequently-received characters.
    pub fn terminal_attribute(&mut self, attr: Attr)
        requires
            old(self).wf(),
        ensures
            final(self).wf(),
            final(self)@ == old(self)@.terminal_attribute(attr),
    {
        match attr {
            Attr::Reset => self.sgr_template = Cell::default(),
            Attr::Foreground(color) => self.sgr_template.fg = color,
            Attr::Background(color) => self.sgr_template.bg = color,
            Attr::Unrendered => {},
        }
    }

    /// Set the scrolling region to the rows `top` to `bottom`, one-based
    /// and inclusive (the whole screen below `top` when `bottom` is
    /// absent), then move home.
    pub fn set_scrolling_region(&mut self, top: usize, bottom: Option<usize>)
        requires
            old(self).wf(),
        ensures
            final(self).wf(),
            final(self)@ == old(self)@.set_scrolling_region(top as int, bottom),
    {
        let t: usize = if top == 0 {
            0
        } else {
            top - 1
        };
        let b: u16 = match bottom {
            Some(b) => if b < self.height as usize {
                b as u16
            } else {
                self.height
            },
            None => self.height,
        };
        if t < b as usize {
            self.scroll_top = t as u16;
            self.scroll_bottom = b;
            self.goto(0, 0);
        }
    }
}

/// The text of one line: each cell's colour sequence, then its glyph.
pub open spec fn line_text(line: Seq<Cell>) -> Seq<char>
    decreases line.len(),
{
    if line.len() == 0 {
        Seq::empty()
    } else {
        line_text(line.drop_last()) + fg_seq(line.last().fg) + seq![line.last().c]
    }
}

/// The dirty rows among the first `upto`, in ascending order, each put at
/// its place on the screen.
pub open spec fn dirty_text(m: GridModel, upto: int) -> Seq<char>
    decreases upto,
{
    if upto <= 0 {
        Seq::empty()
    } else if m.dirty.contains(upto - 1) {
        dirty_text(m, upto - 1) + goto_seq(1, upto as nat) + line_text(m.cells[upto - 1])
    } else {
        dirty_text(m, upto - 1)
    }
}

/// What `draw` writes: the dirty rows, then the cursor placement (a
/// cursor below the last possible row is placed on it).
pub open spec fn frame(m: GridModel) -> Seq<char> {
    let row = if m.cursor.row + 1 <= u16::MAX {
        m.cursor.row + 1
    } else {
        u16::MAX as int
    };
    dirty_text(m, m.height) + goto_seq((m.cursor.col + 1) as nat, row as nat)
}

impl Grid {
    pub fn width(&self) -> (r: u16)
        ensures
            r == self@.width,
    {
        self.width
    }

    pub fn height(&self) -> (r: u16)
        ensures
            r == self@.height,
    {
        self.height
    }

    pub fn cursor(&self) -> (r: CursorPos)
        ensures
            r == self@.cursor,
    {
        self.cursor
    }

    /// The cell at column `col` of row `row`.
    pub fn cell(&self, col: u16, row: u16) -> (r: Cell)
        requires
            self.wf(),
            col < self@.width,
            row < self@.height,
        ensures
            r == self@.cells[row as int][col as int],
    {
        self.cell_at(CursorPos { col, row })
    }

    /// Whether row `row` waits to be redrawn.
    pub fn is_dirty(&self, row: u16) -> (r: bool)
        requires
            self.wf(),
        ensures
            r == self@.dirty.contains(row as int),
    {
        row < self.height && self.dirty_rows[row as usize]
    }

    /// Draw this buffer to `term`.
    pub fn draw(&mut self, term: &mut Vec<char>)
        requires
            old(self).wf(),
        ensures
            final(self).wf(),
            final(term)@ == old(term)@ + frame(old(self)@),
            final(self)@ == (GridModel { dirty: Set::empty(), ..old(self)@ }),
    {
        let ghost g0 = self@;
        let ghost t0 = term@;
        let mut r: u16 = 0;
        while r < self.height
            invariant
                self@ == g0,
                self.wf(),
                r <= g0.height,
                term@ == t0 + dirty_text(g0, r as int),
            decreases g0.height - r,
        {
            if self.dirty_rows[r as usize] {
                push_goto(term, 1, r + 1);
                let ghost t1 = term@;
                let mut c: u16 = 0;
                while c < self.width
                    invariant
                        self@ == g0,
                        self.wf(),
                        r < g0.height,
                        c <= g0.width,
                        term@ == t1 + line_text(g0.cells[r as int].subrange(0, c as int)),
                    decreases g0.width - c,
                {
                    let cell = self.cell_at(CursorPos { col: c, row: r });
                    let ghost before = term@;
                    push_fg(term, cell.fg);
                    term.push(cell.c);
                    proof {
                        let line = g0.cells[r as int];
                        assert(line.subrange(0, c + 1).drop_last() =~= line.subrange(0, c as int));
                        assert(term@ =~= t1 + line_text(line.subrange(0, c + 1)));
                    }
                    c = c + 1;
                }
                assert(g0.cells[r as int].subrange(0, g0.width) =~= g0.cells[r as int]);
                assert(term@ =~= t0 + dirty_text(g0, r + 1));
            }
            r = r + 1;
        }
        let row: u16 = if self.cursor.row < u16::MAX {
            self.cursor.row + 1
        } else {
            u16::MAX
        };
        push_goto(term, self.cursor.col + 1, row);
        assert(term@ =~= t0 + frame(g0));
        let n = self.dirty_rows.len();
        let mut i: usize = 0;
        while i < n
            invariant
                n == self.dirty_rows@.len(),
                i <= n,
                forall|j: int| 0 <= j < i ==> !self.dirty_rows@[j],
                self.cursor == old(self).cursor,
                self.saved_cursor == old(self).saved_cursor,
                self.scroll_top == old(self).scroll_top,
                self.scroll_bottom == old(self).scroll_bottom,
                self.width == old(self).width,
                self.height == old(self).height,
                self.buffer@ == old(self).buffer@,
                self.sgr_template == old(self).sgr_template,
            decreases n - i,
        {
            self.dirty_rows[i] = false;
            i = i + 1;
        }
        assert(self@.dirty =~= Set::empty());
    }
}

} // verus!
