//! The low-level text console: a fixed-size hardware character grid and the
//! cursor-and-color writers that render diagnostic output into it.
//!
//! The hardware grid is device-backed memory: every cell must be read and
//! written one at a time, never through a bulk copy.  The `Grid` type models
//! the grid as one owned value with single-cell accessors, and every console
//! operation below goes through them cell by cell.

use vstd::prelude::*;

verus! {

/// Width of the text grid, in character cells per row.
pub const BUFFER_WIDTH: usize = 80;

/// Height of the text grid, in rows.
pub const BUFFER_HEIGHT: usize = 25;

/// Total number of cells in the grid.
pub const GRID_CELLS: usize = 2000;

/// The sixteen colors of the text-mode palette.
#[derive(Clone, Copy, Debug, PartialEq, Eq, Structural)]
pub enum Color {
    /// Black.
    Black,
    /// Blue.
    Blue,
    /// Green.
    Green,
    /// Cyan.
    Cyan,
    /// Red.
    Red,
    /// Magenta.
    Magenta,
    /// Brown.
    Brown,
    /// Light gray.
    LightGray,
    /// Dark gray.
    DarkGray,
    /// Light blue.
    LightBlue,
    /// Light green.
    LightGreen,
    /// Light cyan.
    LightCyan,
    /// Light red.
    LightRed,
    /// Light magenta.
    LightMagenta,
    /// Yellow.
    Yellow,
    /// White.
    White,
}

impl Color {
    /// The palette number of this color.
    pub open spec fn spec_code(self) -> u8 {
        match self {
            Color::Black => 0,
            Color::Blue => 1,
            Color::Green => 2,
            Color::Cyan => 3,
            Color::Red => 4,
            Color::Magenta => 5,
            Color::Brown => 6,
            Color::LightGray => 7,
            Color::DarkGray => 8,
            Color::LightBlue => 9,
            Color::LightGreen => 10,
            Color::LightCyan => 11,
            Color::LightRed => 12,
            Color::LightMagenta => 13,
            Color::Yellow => 14,
            Color::White => 15,
        }
    }

    /// Returns the palette number of this color.
    pub fn code(self) -> (r: u8)
        ensures
            r == self.spec_code(),
    {
        match self {
            Color::Black => 0,
            Color::Blue => 1,
            Color::Green => 2,
            Color::Cyan => 3,
            Color::Red => 4,
            Color::Magenta => 5,
            Color::Brown => 6,
            Color::LightGray => 7,
            Color::DarkGray => 8,
            Color::LightBlue => 9,
            Color::LightGreen => 10,
            Color::LightCyan => 11,
            Color::LightRed => 12,
            Color::LightMagenta => 13,
            Color::Yellow => 14,
            Color::White => 15,
        }
    }
}

/// A foreground/background pair packed into one hardware color byte.
#[derive(Clone, Copy, Debug, PartialEq, Eq, Structural)]
pub struct ColorCode(pub u8);

impl ColorCode {
    /// Packs a color pair into one byte: the background code fills the high
    /// nibble and the foreground code fills the low nibble.
    pub fn new(foreground: Color, background: Color) -> (r: ColorCode)
        ensures
            r.0 == (background.spec_code() << 4) | foreground.spec_code(),
    {
        ColorCode((background.code() << 4) | foreground.code())
    }
}

/// One cell of the grid: a glyph byte and its color byte.
#[derive(Clone, Copy, Debug, PartialEq, Eq, Structural)]
pub struct ScreenChar {
    /// The glyph stored in the cell.
    pub ascii_character: u8,
    /// The packed color of the cell.
    pub color_code: ColorCode,
}

/// The color byte of a cleared cell for a channel whose packed color is
/// `color`: the channel's background fills both nibbles.
pub open spec fn spec_blank_color(color: u8) -> u8 {
    ((color >> 4) << 4) | (color >> 4)
}

/// A cleared cell for a channel whose packed color is `color`: a space in the
/// channel's background color.
pub open spec fn spec_blank_char(color: u8) -> ScreenChar {
    ScreenChar { ascii_character: 0x20, color_code: ColorCode(spec_blank_color(color)) }
}

/// The one hardware text grid, modeled as a single owned value.  All console
/// channels alias this grid; none of them owns a second copy of it.
pub struct Grid {
    /// The cells in row-major order: row `r`, column `c` is cell
    /// `r * BUFFER_WIDTH + c`.
    pub cells: Vec<ScreenChar>,
}

impl View for Grid {
    type V = Seq<ScreenChar>;

    open spec fn view(&self) -> Seq<ScreenChar> {
        self.cells@
    }
}

impl Grid {
    /// A grid is well formed when it holds exactly one cell per position.
    pub open spec fn wf(self) -> bool {
        self@.len() == GRID_CELLS
    }

    /// Returns a grid of blank cells (spaces, black on black).
    pub fn new() -> (r: Grid)
        ensures
            r.wf(),
            forall|i: int| 0 <= i < GRID_CELLS ==> r@[i] == spec_blank_char(0),
    {
        let mut cells: Vec<ScreenChar> = Vec::new();
        let mut i: usize = 0;
        while i < GRID_CELLS
            invariant
                i <= GRID_CELLS,
                cells@.len() == i,
                forall|j: int| 0 <= j < i ==> cells@[j] == spec_blank_char(0),
            decreases GRID_CELLS - i,
        {
            proof {
                assert(((0u8 >> 4) << 4) | (0u8 >> 4) == 0u8) by (bit_vector);
                assert(spec_blank_char(0) == ScreenChar {
                    ascii_character: 0x20,
                    color_code: ColorCode(0),
                });
            }
            cells.push(ScreenChar { ascii_character: 0x20, color_code: ColorCode(0) });
            i += 1;
        }
        Grid { cells }
    }

    /// Reads one cell, as a single-cell load.
    pub fn cell_at(&self, i: usize) -> (r: ScreenChar)
        requires
            self.wf(),
            i < GRID_CELLS,
        ensures
            r == self@[i as int],
    {
        self.cells[i]
    }

    /// Writes one cell, as a single-cell store.
    pub fn set_at(&mut self, i: usize, ch: ScreenChar)
        requires
            old(self).wf(),
            i < GRID_CELLS,
        ensures
            final(self).wf(),
            final(self)@ == old(self)@.update(i as int, ch),
    {
        self.cells[i] = ch;
    }
}

/// The state a console channel sees: the shared grid's cells, the channel's
/// own cursor column, and its packed color.
#[verifier::ext_equal]
pub ghost struct ConsoleView {
    /// The grid cells in row-major order.
    pub cells: Seq<ScreenChar>,
    /// The channel's cursor column, between 0 and `BUFFER_WIDTH`.
    pub cursor: int,
    /// The channel's packed color byte.
    pub color: u8,
}

impl ConsoleView {
    /// Cell counts match the grid and the cursor stays inside the row.
    pub open spec fn wf(self) -> bool {
        &&& self.cells.len() == GRID_CELLS
        &&& 0 <= self.cursor <= BUFFER_WIDTH
    }

    /// The cell at `row`, `col`.
    pub open spec fn cell(self, row: int, col: int) -> ScreenChar {
        self.cells[row * (BUFFER_WIDTH as int) + col]
    }

    /// One scroll: every row moves up one position, the vacated bottom row is
    /// cleared in the channel's background color, and the cursor returns to
    /// column 0.
    pub open spec fn scroll(self) -> ConsoleView {
        ConsoleView {
            cells: Seq::new(
                GRID_CELLS as nat,
                |i: int|
                    if i < GRID_CELLS - BUFFER_WIDTH {
                        self.cells[i + BUFFER_WIDTH]
                    } else {
                        spec_blank_char(self.color)
                    },
            ),
            cursor: 0,
            color: self.color,
        }
    }

    /// Placing one glyph at the cursor on the bottom row, advancing the cursor.
    pub open spec fn place(self, b: u8) -> ConsoleView {
        ConsoleView {
            cells: self.cells.update(
                (BUFFER_HEIGHT - 1) as int * (BUFFER_WIDTH as int) + self.cursor,
                ScreenChar { ascii_character: b, color_code: ColorCode(self.color) },
            ),
            cursor: self.cursor + 1,
            color: self.color,
        }
    }

    /// The effect of writing one raw byte: a newline scrolls; any other byte
    /// is placed on the bottom row, after a scroll if the row is already full.
    pub open spec fn write_byte(self, b: u8) -> ConsoleView {
        if b == 10 {
            self.scroll()
        } else if self.cursor >= BUFFER_WIDTH {
            self.scroll().place(b)
        } else {
            self.place(b)
        }
    }

    /// The effect of writing a whole byte string, sanitizing each byte.
    pub open spec fn write_bytes(self, s: Seq<u8>) -> ConsoleView
        decreases s.len(),
    {
        if s.len() == 0 {
            self
        } else {
            self.write_byte(spec_sanitize(s[0])).write_bytes(s.drop_first())
        }
    }
}

/// Whether a byte is printable ASCII (newline excepted).
pub open spec fn spec_printable(b: u8) -> bool {
    0x20 <= b <= 0x7e
}

/// Text sanitization: printable bytes and newlines pass through; every other
/// byte becomes the placeholder glyph 0xFE, so device memory never receives a
/// raw control byte.
pub open spec fn spec_sanitize(b: u8) -> u8 {
    if spec_printable(b) || b == 10 {
        b
    } else {
        0xfe
    }
}

/// Appending one byte to a byte string appends one write step.
pub proof fn lemma_write_bytes_snoc(v: ConsoleView, s: Seq<u8>, b: u8)
    ensures
        v.write_bytes(s.push(b)) == v.write_bytes(s).write_byte(spec_sanitize(b)),
    decreases s.len(),
{
    if s.len() == 0 {
        assert(s.push(b)[0] == b);
        assert(s.push(b).drop_first() =~= Seq::<u8>::empty());
        assert(v.write_byte(spec_sanitize(b)).write_bytes(Seq::<u8>::empty()) == v.write_byte(
            spec_sanitize(b),
        ));
        assert(v.write_bytes(s.push(b)) == v.write_byte(spec_sanitize(b)));
        assert(v.write_bytes(s) == v);
    } else {
        assert(s.push(b)[0] == s[0]);
        assert(s.push(b).drop_first() =~= s.drop_first().push(b));
        assert(v.write_bytes(s.push(b)) == v.write_byte(spec_sanitize(s[0])).write_bytes(
            s.drop_first().push(b),
        ));
        lemma_write_bytes_snoc(v.write_byte(spec_sanitize(s[0])), s.drop_first(), b);
        assert(v.write_bytes(s) == v.write_byte(spec_sanitize(s[0])).write_bytes(s.drop_first()));
    }
}

/// Writing `k` printable bytes from column 0 fills the bottom row left to
/// right without scrolling: the cursor ends at `k` and nothing else changes.
pub proof fn lemma_fill_row(v: ConsoleView, s: Seq<u8>, k: int)
    requires
        v.wf(),
        v.cursor == 0,
        s.len() <= BUFFER_WIDTH,
        0 <= k <= s.len(),
        forall|i: int| 0 <= i < s.len() ==> spec_printable(#[trigger] s[i]),
    ensures
        ({
            let w = v.write_bytes(s.take(k));
            &&& w.color == v.color
            &&& w.cursor == k
            &&& w.cells.len() == GRID_CELLS
            &&& forall|j: int|
                GRID_CELLS - BUFFER_WIDTH <= j < GRID_CELLS - BUFFER_WIDTH + k
                    ==> #[trigger] w.cells[j] == ScreenChar {
                    ascii_character: s[j - (GRID_CELLS - BUFFER_WIDTH)],
                    color_code: ColorCode(v.color),
                }
            &&& forall|j: int|
                0 <= j < GRID_CELLS && !(GRID_CELLS - BUFFER_WIDTH <= j < GRID_CELLS
                    - BUFFER_WIDTH + k) ==> #[trigger] w.cells[j] == v.cells[j]
        }),
    decreases k,
{
    if k == 0 {
        assert(s.take(0) =~= Seq::<u8>::empty());
    } else {
        lemma_fill_row(v, s, k - 1);
        assert(s.take(k) =~= s.take(k - 1).push(s[k - 1]));
        lemma_write_bytes_snoc(v, s.take(k - 1), s[k - 1]);
        assert(spec_sanitize(s[k - 1]) == s[k - 1]);
    }
}

/// Wrap correctness: writing one full row of printable bytes and then one
/// more scrolls before the extra byte is placed, so the extra byte lands in
/// column 0, the cursor ends at 1, the full row is now one row up, and the
/// rest of the bottom row is blank.
pub proof fn lemma_wrap_at_width(v: ConsoleView, s: Seq<u8>)
    requires
        v.wf(),
        v.cursor == 0,
        s.len() == BUFFER_WIDTH + 1,
        forall|i: int| 0 <= i < s.len() ==> spec_printable(#[trigger] s[i]),
    ensures
        ({
            let w = v.write_bytes(s);
            &&& w.cursor == 1
            &&& w.cells[(GRID_CELLS - BUFFER_WIDTH) as int] == ScreenChar {
                ascii_character: s[BUFFER_WIDTH as int],
                color_code: ColorCode(v.color),
            }
            &&& forall|j: int|
                GRID_CELLS - 2 * BUFFER_WIDTH <= j < GRID_CELLS - BUFFER_WIDTH
                    ==> #[trigger] w.cells[j] == ScreenChar {
                    ascii_character: s[j - (GRID_CELLS - 2 * BUFFER_WIDTH)],
                    color_code: ColorCode(v.color),
                }
            &&& forall|j: int|
                GRID_CELLS - BUFFER_WIDTH < j < GRID_CELLS ==> #[trigger] w.cells[j]
                    == spec_blank_char(v.color)
        }),
{
    let row = s.take(BUFFER_WIDTH as int);
    assert(forall|i: int| 0 <= i < row.len() ==> spec_printable(#[trigger] row[i]));
    lemma_fill_row(v, row, BUFFER_WIDTH as int);
    assert(row.take(BUFFER_WIDTH as int) =~= row);
    let w80 = v.write_bytes(row);
    assert(s =~= row.push(s[BUFFER_WIDTH as int]));
    lemma_write_bytes_snoc(v, row, s[BUFFER_WIDTH as int]);
    assert(spec_sanitize(s[BUFFER_WIDTH as int]) == s[BUFFER_WIDTH as int]);
    assert(v.write_bytes(s) == w80.scroll().place(s[BUFFER_WIDTH as int]));
}

/// Sanitization: a non-printable byte other than newline is stored as the
/// placeholder glyph 0xFE with the channel's current color, never raw.
pub proof fn lemma_nonprintable_sanitized(v: ConsoleView, b: u8)
    requires
        v.wf(),
        !spec_printable(b),
        b != 10,
    ensures
        ({
            let w = v.write_bytes(seq![b]);
            let col = if v.cursor >= BUFFER_WIDTH { 0int } else { v.cursor };
            &&& w.cursor == col + 1
            &&& w.cells[GRID_CELLS - BUFFER_WIDTH + col] == ScreenChar {
                ascii_character: 0xfe,
                color_code: ColorCode(v.color),
            }
        }),
{
    assert(seq![b].drop_first() =~= Seq::<u8>::empty());
    assert(v.write_byte(0xfe).write_bytes(Seq::<u8>::empty()) == v.write_byte(0xfe));
    assert(v.write_bytes(seq![b]) == v.write_byte(0xfe));
}

/// The effect of writing each line in turn, each followed by a newline.
pub open spec fn spec_write_lines(v: ConsoleView, lines: Seq<Seq<u8>>) -> ConsoleView
    decreases lines.len(),
{
    if lines.len() == 0 {
        v
    } else {
        spec_write_lines(v.write_bytes(lines[0].push(10)), lines.drop_first())
    }
}

/// Whether every line is shorter than the row and made of printable bytes.
pub open spec fn spec_plain_lines(lines: Seq<Seq<u8>>) -> bool {
    forall|k: int|
        0 <= k < lines.len() ==> (#[trigger] lines[k]).len() < BUFFER_WIDTH && (forall|i: int|
            0 <= i < lines[k].len() ==> spec_printable(#[trigger] lines[k][i]))
}

/// Writing one short printable line and a newline from column 0: every row
/// moves up one position, the written line lands in the next-to-bottom row
/// padded by what stood below it, the bottom row is cleared, and the cursor
/// returns to column 0.
pub proof fn lemma_write_one_line(v: ConsoleView, l: Seq<u8>)
    requires
        v.wf(),
        v.cursor == 0,
        l.len() < BUFFER_WIDTH,
        forall|i: int| 0 <= i < l.len() ==> spec_printable(#[trigger] l[i]),
    ensures
        ({
            let w = v.write_bytes(l.push(10));
            &&& w.wf()
            &&& w.cursor == 0
            &&& w.color == v.color
            &&& forall|j: int|
                0 <= j < GRID_CELLS - 2 * BUFFER_WIDTH ==> #[trigger] w.cells[j] == v.cells[j
                    + BUFFER_WIDTH]
            &&& forall|j: int|
                GRID_CELLS - 2 * BUFFER_WIDTH <= j < GRID_CELLS - 2 * BUFFER_WIDTH + l.len()
                    ==> #[trigger] w.cells[j] == ScreenChar {
                    ascii_character: l[j - (GRID_CELLS - 2 * BUFFER_WIDTH)],
                    color_code: ColorCode(v.color),
                }
            &&& forall|j: int|
                GRID_CELLS - 2 * BUFFER_WIDTH + l.len() <= j < GRID_CELLS - BUFFER_WIDTH
                    ==> #[trigger] w.cells[j] == v.cells[j + BUFFER_WIDTH]
            &&& forall|j: int|
                GRID_CELLS - BUFFER_WIDTH <= j < GRID_CELLS ==> #[trigger] w.cells[j]
                    == spec_blank_char(v.color)
        }),
{
    lemma_fill_row(v, l, l.len() as int);
    assert(l.take(l.len() as int) =~= l);
    lemma_write_bytes_snoc(v, l, 10);
    assert(spec_sanitize(10) == 10);
}

/// The cell a grid position is expected to hold after `lines` have been
/// written: the bottom row is blank, the rows above it hold the most recent
/// lines bottom-up (each padded with blanks), and any rows older than that
/// hold the starting contents shifted up by one row per line written.
pub open spec fn spec_history_cell(v: ConsoleView, lines: Seq<Seq<u8>>, i: int) -> ScreenChar {
    let n = lines.len() as int;
    let r = i / (BUFFER_WIDTH as int);
    let c = i % (BUFFER_WIDTH as int);
    let k = (BUFFER_HEIGHT - 2) - r;
    if r >= BUFFER_HEIGHT - 1 {
        spec_blank_char(v.color)
    } else if k < n {
        if c < lines[n - 1 - k].len() {
            ScreenChar { ascii_character: lines[n - 1 - k][c], color_code: ColorCode(v.color) }
        } else {
            spec_blank_char(v.color)
        }
    } else {
        v.cells[i + n * (BUFFER_WIDTH as int)]
    }
}

/// Scroll correctness: after newline-terminated lines are written from a
/// state whose bottom row is blank, the grid holds the most recent lines in
/// order in the rows above the bottom row — exactly the last `BUFFER_HEIGHT
/// - 1` of them once more than that many were written — the bottom row is
/// blank in the channel's background color, and older rows hold the starting
/// contents shifted up.
pub proof fn lemma_scroll_history(v: ConsoleView, lines: Seq<Seq<u8>>)
    requires
        v.wf(),
        v.cursor == 0,
        spec_plain_lines(lines),
        forall|j: int|
            GRID_CELLS - BUFFER_WIDTH <= j < GRID_CELLS ==> #[trigger] v.cells[j]
                == spec_blank_char(v.color),
    ensures
        ({
            let w = spec_write_lines(v, lines);
            &&& w.wf()
            &&& w.cursor == 0
            &&& w.color == v.color
            &&& forall|i: int|
                0 <= i < GRID_CELLS ==> #[trigger] w.cells[i] == spec_history_cell(v, lines, i)
        }),
    decreases lines.len(),
{
    let w = spec_write_lines(v, lines);
    let n = lines.len() as int;
    let wd = BUFFER_WIDTH as int;
    if n == 0 {
        assert forall|i: int| 0 <= i < GRID_CELLS implies #[trigger] w.cells[i]
            == spec_history_cell(v, lines, i) by {
            vstd::arithmetic::div_mod::lemma_fundamental_div_mod(i, wd);
        }
    } else {
        lemma_write_one_line(v, lines[0]);
        let v1 = v.write_bytes(lines[0].push(10));
        let rest = lines.drop_first();
        assert(spec_plain_lines(rest));
        lemma_scroll_history(v1, rest);
        assert(w == spec_write_lines(v1, rest));
        assert forall|i: int| 0 <= i < GRID_CELLS implies #[trigger] w.cells[i]
            == spec_history_cell(v, lines, i) by {
            vstd::arithmetic::div_mod::lemma_fundamental_div_mod(i, wd);
            let r = i / wd;
            let c = i % wd;
            let k = (BUFFER_HEIGHT - 2) - r;
            assert(w.cells[i] == spec_history_cell(v1, rest, i));
            if r >= BUFFER_HEIGHT - 1 {
            } else if k < n - 1 {
                assert(rest[n - 2 - k] == lines[n - 1 - k]);
            } else {
                let i1 = i + (n - 1) * wd;
                vstd::arithmetic::div_mod::lemma_fundamental_div_mod(i1, wd);
                assert(i1 / wd == r + n - 1) by {
                    vstd::arithmetic::div_mod::lemma_hoist_over_denominator(
                        i,
                        n - 1,
                        BUFFER_WIDTH as nat,
                    );
                };
                assert(i1 % wd == c) by {
                    vstd::arithmetic::div_mod::lemma_mod_multiples_vanish(n - 1, i, wd);
                };
                if k == n - 1 {
                    assert(r + n - 1 == BUFFER_HEIGHT - 2);
                    assert(GRID_CELLS - 2 * BUFFER_WIDTH <= i1 < GRID_CELLS - BUFFER_WIDTH);
                    assert(i1 - (GRID_CELLS - 2 * BUFFER_WIDTH) == c);
                } else {
                    assert(r + n - 1 < BUFFER_HEIGHT - 2);
                    assert(0 <= i1 < GRID_CELLS - 2 * BUFFER_WIDTH);
                    assert(v1.cells[i1] == v.cells[i1 + wd]);
                }
            }
        }
    }
}

/// One color-tagged cursor writing into the shared grid.  A writer owns its
/// cursor and color only; the grid is passed in, because every channel
/// aliases the one hardware grid.
#[derive(Debug)]
pub struct Writer {
    /// The column the next glyph goes to, between 0 and `BUFFER_WIDTH`.
    pub column_position: usize,
    /// The channel's packed color.
    pub color_code: ColorCode,
}

impl Writer {
    /// The cursor never leaves the row.
    pub open spec fn wf(self) -> bool {
        self.column_position <= BUFFER_WIDTH
    }

    /// The channel state this writer and the given grid form together.
    pub open spec fn state(self, grid: Grid) -> ConsoleView {
        ConsoleView {
            cells: grid@,
            cursor: self.column_position as int,
            color: self.color_code.0,
        }
    }

    /// Returns a writer at column 0 with the packed form of the given colors.
    pub fn new(foreground: Color, background: Color) -> (r: Writer)
        ensures
            r.wf(),
            r.column_position == 0,
            r.color_code.0 == (background.spec_code() << 4) | foreground.spec_code(),
    {
        Writer { column_position: 0, color_code: ColorCode::new(foreground, background) }
    }

    /// Clears one row to spaces in the channel's background color.
    pub fn clear_row(&self, grid: &mut Grid, row: usize)
        requires
            old(grid).wf(),
            row < BUFFER_HEIGHT,
        ensures
            final(grid).wf(),
            forall|j: int|
                row * BUFFER_WIDTH <= j < row * BUFFER_WIDTH + BUFFER_WIDTH ==> final(grid)@[j]
                    == spec_blank_char(self.color_code.0),
            forall|j: int|
                0 <= j < GRID_CELLS && !(row * BUFFER_WIDTH <= j < row * BUFFER_WIDTH
                    + BUFFER_WIDTH) ==> final(grid)@[j] == old(grid)@[j],
    {
        let bg = self.color_code.0 >> 4;
        let blank = ScreenChar { ascii_character: 0x20, color_code: ColorCode((bg << 4) | bg) };
        let mut col: usize = 0;
        while col < BUFFER_WIDTH
            invariant
                old(grid).wf(),
                grid.wf(),
                col <= BUFFER_WIDTH,
                row < BUFFER_HEIGHT,
                blank == spec_blank_char(self.color_code.0),
                forall|j: int|
                    row * BUFFER_WIDTH <= j < row * BUFFER_WIDTH + col ==> grid@[j]
                        == spec_blank_char(self.color_code.0),
                forall|j: int|
                    0 <= j < GRID_CELLS && !(row * BUFFER_WIDTH <= j < row * BUFFER_WIDTH
                        + col) ==> grid@[j] == old(grid)@[j],
            decreases BUFFER_WIDTH - col,
        {
            grid.set_at(row * BUFFER_WIDTH + col, blank);
            col += 1;
        }
    }

    /// Scrolls the grid: each cell of every row but the first is re-read and
    /// re-written one position up, one cell at a time; the bottom row is
    /// cleared in the channel's background color; the cursor returns to
    /// column 0.
    pub fn new_line(&mut self, grid: &mut Grid)
        requires
            old(self).wf(),
            old(grid).wf(),
        ensures
            final(self).wf(),
            final(grid).wf(),
            final(self).state(*final(grid)) == old(self).state(*old(grid)).scroll(),
            final(self).color_code == old(self).color_code,
    {
        let mut i: usize = 0;
        while i < GRID_CELLS - BUFFER_WIDTH
            invariant
                old(grid).wf(),
                grid.wf(),
                i <= GRID_CELLS - BUFFER_WIDTH,
                *self == *old(self),
                forall|j: int| 0 <= j < i ==> grid@[j] == old(grid)@[j + BUFFER_WIDTH],
                forall|j: int| i <= j < GRID_CELLS ==> grid@[j] == old(grid)@[j],
            decreases GRID_CELLS - BUFFER_WIDTH - i,
        {
            let ch = grid.cell_at(i + BUFFER_WIDTH);
            grid.set_at(i, ch);
            i += 1;
        }
        self.clear_row(grid, BUFFER_HEIGHT - 1);
        self.column_position = 0;
        proof {
            assert(self.state(*grid).cells =~= old(self).state(*old(grid)).scroll().cells);
            assert(self.state(*grid) =~= old(self).state(*old(grid)).scroll());
        }
    }

    /// Writes one raw byte: a newline scrolls; any other byte is placed at
    /// the cursor on the bottom row with the channel's color, after a scroll
    /// when the row is already full.
    pub fn write_byte(&mut self, grid: &mut Grid, byte: u8)
        requires
            old(self).wf(),
            old(grid).wf(),
        ensures
            final(self).wf(),
            final(grid).wf(),
            final(self).state(*final(grid)) == old(self).state(*old(grid)).write_byte(byte),
            final(self).color_code == old(self).color_code,
    {
        if byte == 10 {
            self.new_line(grid);
        } else {
            if self.column_position >= BUFFER_WIDTH {
                self.new_line(grid);
            }
            let col = self.column_position;
            grid.set_at(
                (BUFFER_HEIGHT - 1) * BUFFER_WIDTH + col,
                ScreenChar { ascii_character: byte, color_code: self.color_code },
            );
            self.column_position = col + 1;
            proof {
                assert(self.state(*grid) =~= old(self).state(*old(grid)).write_byte(byte));
            }
        }
    }

    /// Writes a byte string: each byte is sanitized and then written in turn.
    pub fn write_string(&mut self, grid: &mut Grid, s: &[u8])
        requires
            old(self).wf(),
            old(grid).wf(),
        ensures
            final(self).wf(),
            final(grid).wf(),
            final(self).state(*final(grid)) == old(self).state(*old(grid)).write_bytes(s@),
            final(self).color_code == old(self).color_code,
    {
        let ghost start = old(self).state(*old(grid));
        let mut k: usize = 0;
        while k < s.len()
            invariant
                self.wf(),
                grid.wf(),
                k <= s@.len(),
                self.state(*grid) == start.write_bytes(s@.take(k as int)),
                self.color_code == old(self).color_code,
            decreases s@.len() - k,
        {
            let byte = s[k];
            let glyph = if (0x20 <= byte && byte <= 0x7e) || byte == 10 {
                byte
            } else {
                0xfe
            };
            proof {
                assert(glyph == spec_sanitize(s@[k as int]));
                assert(s@.take(k + 1) =~= s@.take(k as int).push(s@[k as int]));
                lemma_write_bytes_snoc(start, s@.take(k as int), s@[k as int]);
            }
            self.write_byte(grid, glyph);
            k += 1;
        }
        proof {
            assert(s@.take(k as int) =~= s@);
        }
    }
}

} // verus!
