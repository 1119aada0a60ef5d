use vstd::prelude::*;

use vstd::arithmetic::div_mod::{
    lemma_add_mod_noop_right, lemma_fundamental_div_mod_converse, lemma_mod_add_multiples_vanish,
    lemma_small_mod,
};

use crate::bus::{Bus, Signal, Transfer};
use crate::command::Command;
use crate::direct::{data_transfers, ddram_address, flags_command, text_bytes, DirectLcd, DisplayFlags};
use crate::error::Error;
use crate::point::Point;
use crate::Lcd;

verus! {

/// Code of the blank character that fills a cleared buffer.
pub const BLANK: u8 = 0x20;

/// Row-major position of cell `p` in a grid `dims.x` cells wide.
pub open spec fn cell_index(p: Point, dims: Point) -> int {
    p.y * dims.x + p.x
}

/// Where the buffered cursor goes after printing at `p`: one cell right, to
/// the start of the next line at the end of a line, and back to `(0, 0)`
/// after the last cell.
pub open spec fn next_cursor(p: Point, dims: Point) -> Point {
    if p.x + 1 < dims.x {
        Point { x: (p.x + 1) as u8, y: p.y }
    } else if p.y + 1 < dims.y {
        Point { x: 0, y: (p.y + 1) as u8 }
    } else {
        Point { x: 0, y: 0 }
    }
}

/// The line below `y`, or the first line after the last.
pub open spec fn next_line(y: u8, dims: Point) -> u8 {
    if y + 1 < dims.y {
        (y + 1) as u8
    } else {
        0
    }
}

/// The cursor after `n` characters printed from `p`.
pub open spec fn advance(p: Point, dims: Point, n: nat) -> Point
    decreases n,
{
    if n == 0 {
        p
    } else {
        next_cursor(advance(p, dims, (n - 1) as nat), dims)
    }
}

/// Grid and cursor after printing `bytes` from the given grid and cursor.
pub open spec fn put_bytes(cells: Seq<u8>, cursor: Point, dims: Point, bytes: Seq<u8>) -> (
    Seq<u8>,
    Point,
)
    decreases bytes.len(),
{
    if bytes.len() == 0 {
        (cells, cursor)
    } else {
        let (c, p) = put_bytes(cells, cursor, dims, bytes.drop_last());
        (c.update(cell_index(p, dims), bytes.last()), next_cursor(p, dims))
    }
}

/// What rendering sends for line `y`: a move to its first cell, then its
/// cells as data.
pub open spec fn row_transfers(cells: Seq<u8>, width: nat, y: nat) -> Seq<Transfer> {
    (Command::SetDDRamAddress { address: ddram_address(Point { x: 0, y: y as u8 }) }).transfers()
        + data_transfers(cells.subrange((y * width) as int, (y * width + width) as int))
}

/// What rendering sends for the first `rows` lines, top to bottom.
pub open spec fn render_transfers(cells: Seq<u8>, width: nat, rows: nat) -> Seq<Transfer>
    decreases rows,
{
    if rows == 0 {
        Seq::empty()
    } else {
        render_transfers(cells, width, (rows - 1) as nat) + row_transfers(
            cells,
            width,
            (rows - 1) as nat,
        )
    }
}

/// The buffered frontend: text goes to an in-memory grid, and `render`
/// repaints the whole screen from it. Other settings pass straight through.
pub struct BufferedLcd<B: Bus> {
    lcd: DirectLcd<B>,
    cursor: Point,
    cells: Vec<u8>,
    width: usize,
    height: usize,
}

impl<B: Bus> BufferedLcd<B> {
    pub closed spec fn history(&self) -> Seq<Transfer> {
        self.lcd.history()
    }

    pub closed spec fn pending(&self) -> Seq<Signal> {
        self.lcd.pending()
    }

    pub closed spec fn flags(&self) -> DisplayFlags {
        self.lcd.flags()
    }

    /// The grid, row-major, `dims().x` cells per line.
    pub closed spec fn cells(&self) -> Seq<u8> {
        self.cells@
    }

    pub closed spec fn cursor(&self) -> Point {
        self.cursor
    }

    /// The bus, with every transfer made so far.
    pub closed spec fn bus(&self) -> B {
        self.lcd.bus()
    }

    /// A well-formed buffered frontend has a grid of `dims().x * dims().y`
    /// cells, its cursor on the screen, and a faithful bus whose transfers and
    /// pending signals are the frontend's.
    pub proof fn lemma_wf(&self)
        requires
            self.wf(),
        ensures
            self.cells().len() == self.dims().x * self.dims().y,
            self.cursor().inside(self.dims()),
            self.bus().faithful(),
            self.history() == self.bus().history(),
            self.pending() == self.bus().pending(),
    {
        self.lcd.lemma_wf();
    }

    /// Wraps a direct frontend with a blank grid of its size and the cursor at `(0, 0)`.
    pub fn new(lcd: DirectLcd<B>) -> (r: Self)
        requires
            lcd.wf(),
        ensures
            r.wf(),
            r.dims() == lcd.dims(),
            r.history() == lcd.history(),
            r.flags() == lcd.flags(),
            r.cells() == Seq::new((lcd.dims().x * lcd.dims().y) as nat, |i: int| BLANK),
            r.cursor() == (Point { x: 0, y: 0 }),
    {
        proof {
            lcd.lemma_wf();
        }
        let dims = lcd.dimensions();
        let width = dims.x as usize;
        let height = dims.y as usize;
        proof {
            lemma_cell_in_range(0, 0, width as int, height as int);
        }
        let n = width * height;
        let mut cells: Vec<u8> = Vec::new();
        let mut i: usize = 0;
        while i < n
            invariant
                0 <= i <= n,
                cells@ == Seq::new(i as nat, |k: int| BLANK),
            decreases n - i,
        {
            cells.push(BLANK);
            i = i + 1;
            proof {
                assert(cells@ =~= Seq::new(i as nat, |k: int| BLANK));
            }
        }
        BufferedLcd { lcd, cursor: Point { x: 0, y: 0 }, cells, width, height }
    }

    /// Repaints the screen from the grid: for each line, top to bottom, a move
    /// to its first cell and then every cell as data.
    pub fn render(&mut self) -> (r: Result<(), Error>)
        requires
            old(self).wf(),
        ensures
            r is Ok,
            final(self).wf(),
            final(self).history() == old(self).history() + render_transfers(
                old(self).cells(),
                old(self).dims().x as nat,
                old(self).dims().y as nat,
            ),
            final(self).cells() == old(self).cells(),
            final(self).cursor() == old(self).cursor(),
            final(self).flags() == old(self).flags(),
            final(self).dims() == old(self).dims(),
    {
        proof {
            self.lcd.lemma_wf();
        }
        let width = self.width;
        let height = self.height;
        let ghost cells = self.cells@;
        let mut y: usize = 0;
        while y < height
            invariant
                self.wf(),
                width == self.dims().x,
                height == self.dims().y,
                0 <= y <= height,
                self.cells@ == cells,
                width <= 40,
                height <= 4,
                self.cursor == old(self).cursor,
                self.lcd.flags() == old(self).lcd.flags(),
                self.dims() == old(self).dims(),
                self.history() == old(self).history() + render_transfers(
                    cells,
                    width as nat,
                    y as nat,
                ),
            decreases height - y,
        {
            proof {
                self.lcd.lemma_wf();
                lemma_cell_in_range(0, y as int, width as int, height as int);
            }
            let ghost row_begin = self.history();
            self.lcd.goto(Point { x: 0, y: y as u8 })?;
            let mut x: usize = 0;
            while x < width
                invariant
                    self.lcd.wf(),
                    self.lcd.dims() == old(self).dims(),
                    width == self.dims().x,
                    height == self.dims().y,
                    y < height,
                    0 <= x <= width,
                    self.cells@ == cells,
                    cells.len() == width * height,
                    width <= 40,
                    height <= 4,
                    self.cursor == old(self).cursor,
                    self.width == width,
                    self.height == height,
                    self.lcd.flags() == old(self).lcd.flags(),
                    self.history() == row_begin + (Command::SetDDRamAddress {
                        address: ddram_address(Point { x: 0, y: y as u8 }),
                    }).transfers() + data_transfers(
                        cells.subrange((y * width) as int, (y * width + x) as int),
                    ),
                decreases width - x,
            {
                proof {
                    lemma_cell_in_range(x as int, y as int, width as int, height as int);
                }
                let ch = self.cells[y * width + x];
                self.lcd.print_char(ch)?;
                proof {
                    let row = y * width;
                    assert(cells.subrange(row as int, (row + x + 1) as int) =~= cells.subrange(
                        row as int,
                        (row + x) as int,
                    ).push(ch));
                    assert(data_transfers(cells.subrange(row as int, (row + x + 1) as int))
                        =~= data_transfers(cells.subrange(row as int, (row + x) as int)).push(
                        Transfer::Byte { value: ch, as_data: true },
                    ));
                }
                x = x + 1;
            }
            proof {
                assert(render_transfers(cells, width as nat, (y + 1) as nat) == render_transfers(
                    cells,
                    width as nat,
                    y as nat,
                ) + row_transfers(cells, width as nat, y as nat));
                assert(self.history() =~= old(self).history() + render_transfers(
                    cells,
                    width as nat,
                    (y + 1) as nat,
                ));
            }
            y = y + 1;
        }
        Ok(())
    }

    /// Prints `text` at the cursor, then moves the cursor to the start of the
    /// next line (the first line after the last).
    pub fn println(&mut self, text: &str) -> (r: Result<(), Error>)
        requires
            old(self).wf(),
        ensures
            r is Ok,
            final(self).wf(),
            final(self).dims() == old(self).dims(),
            final(self).cells() == put_bytes(
                old(self).cells(),
                old(self).cursor(),
                old(self).dims(),
                text_bytes(text@),
            ).0,
            final(self).cursor() == (Point {
                x: 0,
                y: next_line(
                    put_bytes(
                        old(self).cells(),
                        old(self).cursor(),
                        old(self).dims(),
                        text_bytes(text@),
                    ).1.y,
                    old(self).dims(),
                ),
            }),
            final(self).history() == old(self).history(),
            final(self).flags() == old(self).flags(),
    {
        self.print(text)?;
        let y = if self.cursor.y as usize + 1 < self.height {
            self.cursor.y + 1
        } else {
            0
        };
        self.cursor = Point { x: 0, y };
        Ok(())
    }

    /// Hands out the physical signals produced so far, for the hardware to perform.
    pub fn take_signals(&mut self) -> (r: Vec<Signal>)
        requires
            old(self).wf(),
        ensures
            r@ == old(self).pending(),
            final(self).wf(),
            final(self).pending() == Seq::<Signal>::empty(),
            final(self).history() == old(self).history(),
            final(self).cells() == old(self).cells(),
            final(self).cursor() == old(self).cursor(),
            final(self).flags() == old(self).flags(),
            final(self).dims() == old(self).dims(),
    {
        self.lcd.take_signals()
    }
}


impl<B: Bus> Lcd for BufferedLcd<B> {
    closed spec fn dims(&self) -> Point {
        self.lcd.dims()
    }

    closed spec fn wf(&self) -> bool {
        &&& self.lcd.wf()
        &&& self.width == self.lcd.dims().x
        &&& self.height == self.lcd.dims().y
        &&& self.cells@.len() == self.width * self.height
        &&& self.cursor.inside(self.lcd.dims())
    }

    /// Blanks the grid and moves the cursor to `(0, 0)`; the screen changes at
    /// the next render.
    fn clear(&mut self) -> (r: Result<(), Error>)
        ensures
            r is Ok,
            final(self).cells() == Seq::new(
                (old(self).dims().x * old(self).dims().y) as nat,
                |i: int| BLANK,
            ),
            final(self).cursor() == (Point { x: 0, y: 0 }),
            final(self).history() == old(self).history(),
            final(self).flags() == old(self).flags(),
    {
        let n = self.cells.len();
        let mut i: usize = 0;
        while i < n
            invariant
                0 <= i <= n,
                n == self.cells@.len(),
                self.lcd == old(self).lcd,
                self.width == old(self).width,
                self.height == old(self).height,
                self.cursor == old(self).cursor,
                forall|k: int| 0 <= k < i ==> self.cells@[k] == BLANK,
            decreases n - i,
        {
            self.cells.set(i, BLANK);
            i = i + 1;
        }
        self.cursor = Point { x: 0, y: 0 };
        proof {
            assert(self.cells@ =~= Seq::new(
                (old(self).dims().x * old(self).dims().y) as nat,
                |i: int| BLANK,
            ));
        }
        Ok(())
    }

    /// Moves the cursor to `(0, 0)`.
    fn home(&mut self) -> (r: Result<(), Error>)
        ensures
            r is Ok,
            final(self).cursor() == (Point { x: 0, y: 0 }),
            final(self).cells() == old(self).cells(),
            final(self).history() == old(self).history(),
            final(self).flags() == old(self).flags(),
    {
        self.cursor = Point { x: 0, y: 0 };
        Ok(())
    }

    fn goto(&mut self, p: Point) -> (r: Result<(), Error>)
        ensures
            p.inside(old(self).dims()) ==> final(self).cursor() == p,
            !p.inside(old(self).dims()) ==> *final(self) == *old(self),
            final(self).cells() == old(self).cells(),
            final(self).history() == old(self).history(),
            final(self).flags() == old(self).flags(),
    {
        let dimensions = self.lcd.dimensions();
        if !(p.x < dimensions.x && p.y < dimensions.y) {
            return Err(Error::CursorOutOfBounds { cursor: p, screen_dimensions: dimensions });
        }
        self.cursor = p;
        Ok(())
    }

    fn print(&mut self, text: &str) -> (r: Result<(), Error>)
        ensures
            r is Ok,
            (final(self).cells(), final(self).cursor()) == put_bytes(
                old(self).cells(),
                old(self).cursor(),
                old(self).dims(),
                text_bytes(text@),
            ),
            final(self).history() == old(self).history(),
            final(self).flags() == old(self).flags(),
    {
        let n = text.unicode_len();
        let mut i: usize = 0;
        while i < n
            invariant
                n == text@.len(),
                0 <= i <= n,
                self.wf(),
                self.dims() == old(self).dims(),
                (self.cells(), self.cursor()) == put_bytes(
                    old(self).cells(),
                    old(self).cursor(),
                    old(self).dims(),
                    text_bytes(text@.take(i as int)),
                ),
                self.history() == old(self).history(),
                self.flags() == old(self).flags(),
            decreases n - i,
        {
            let ch = text.get_char(i);
            self.print_char(ch as u8)?;
            proof {
                assert(text@.take(i + 1) =~= text@.take(i as int).push(ch));
                assert(text_bytes(text@.take(i + 1)).drop_last() =~= text_bytes(
                    text@.take(i as int),
                ));
            }
            i = i + 1;
        }
        proof {
            assert(text@.take(n as int) =~= text@);
        }
        Ok(())
    }

    /// Stores `ch` in the grid under the cursor and advances the cursor,
    /// wrapping at the end of a line and after the last line.
    fn print_char(&mut self, ch: u8) -> (r: Result<(), Error>)
        ensures
            r is Ok,
            final(self).cells() == old(self).cells().update(
                cell_index(old(self).cursor(), old(self).dims()),
                ch,
            ),
            final(self).cursor() == next_cursor(old(self).cursor(), old(self).dims()),
            final(self).history() == old(self).history(),
            final(self).flags() == old(self).flags(),
    {
        proof {
            self.lcd.lemma_wf();
            lemma_cell_in_range(
                self.cursor.x as int,
                self.cursor.y as int,
                self.width as int,
                self.height as int,
            );
        }
        let index = self.cursor.y as usize * self.width + self.cursor.x as usize;
        self.cells.set(index, ch);
        let next = if (self.cursor.x as usize) + 1 < self.width {
            Point { x: self.cursor.x + 1, y: self.cursor.y }
        } else if (self.cursor.y as usize) + 1 < self.height {
            Point { x: 0, y: self.cursor.y + 1 }
        } else {
            Point { x: 0, y: 0 }
        };
        self.cursor = next;
        Ok(())
    }

    /// Switches the backlight at once.
    fn enable_backlight(&mut self, enabled: bool) -> (r: Result<(), Error>)
        ensures
            r is Ok,
            final(self).history() == old(self).history().push(Transfer::Backlight { enabled }),
            final(self).cells() == old(self).cells(),
            final(self).cursor() == old(self).cursor(),
            final(self).flags() == old(self).flags(),
    {
        self.lcd.enable_backlight(enabled)
    }

    /// Switches box blinking at once.
    fn enable_cursor_box_blinking(&mut self, enabled: bool) -> (r: Result<(), Error>)
        ensures
            r is Ok,
            final(self).flags() == (DisplayFlags { cursor_blinking: enabled, ..old(self).flags() }),
            final(self).history() == old(self).history() + flags_command(
                final(self).flags(),
            ).transfers(),
            final(self).cells() == old(self).cells(),
            final(self).cursor() == old(self).cursor(),
    {
        self.lcd.enable_cursor_box_blinking(enabled)
    }

    /// Switches the underline cursor at once.
    fn enable_cursor_line_blinking(&mut self, enabled: bool) -> (r: Result<(), Error>)
        ensures
            r is Ok,
            final(self).flags() == (DisplayFlags { cursor_visible: enabled, ..old(self).flags() }),
            final(self).history() == old(self).history() + flags_command(
                final(self).flags(),
            ).transfers(),
            final(self).cells() == old(self).cells(),
            final(self).cursor() == old(self).cursor(),
    {
        self.lcd.enable_cursor_line_blinking(enabled)
    }

    /// Shows or hides the text at once.
    fn enable_text(&mut self, enabled: bool) -> (r: Result<(), Error>)
        ensures
            r is Ok,
            final(self).flags() == (DisplayFlags { text_visible: enabled, ..old(self).flags() }),
            final(self).history() == old(self).history() + flags_command(
                final(self).flags(),
            ).transfers(),
            final(self).cells() == old(self).cells(),
            final(self).cursor() == old(self).cursor(),
    {
        self.lcd.enable_text(enabled)
    }

    /// Defines a custom glyph at once.
    fn create_char(&mut self, index: u8, bitmap: [u8; 8]) -> (r: Result<(), Error>)
        ensures
            index <= 7 ==> final(self).history() == old(self).history() + (
            Command::SetCGRamAddress { index }).transfers() + data_transfers(bitmap@),
            index > 7 ==> *final(self) == *old(self),
            final(self).cells() == old(self).cells(),
            final(self).cursor() == old(self).cursor(),
            final(self).flags() == old(self).flags(),
    {
        self.lcd.create_char(index, bitmap)
    }

    fn dimensions(&self) -> (r: Point) {
        self.lcd.dimensions()
    }
}

proof fn lemma_next_cursor_index(p: Point, dims: Point)
    requires
        p.inside(dims),
    ensures
        next_cursor(p, dims).inside(dims),
        cell_index(next_cursor(p, dims), dims) == (cell_index(p, dims) + 1) % (dims.x * dims.y),
{
    let w = dims.x as int;
    let h = dims.y as int;
    let x = p.x as int;
    let y = p.y as int;
    let n = w * h;
    assert(n > 0 && 0 <= y * w + x < n) by (nonlinear_arith)
        requires
            0 <= x < w,
            0 <= y < h,
            n == w * h,
    ;
    if x + 1 < w {
        assert(y * w + x + 1 < n) by (nonlinear_arith)
            requires
                0 <= x,
                x + 1 < w,
                0 <= y < h,
                n == w * h,
        ;
        lemma_small_mod((y * w + x + 1) as nat, n as nat);
        assert(cell_index(next_cursor(p, dims), dims) == y * w + x + 1);
        assert((cell_index(p, dims) + 1) % (dims.x * dims.y) == y * w + x + 1);
    } else if y + 1 < h {
        assert((y + 1) * w == y * w + w && (y + 1) * w < n) by (nonlinear_arith)
            requires
                0 <= x < w,
                0 <= y,
                y + 1 < h,
                n == w * h,
        ;
        lemma_small_mod(((y + 1) * w) as nat, n as nat);
        assert(cell_index(next_cursor(p, dims), dims) == (y + 1) * w);
        assert((cell_index(p, dims) + 1) % (dims.x * dims.y) == (y + 1) * w);
    } else {
        assert(y * w + x + 1 == n) by (nonlinear_arith)
            requires
                x + 1 == w,
                y + 1 == h,
                n == w * h,
        ;
        lemma_fundamental_div_mod_converse(n, n, 1, 0);
        assert(next_cursor(p, dims) == Point { x: 0, y: 0 });
        assert(0 * w == 0) by (nonlinear_arith);
        assert(cell_index(next_cursor(p, dims), dims) == 0);
        assert((cell_index(p, dims) + 1) % (dims.x * dims.y) == 0);
    }
}

proof fn lemma_advance_index(p: Point, dims: Point, n: nat)
    requires
        p.inside(dims),
    ensures
        advance(p, dims, n).inside(dims),
        cell_index(advance(p, dims, n), dims) == (cell_index(p, dims) + n) % (dims.x * dims.y),
    decreases n,
{
    let cells = dims.x * dims.y;
    assert(cells > 0) by (nonlinear_arith)
        requires
            p.x < dims.x,
            p.y < dims.y,
            cells == dims.x * dims.y,
    ;
    if n == 0 {
        assert(0 <= cell_index(p, dims) < cells) by (nonlinear_arith)
            requires
                p.x < dims.x,
                p.y < dims.y,
                cells == dims.x * dims.y,
        ;
        lemma_small_mod(cell_index(p, dims) as nat, cells as nat);
    } else {
        let before = advance(p, dims, (n - 1) as nat);
        lemma_advance_index(p, dims, (n - 1) as nat);
        lemma_next_cursor_index(before, dims);
        lemma_add_mod_noop_right(1, cell_index(p, dims) + n - 1, cells as int);
    }
}

proof fn lemma_cell_index_injective(p: Point, q: Point, dims: Point)
    requires
        p.inside(dims),
        q.inside(dims),
        cell_index(p, dims) == cell_index(q, dims),
    ensures
        p == q,
{
    lemma_fundamental_div_mod_converse(cell_index(p, dims), dims.x as int, p.y as int, p.x as int);
    lemma_fundamental_div_mod_converse(cell_index(q, dims), dims.x as int, q.y as int, q.x as int);
}

/// The buffered cursor moves along the grid as a ring: after `n` printed
/// characters its row-major index is the start index plus `n`, modulo the
/// number of cells. After `width * height` characters it is back at its
/// start, and printing `width * height` more lands where `n` alone would.
pub proof fn lemma_cursor_ring(p: Point, dims: Point, n: nat)
    requires
        p.inside(dims),
    ensures
        advance(p, dims, n).inside(dims),
        cell_index(advance(p, dims, n), dims) == (cell_index(p, dims) + n) % (dims.x * dims.y),
        advance(p, dims, (dims.x * dims.y) as nat) == p,
        advance(p, dims, n + (dims.x * dims.y) as nat) == advance(p, dims, n),
{
    let cells = dims.x * dims.y;
    let start = cell_index(p, dims);
    assert(cells > 0 && 0 <= start < cells) by (nonlinear_arith)
        requires
            p.x < dims.x,
            p.y < dims.y,
            cells == dims.x * dims.y,
            start == p.y * dims.x + p.x,
    ;
    lemma_advance_index(p, dims, n);
    lemma_advance_index(p, dims, cells as nat);
    lemma_advance_index(p, dims, n + cells as nat);
    lemma_mod_add_multiples_vanish(start, cells as int);
    lemma_small_mod(start as nat, cells as nat);
    lemma_cell_index_injective(advance(p, dims, cells as nat), p, dims);
    lemma_mod_add_multiples_vanish(start + n, cells as int);
    lemma_cell_index_injective(advance(p, dims, n + cells as nat), advance(p, dims, n), dims);
}

/// Printing `bytes` moves the buffered cursor `bytes.len()` steps along the
/// ring of cells; a full screen of characters brings it back to its start.
pub proof fn lemma_print_wraps(cells: Seq<u8>, p: Point, dims: Point, bytes: Seq<u8>)
    requires
        p.inside(dims),
    ensures
        put_bytes(cells, p, dims, bytes).1 == advance(p, dims, bytes.len()),
        bytes.len() == dims.x * dims.y ==> put_bytes(cells, p, dims, bytes).1 == p,
    decreases bytes.len(),
{
    if bytes.len() > 0 {
        lemma_print_wraps(cells, p, dims, bytes.drop_last());
    }
    lemma_cursor_ring(p, dims, bytes.len());
}

proof fn lemma_render_len(cells: Seq<u8>, width: nat, rows: nat)
    requires
        cells.len() >= rows * width,
    ensures
        render_transfers(cells, width, rows).len() == rows * (width + 1),
    decreases rows,
{
    if rows > 0 {
        assert((rows - 1) * (width + 1) + (width + 1) == rows * (width + 1) && (rows - 1) * width
            + width == rows * width && (rows - 1) * width <= rows * width) by (nonlinear_arith)
            requires
                rows > 0,
        ;
        lemma_render_len(cells, width, (rows - 1) as nat);
        let y = (rows - 1) as nat;
        let sub = cells.subrange((y * width) as int, (y * width + width) as int);
        assert(sub.len() == width);
        assert(data_transfers(sub).len() == width);
        assert(row_transfers(cells, width, y).len() == width + 1);
        assert(render_transfers(cells, width, rows) == render_transfers(cells, width, y)
            + row_transfers(cells, width, y));
    } else {
        assert(rows * (width + 1) == 0) by (nonlinear_arith)
            requires
                rows == 0,
        ;
    }
}

proof fn lemma_render_index(cells: Seq<u8>, width: nat, rows: nat, y: nat, k: nat)
    requires
        cells.len() >= rows * width,
        y < rows,
        k <= width,
    ensures
        render_transfers(cells, width, rows)[(y * (width + 1) + k) as int] == row_transfers(
            cells,
            width,
            y,
        )[k as int],
    decreases rows,
{
    assert((rows - 1) * width <= rows * width && (rows - 1) * width + width == rows * width)
        by (nonlinear_arith)
        requires
            rows > 0,
    ;
    lemma_render_len(cells, width, (rows - 1) as nat);
    if y + 1 < rows {
        lemma_render_index(cells, width, (rows - 1) as nat, y, k);
        assert(y * (width + 1) + k < (rows - 1) * (width + 1)) by (nonlinear_arith)
            requires
                y + 1 < rows,
                k <= width,
        ;
    } else {
        assert(y * (width + 1) + k == (rows - 1) * (width + 1) + k);
    }
}

/// A character printed at `p` is what a render sends for that cell: in the
/// render stream the move to line `p.y` stands at `p.y * (width + 1)`, and
/// `p.x + 1` places after it comes `c` as data.
pub proof fn lemma_render_shows_printed_cell(cells: Seq<u8>, dims: Point, p: Point, c: u8)
    requires
        cells.len() == dims.x * dims.y,
        p.inside(dims),
    ensures
        ({
            let stream = render_transfers(
                cells.update(cell_index(p, dims), c),
                dims.x as nat,
                dims.y as nat,
            );
            &&& stream[p.y * (dims.x + 1)] == Transfer::Byte {
                value: 0x80 | ddram_address(Point { x: 0, y: p.y }),
                as_data: false,
            }
            &&& stream[p.y * (dims.x + 1) + p.x + 1] == Transfer::Byte { value: c, as_data: true }
        }),
{
    let w = dims.x as nat;
    let updated = cells.update(cell_index(p, dims), c);
    let row = p.y * w;
    assert(0 <= row + p.x < cells.len() && row + w <= cells.len()) by (nonlinear_arith)
        requires
            p.x < dims.x,
            p.y < dims.y,
            cells.len() == dims.x * dims.y,
            row == p.y * w,
            w == dims.x,
    ;
    assert(updated.len() >= dims.y * w) by (nonlinear_arith)
        requires
            updated.len() == dims.x * dims.y,
            w == dims.x,
    ;
    lemma_render_index(updated, w, dims.y as nat, p.y as nat, 0);
    lemma_render_index(updated, w, dims.y as nat, p.y as nat, (p.x + 1) as nat);
    let data = updated.subrange(row as int, (row + w) as int);
    assert(data[p.x as int] == c);
}

proof fn lemma_cell_in_range(x: int, y: int, width: int, height: int)
    requires
        0 <= x < width <= 40,
        0 <= y < height <= 4,
    ensures
        0 <= y * width + x < width * height,
        y * width + width <= width * height,
        width * height <= 160,
{
    assert(y * width + width <= width * height && 0 <= y * width && width * height <= 160)
        by (nonlinear_arith)
        requires
            0 <= x < width <= 40,
            0 <= y < height <= 4,
    ;
}

} // verus!
