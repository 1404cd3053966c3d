//! The cell-buffer renderer: a back buffer drawn into each frame, a front
//! buffer holding what the terminal shows, and a diff between the two.
use crate::errors::EngineError;
use vstd::arithmetic::div_mod::{lemma_fundamental_div_mod, lemma_fundamental_div_mod_converse};
use vstd::prelude::*;

verus! {

/// A terminal colour.
#[derive(Clone, Copy, Debug, PartialEq, Eq, Structural, Hash)]
pub enum Color {
    Reset,
    Black,
    DarkGrey,
    Red,
    DarkRed,
    Green,
    DarkGreen,
    Yellow,
    DarkYellow,
    Blue,
    DarkBlue,
    Magenta,
    DarkMagenta,
    Cyan,
    DarkCyan,
    White,
    Grey,
    Rgb { r: u8, g: u8, b: u8 },
    AnsiValue(u8),
}

/// A single character cell with foreground and background colours.
#[derive(Clone, Copy, Debug, PartialEq, Eq, Structural)]
pub struct Cell {
    pub ch: char,
    pub fg: Color,
    pub bg: Color,
}

impl Cell {
    pub open spec fn spec_blank() -> Cell {
        Cell { ch: ' ', fg: Color::Reset, bg: Color::Reset }
    }

    /// A space in the terminal's default colours.
    pub fn blank() -> (r: Cell)
        ensures
            r == Cell::spec_blank(),
    {
        Cell { ch: ' ', fg: Color::Reset, bg: Color::Reset }
    }
}

/// A cell to be redrawn at column `x`, row `y`.
#[derive(Clone, Copy, Debug, PartialEq, Eq, Structural)]
pub struct CellUpdate {
    pub x: u16,
    pub y: u16,
    pub cell: Cell,
}

/// What a renderer holds: its size and both buffers, row-major.
pub ghost struct RendererView {
    pub width: nat,
    pub height: nat,
    pub back: Seq<Cell>,
    pub front: Seq<Cell>,
}

/// Position in a row-major buffer of the given width of the cell at (x, y).
pub open spec fn cell_index(width: nat, x: nat, y: nat) -> nat {
    y * width + x
}

/// The update for the cell at buffer position `i`.
pub open spec fn update_at(back: Seq<Cell>, width: nat, i: int) -> CellUpdate {
    CellUpdate { x: (i % (width as int)) as u16, y: (i / (width as int)) as u16, cell: back[i] }
}

/// Updates for the first `n` positions where `back` differs from `front`,
/// in buffer order.
pub open spec fn diff_prefix(back: Seq<Cell>, front: Seq<Cell>, width: nat, n: nat) -> Seq<CellUpdate>
    decreases n,
{
    if n == 0 {
        Seq::empty()
    } else {
        let rest = diff_prefix(back, front, width, (n - 1) as nat);
        if back[n - 1] != front[n - 1] {
            rest.push(update_at(back, width, n - 1))
        } else {
            rest
        }
    }
}

/// Every cell of the back buffer that differs from the front buffer, in
/// buffer order.
pub open spec fn changes(v: RendererView) -> Seq<CellUpdate> {
    diff_prefix(v.back, v.front, v.width, v.back.len())
}

/// The cell at position `j` after writing `text` from column `x` of row `y`:
/// the character whose column it is, or what was there before.
pub open spec fn painted_cell(
    back: Seq<Cell>,
    width: nat,
    x: nat,
    y: nat,
    text: Seq<char>,
    fg: Color,
    bg: Color,
    j: int,
) -> Cell {
    let col = j % (width as int);
    if j / (width as int) == y && x <= col < x + text.len() {
        Cell { ch: text[col - x], fg, bg }
    } else {
        back[j]
    }
}

/// The buffer after writing `text` from column `x` of row `y`, one character
/// per column, dropping every character that falls outside the buffer.
pub open spec fn painted(
    back: Seq<Cell>,
    width: nat,
    x: nat,
    y: nat,
    text: Seq<char>,
    fg: Color,
    bg: Color,
) -> Seq<Cell> {
    Seq::new(back.len(), |j: int| painted_cell(back, width, x, y, text, fg, bg, j))
}

/// Drawing operations offered to the code that renders a frame.
pub trait Renderer {
    /// Resets the back buffer to blank cells.
    fn clear(&mut self) -> Result<(), EngineError>;

    /// Writes one cell at (x, y) of the back buffer.
    fn draw_cell(&mut self, x: u16, y: u16, cell: Cell) -> Result<(), EngineError>;

    /// Writes a string from (x, y) onwards, skipping what does not fit.
    fn draw_str(&mut self, x: u16, y: u16, text: &str, fg: Color, bg: Color) -> Result<(), EngineError>;

    /// Makes the front buffer match the back buffer and returns the cells to
    /// redraw on the terminal.
    fn flush(&mut self) -> Vec<CellUpdate>;
}

/// A renderer that keeps a back and a front buffer of `width * height` cells.
pub struct BasicRenderer {
    width: u16,
    height: u16,
    back_buffer: Vec<Cell>,
    front_buffer: Vec<Cell>,
}

impl View for BasicRenderer {
    type V = RendererView;

    closed spec fn view(&self) -> RendererView {
        RendererView {
            width: self.width as nat,
            height: self.height as nat,
            back: self.back_buffer@,
            front: self.front_buffer@,
        }
    }
}

/// Facts about a position below `width * height` in a row-major buffer.
pub(crate) proof fn lemma_position(i: int, width: int, height: int)
    requires
        0 <= i < width * height,
        0 <= height,
    ensures
        width > 0,
        0 <= i % width < width,
        0 <= i / width < height,
        i == width * (i / width) + i % width,
        (i / width) * width + i % width == i,
{
    if width <= 0 {
        assert(width * height <= 0) by (nonlinear_arith)
            requires
                width <= 0,
                height >= 0,
        ;
    }
    lemma_fundamental_div_mod(i, width);
    let q = i / width;
    let r = i % width;
    assert(q < height) by (nonlinear_arith)
        requires
            i == width * q + r,
            0 <= r,
            i < width * height,
            width > 0,
    ;
    assert(0 <= q) by (nonlinear_arith)
        requires
            i == width * q + r,
            r < width,
            i >= 0,
            width > 0,
    ;
    assert((i / width) * width == width * (i / width)) by (nonlinear_arith);
}

/// Writing character `k` of `text` at its column extends the painted prefix
/// by one character.
proof fn lemma_paint_one_more(
    back: Seq<Cell>,
    width: nat,
    height: nat,
    x: nat,
    y: nat,
    text: Seq<char>,
    k: nat,
    ch: char,
    fg: Color,
    bg: Color,
)
    requires
        back.len() == width * height,
        k < text.len(),
        ch == text[k as int],
        x + k < width,
        y < height,
    ensures
        painted(back, width, x, y, text.take(k + 1int), fg, bg) == painted(back, width, x, y, text.take(k as int), fg, bg).update(
            (y * width + x + k) as int,
            Cell { ch, fg, bg },
        ),
{
    let w = width as int;
    let idx = y * width + x + k;
    let before = painted(back, width, x, y, text.take(k as int), fg, bg);
    let after = painted(back, width, x, y, text.take(k + 1int), fg, bg);
    lemma_fundamental_div_mod_converse(idx as int, w, y as int, (x + k) as int);
    assert(idx < width * height) by (nonlinear_arith)
        requires
            idx == y * width + x + k,
            x + k < width,
            y < height,
    ;
    let c = Cell { ch, fg, bg };
    let upd = before.update(idx as int, c);
    assert forall|j: int| 0 <= j < back.len() implies #[trigger] after[j] == upd[j] by {
        lemma_fundamental_div_mod(j, w);
        if j != idx {
            if j / w == y && j % w == x + k {
                assert(w * y == y * w) by (nonlinear_arith);
                assert(j == idx);
            }
        }
    }
    assert(after =~= upd);
}

/// A character whose column lies outside the buffer paints nothing.
proof fn lemma_paint_outside(
    back: Seq<Cell>,
    width: nat,
    height: nat,
    x: nat,
    y: nat,
    text: Seq<char>,
    k: nat,
    fg: Color,
    bg: Color,
)
    requires
        back.len() == width * height,
        k < text.len(),
        x + k >= width || y >= height,
    ensures
        painted(back, width, x, y, text.take(k + 1int), fg, bg) == painted(back, width, x, y, text.take(k as int), fg, bg),
{
    let before = painted(back, width, x, y, text.take(k as int), fg, bg);
    let after = painted(back, width, x, y, text.take(k + 1int), fg, bg);
    assert forall|j: int| 0 <= j < back.len() implies #[trigger] after[j] == before[j] by {
        lemma_position(j, width as int, height as int);
    }
    assert(after =~= before);
}

impl BasicRenderer {
    #[verifier::type_invariant]
    spec fn buffers_match_size(&self) -> bool {
        &&& self.back_buffer@.len() == self.width as nat * self.height as nat
        &&& self.front_buffer@.len() == self.width as nat * self.height as nat
    }

    /// A renderer whose buffers are both blank.
    pub fn new(width: u16, height: u16) -> (r: BasicRenderer)
        ensures
            r@.width == width,
            r@.height == height,
            r@.back == Seq::new(width as nat * height as nat, |_i: int| Cell::spec_blank()),
            r@.front == r@.back,
    {
        assert(width as nat * height as nat <= 0xFFFF * 0xFFFF) by (nonlinear_arith)
            requires
                width <= 0xFFFF,
                height <= 0xFFFF,
        ;
        let n: usize = width as usize * height as usize;
        let mut back_buffer: Vec<Cell> = Vec::new();
        let mut front_buffer: Vec<Cell> = Vec::new();
        let mut i: usize = 0;
        while i < n
            invariant
                i <= n,
                back_buffer@ == Seq::new(i as nat, |_i: int| Cell::spec_blank()),
                front_buffer@ == back_buffer@,
            decreases n - i,
        {
            back_buffer.push(Cell::blank());
            front_buffer.push(Cell::blank());
            i += 1;
        }
        BasicRenderer { width, height, back_buffer, front_buffer }
    }

    /// Width and height in cells.
    pub fn size(&self) -> (r: (u16, u16))
        ensures
            r.0 == self@.width,
            r.1 == self@.height,
            self@.back.len() == self@.width * self@.height,
            self@.front.len() == self@.back.len(),
    {
        proof {
            use_type_invariant(self);
        }
        (self.width, self.height)
    }

    /// Buffer position of (x, y), or a render error when it lies outside.
    pub fn index(&self, x: u16, y: u16) -> (r: Result<usize, EngineError>)
        ensures
            r is Ok <==> (x < self@.width && y < self@.height),
            r is Ok ==> r->Ok_0 == cell_index(self@.width, x as nat, y as nat),
            r is Err ==> r->Err_0 is Render,
    {
        if x >= self.width || y >= self.height {
            return Err(EngineError::Render(String::from_str("coordinates out of bounds")));
        }
        assert(y as nat * self.width as nat + x as nat <= 0xFFFF * 0xFFFF + 0xFFFF) by (nonlinear_arith)
            requires
                x <= 0xFFFF,
                y <= 0xFFFF,
                self.width <= 0xFFFF,
        ;
        Ok(y as usize * self.width as usize + x as usize)
    }

    /// Column and row of a buffer position, or a render error when there is
    /// no such position.
    pub fn coordinates(&self, index: usize) -> (r: Result<(u16, u16), EngineError>)
        ensures
            r is Ok <==> index < self@.back.len(),
            r is Ok ==> r->Ok_0.0 as int == index as int % (self@.width as int) && r->Ok_0.1 as int
                == index as int / (self@.width as int),
            r is Err ==> r->Err_0 is Render,
    {
        proof {
            use_type_invariant(self);
        }
        if index >= self.back_buffer.len() {
            return Err(EngineError::Render(String::from_str("index out of bounds")));
        }
        proof {
            lemma_position(index as int, self.width as int, self.height as int);
        }
        let x = (index % self.width as usize) as u16;
        let y = (index / self.width as usize) as u16;
        Ok((x, y))
    }

    /// The cell at (x, y) of the back buffer, if that lies inside.
    pub fn cell(&self, x: u16, y: u16) -> (r: Option<Cell>)
        ensures
            r is Some <==> (x < self@.width && y < self@.height),
            r is Some ==> r->Some_0 == self@.back[cell_index(self@.width, x as nat, y as nat) as int],
    {
        proof {
            use_type_invariant(self);
        }
        match self.index(x, y) {
            Ok(i) => {
                proof {
                    assert(i < self.width as nat * self.height as nat) by (nonlinear_arith)
                        requires
                            i == y * self.width + x,
                            x < self.width,
                            y < self.height,
                    ;
                }
                Some(self.back_buffer[i])
            },
            Err(_) => None,
        }
    }
}

impl Renderer for BasicRenderer {
    /// Every back-buffer cell becomes blank; the front buffer is untouched.
    fn clear(&mut self) -> (r: Result<(), EngineError>)
        ensures
            r is Ok,
            final(self)@ == (RendererView {
                back: Seq::new(old(self)@.back.len(), |_i: int| Cell::spec_blank()),
                ..old(self)@
            }),
    {
        proof {
            use_type_invariant(&*self);
        }
        let n = self.back_buffer.len();
        let mut i: usize = 0;
        while i < n
            invariant
                i <= n,
                n == old(self)@.back.len(),
                self@.width == old(self)@.width,
                self@.height == old(self)@.height,
                self@.front == old(self)@.front,
                self@.back.len() == n,
                forall|j: int| 0 <= j < i ==> self@.back[j] == Cell::spec_blank(),
            decreases n - i,
        {
            proof {
                use_type_invariant(&*self);
            }
            self.back_buffer[i] = Cell::blank();
            i += 1;
        }
        assert(self@.back =~= Seq::new(n as nat, |_i: int| Cell::spec_blank()));
        Ok(())
    }

    /// Inside the buffer the cell is written; outside it a render error is
    /// returned and nothing changes.
    fn draw_cell(&mut self, x: u16, y: u16, cell: Cell) -> (r: Result<(), EngineError>)
        ensures
            r is Ok <==> (x < old(self)@.width && y < old(self)@.height),
            r is Ok ==> final(self)@ == (RendererView {
                back: old(self)@.back.update(cell_index(old(self)@.width, x as nat, y as nat) as int, cell),
                ..old(self)@
            }),
            r is Err ==> r->Err_0 is Render && final(self)@ == old(self)@,
    {
        proof {
            use_type_invariant(&*self);
        }
        let i = match self.index(x, y) {
            Ok(i) => i,
            Err(e) => return Err(e),
        };
        assert(i < self.width as nat * self.height as nat) by (nonlinear_arith)
            requires
                i == y * self.width + x,
                x < self.width,
                y < self.height,
        ;
        self.back_buffer[i] = cell;
        Ok(())
    }

    /// Writes the characters of `text` into successive columns of row `y`
    /// from column `x`; characters that fall outside the buffer are dropped,
    /// and the call never fails.
    fn draw_str(&mut self, x: u16, y: u16, text: &str, fg: Color, bg: Color) -> (r: Result<
        (),
        EngineError,
    >)
        ensures
            r is Ok,
            final(self)@ == (RendererView {
                back: painted(old(self)@.back, old(self)@.width, x as nat, y as nat, text@, fg, bg),
                ..old(self)@
            }),
    {
        proof {
            use_type_invariant(&*self);
        }
        let ghost start = self@;
        let mut col: u32 = x as u32;
        for ch in it: text.chars()
            invariant
                self@.width == start.width,
                self@.height == start.height,
                self@.front == start.front,
                self@.back.len() == start.back.len(),
                start.back.len() == start.width * start.height,
                it.seq() == text@,
                col as int == if x + it.index() < 0x10000 { x + it.index() } else { 0x10000 },
                self@.back == painted(start.back, start.width, x as nat, y as nat, text@.take(it.index() as int), fg, bg),
        {
            let ghost k = it.index();
            proof {
                use_type_invariant(&*self);
                assert(k < text@.len());
                assert(ch == text@[k]);
            }
            let ghost before = self@.back;
            if col < self.width as u32 && y < self.height {
                assert(y as nat * self.width as nat + col as nat <= 0xFFFF * 0xFFFF + 0xFFFF) by (nonlinear_arith)
                    requires
                        col < self.width,
                        y <= 0xFFFF,
                        self.width <= 0xFFFF,
                ;
                let i: usize = y as usize * self.width as usize + col as usize;
                assert(i < self.width as nat * self.height as nat) by (nonlinear_arith)
                    requires
                        i == y * self.width + col,
                        col < self.width,
                        y < self.height,
                ;
                self.back_buffer[i] = Cell { ch, fg, bg };
                proof {
                    lemma_paint_one_more(start.back, start.width, start.height, x as nat, y as nat, text@, k as nat, ch, fg, bg);
                }
            } else {
                proof {
                    lemma_paint_outside(start.back, start.width, start.height, x as nat, y as nat, text@, k as nat, fg, bg);
                }
            }
            if col < 0x10000 {
                col += 1;
            }
        }
        assert(text@.take(text@.len() as int) =~= text@);
        Ok(())
    }

    /// Emits, in buffer order, every cell that differs between the buffers,
    /// and copies each such cell to the front buffer; unchanged cells cost
    /// nothing.
    fn flush(&mut self) -> (r: Vec<CellUpdate>)
        ensures
            r@ == changes(old(self)@),
            final(self)@ == (RendererView { front: old(self)@.back, ..old(self)@ }),
    {
        proof {
            use_type_invariant(&*self);
        }
        let ghost start = self@;
        let n = self.back_buffer.len();
        let mut out: Vec<CellUpdate> = Vec::new();
        let mut i: usize = 0;
        while i < n
            invariant
                i <= n,
                n == start.back.len(),
                start.back.len() == start.front.len(),
                start.back.len() == start.width * start.height,
                self@.width == start.width,
                self@.height == start.height,
                self@.back == start.back,
                self@.front.len() == n,
                forall|j: int| 0 <= j < i ==> self@.front[j] == start.back[j],
                forall|j: int| i <= j < n ==> self@.front[j] == start.front[j],
                out@ == diff_prefix(start.back, start.front, start.width, i as nat),
            decreases n - i,
        {
            proof {
                use_type_invariant(&*self);
            }
            let b = self.back_buffer[i];
            if b != self.front_buffer[i] {
                proof {
                    lemma_position(i as int, self.width as int, self.height as int);
                }
                let x = (i % self.width as usize) as u16;
                let y = (i / self.width as usize) as u16;
                out.push(CellUpdate { x, y, cell: b });
                self.front_buffer[i] = b;
            }
            i += 1;
        }
        assert(self@.front =~= start.back);
        out
    }
}

/// A second flush with no drawing in between emits nothing: the first one
/// leaves the front buffer equal to the back buffer.
pub proof fn flush_twice_is_silent(v: RendererView)
    ensures
        changes(RendererView { front: v.back, ..v }) == Seq::<CellUpdate>::empty(),
{
    lemma_no_diff_with_self(v.back, v.width, v.back.len());
}

proof fn lemma_no_diff_with_self(b: Seq<Cell>, width: nat, n: nat)
    ensures
        diff_prefix(b, b, width, n) == Seq::<CellUpdate>::empty(),
    decreases n,
{
    if n > 0 {
        lemma_no_diff_with_self(b, width, (n - 1) as nat);
    }
}

/// A string drawn from (x, y) that runs past the right edge still writes each
/// character that fits: character `i` lands at column `x + i` of row `y`
/// whenever that column lies inside the buffer.
pub proof fn draw_str_keeps_what_fits(
    v: RendererView,
    x: nat,
    y: nat,
    text: Seq<char>,
    fg: Color,
    bg: Color,
    i: nat,
)
    requires
        v.back.len() == v.width * v.height,
        y < v.height,
        x + i < v.width,
        i < text.len(),
    ensures
        ({
            let j = cell_index(v.width, x + i, y) as int;
            let ch: char = text[i as int];
            &&& 0 <= j < v.back.len()
            &&& painted(v.back, v.width, x, y, text, fg, bg)[j] == (Cell { ch, fg, bg })
        }),
{
    let j = cell_index(v.width, x + i, y) as int;
    assert(j < v.width * v.height) by (nonlinear_arith)
        requires
            j == y * v.width + x + i,
            x + i < v.width,
            y < v.height,
    ;
    lemma_fundamental_div_mod_converse(j, v.width as int, y as int, (x + i) as int);
}

} // verus!
