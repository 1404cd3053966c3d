//! Conway's Game of Life on a bounded grid, swept in place one cell at a time.
use crate::renderer::lemma_position;
use vstd::prelude::*;

verus! {

/// Whether (x, y) is a live cell of the row-major `cells` of the given size;
/// everything outside the grid is dead.
pub open spec fn alive_at(cells: Seq<bool>, width: int, height: int, x: int, y: int) -> bool {
    0 <= x < width && 0 <= y < height && cells[y * width + x]
}

pub open spec fn count(b: bool) -> nat {
    if b {
        1
    } else {
        0
    }
}

/// Live cells among the eight around (x, y).
pub open spec fn live_neighbors(cells: Seq<bool>, width: int, height: int, x: int, y: int) -> nat {
    count(alive_at(cells, width, height, x - 1, y - 1)) + count(alive_at(cells, width, height, x, y - 1))
        + count(alive_at(cells, width, height, x + 1, y - 1)) + count(alive_at(cells, width, height, x - 1, y))
        + count(alive_at(cells, width, height, x + 1, y)) + count(alive_at(cells, width, height, x - 1, y + 1))
        + count(alive_at(cells, width, height, x, y + 1)) + count(alive_at(cells, width, height, x + 1, y + 1))
}

/// The rule: a live cell with two or three live neighbours lives on, a dead
/// cell with exactly three comes alive, every other cell is dead.
pub open spec fn next_alive(alive: bool, neighbors: nat) -> bool {
    (alive && (neighbors == 2 || neighbors == 3)) || (!alive && neighbors == 3)
}

/// The cells after the rule has been applied, in place and in buffer order,
/// to the first `k` positions: each position sees the positions before it
/// already updated.
pub open spec fn swept(cells: Seq<bool>, width: int, height: int, k: nat) -> Seq<bool>
    decreases k,
{
    if k == 0 {
        cells
    } else {
        let prev = swept(cells, width, height, (k - 1) as nat);
        let i = k - 1;
        let x = i % width;
        let y = i / width;
        prev.update(i, next_alive(alive_at(prev, width, height, x, y), live_neighbors(prev, width, height, x, y)))
    }
}

/// Relies on rand's `Rng::random_ratio` with the thread-local generator: a
/// random bool, true with probability `numerator / denominator`; nothing is
/// promised of it. The call panics unless `numerator <= denominator` and
/// `denominator > 0`.
#[verifier::external_body]
fn random_ratio(numerator: u32, denominator: u32) -> bool
    requires
        0 < denominator,
        numerator <= denominator,
{
    rand::Rng::random_ratio(&mut rand::rng(), numerator, denominator)
}

/// A row-major grid of cells, each alive or dead.
pub struct Grid {
    width: usize,
    height: usize,
    cells: Vec<bool>,
}

/// What a grid holds.
pub ghost struct GridView {
    pub width: nat,
    pub height: nat,
    pub cells: Seq<bool>,
}

impl View for Grid {
    type V = GridView;

    closed spec fn view(&self) -> GridView {
        GridView { width: self.width as nat, height: self.height as nat, cells: self.cells@ }
    }
}

impl Grid {
    #[verifier::type_invariant]
    spec fn cells_fill_grid(&self) -> bool {
        &&& self.cells@.len() == self.width * self.height
        &&& self.width * self.height <= usize::MAX
    }

    /// An empty grid.
    pub fn new() -> (r: Grid)
        ensures
            r@.width == 0 && r@.height == 0 && r@.cells.len() == 0,
    {
        Grid { width: 0, height: 0, cells: Vec::new() }
    }

    pub fn width(&self) -> (r: usize)
        ensures
            r == self@.width,
    {
        self.width
    }

    pub fn height(&self) -> (r: usize)
        ensures
            r == self@.height,
    {
        self.height
    }

    /// Every cell of the grid.
    pub fn cells(&self) -> (r: &Vec<bool>)
        ensures
            r@ == self@.cells,
            r@.len() == self@.width * self@.height,
    {
        proof {
            use_type_invariant(self);
        }
        &self.cells
    }

    /// Makes the grid `width` by `height` and fills it at random, about one
    /// cell in ten alive.
    pub fn set_size(&mut self, width: usize, height: usize)
        requires
            width * height <= usize::MAX,
        ensures
            final(self)@.width == width,
            final(self)@.height == height,
            final(self)@.cells.len() == width * height,
    {
        let n: usize = width * height;
        let mut cells: Vec<bool> = Vec::new();
        let mut i: usize = 0;
        while i < n
            invariant
                i <= n,
                cells@.len() == i,
            decreases n - i,
        {
            cells.push(random_ratio(1, 10));
            i += 1;
        }
        *self = Grid { width, height, cells };
    }

    /// Whether (x, y) is a live cell; outside the grid it is not.
    pub fn get(&self, x: usize, y: usize) -> (r: bool)
        ensures
            r == alive_at(self@.cells, self@.width as int, self@.height as int, x as int, y as int),
    {
        proof {
            use_type_invariant(self);
        }
        if x < self.width && y < self.height {
            proof {
                lemma_in_grid(x as int, y as int, self.width as int, self.height as int);
            }
            self.cells[y * self.width + x]
        } else {
            false
        }
    }

    /// Column and row of a position, if the grid has that position.
    pub fn coordinates(&self, index: usize) -> (r: Option<(usize, usize)>)
        ensures
            r is Some <==> index < self@.cells.len(),
            r is Some ==> r->Some_0.0 as int == index as int % (self@.width as int) && r->Some_0.1 as int == index as int
                / (self@.width as int),
    {
        proof {
            use_type_invariant(self);
        }
        if index < self.cells.len() {
            proof {
                if self.width == 0 {
                    assert(self.width * self.height == 0);
                }
            }
            Some((index % self.width, index / self.width))
        } else {
            None
        }
    }

    /// Live cells among the eight around (x, y).
    pub fn get_neighbors(&self, x: usize, y: usize) -> (r: usize)
        ensures
            r == live_neighbors(self@.cells, self@.width as int, self@.height as int, x as int, y as int),
    {
        let mut count: usize = 0;
        let left = x > 0;
        let up = y > 0;
        let right = x < usize::MAX;
        let down = y < usize::MAX;
        if up && left && self.get(x - 1, y - 1) {
            count += 1;
        }
        if up && self.get(x, y - 1) {
            count += 1;
        }
        if up && right && self.get(x + 1, y - 1) {
            count += 1;
        }
        if left && self.get(x - 1, y) {
            count += 1;
        }
        if right && self.get(x + 1, y) {
            count += 1;
        }
        if down && left && self.get(x - 1, y + 1) {
            count += 1;
        }
        if down && self.get(x, y + 1) {
            count += 1;
        }
        if down && right && self.get(x + 1, y + 1) {
            count += 1;
        }
        proof {
            use_type_invariant(self);
            lemma_edge_dead(self@.cells, self@.width as int, self@.height as int, x as int, y as int);
        }
        count
    }

    /// Sets (x, y) to `value`; outside the grid nothing changes.
    pub fn set(&mut self, x: usize, y: usize, value: bool)
        ensures
            final(self)@.width == old(self)@.width,
            final(self)@.height == old(self)@.height,
            x < old(self)@.width && y < old(self)@.height ==> final(self)@.cells == old(self)@.cells.update(
                y * old(self)@.width + x,
                value,
            ),
            !(x < old(self)@.width && y < old(self)@.height) ==> final(self)@.cells == old(self)@.cells,
    {
        proof {
            use_type_invariant(&*self);
        }
        if x < self.width && y < self.height {
            proof {
                lemma_in_grid(x as int, y as int, self.width as int, self.height as int);
            }
            let i = y * self.width + x;
            self.cells[i] = value;
        }
    }

    /// Flips the cell at (x, y); outside the grid nothing changes.
    pub fn toggle(&mut self, x: usize, y: usize)
        ensures
            final(self)@.width == old(self)@.width,
            final(self)@.height == old(self)@.height,
            x < old(self)@.width && y < old(self)@.height ==> final(self)@.cells == old(self)@.cells.update(
                y * old(self)@.width + x,
                !old(self)@.cells[y * old(self)@.width + x],
            ),
            !(x < old(self)@.width && y < old(self)@.height) ==> final(self)@.cells == old(self)@.cells,
    {
        if x < self.width && y < self.height {
            let current = self.get(x, y);
            self.set(x, y, !current);
        }
    }

    /// Applies the rule to every cell, in place and in buffer order.
    pub fn step(&mut self)
        ensures
            final(self)@.width == old(self)@.width,
            final(self)@.height == old(self)@.height,
            final(self)@.cells == swept(
                old(self)@.cells,
                old(self)@.width as int,
                old(self)@.height as int,
                old(self)@.cells.len(),
            ),
    {
        proof {
            use_type_invariant(&*self);
        }
        let ghost start = self@;
        let n = self.cells.len();
        let mut idx: usize = 0;
        while idx < n
            invariant
                idx <= n,
                n == start.cells.len(),
                n == start.width * start.height,
                self@.width == start.width,
                self@.height == start.height,
                self@.cells == swept(start.cells, start.width as int, start.height as int, idx as nat),
            decreases n - idx,
        {
            proof {
                use_type_invariant(&*self);
            }
            proof {
                assert(self.cells@.len() == n) by {
                    lemma_swept_len(start.cells, start.width as int, start.height as int, idx as nat);
                }
                lemma_position(idx as int, self.width as int, self.height as int);
            }
            let x = idx % self.width;
            let y = idx / self.width;
            let neighbors = self.get_neighbors(x, y);
            let alive = self.get(x, y);
            let next = (alive && (neighbors == 2 || neighbors == 3)) || (!alive && neighbors == 3);
            self.set(x, y, next);
            idx += 1;
        }
    }
}

proof fn lemma_in_grid(x: int, y: int, width: int, height: int)
    requires
        0 <= x < width,
        0 <= y < height,
    ensures
        0 <= y * width + x < width * height,
{
    assert((y + 1) * width <= height * width) by (nonlinear_arith)
        requires
            y + 1 <= height,
            0 <= width,
    ;
    assert(y * width + x < width * height) by (nonlinear_arith)
        requires
            x < width,
            (y + 1) * width <= height * width,
    ;
    assert(0 <= y * width) by (nonlinear_arith)
        requires
            0 <= y,
            0 <= width,
    ;
}

proof fn lemma_edge_dead(cells: Seq<bool>, width: int, height: int, x: int, y: int)
    requires
        0 <= width,
        0 <= x <= usize::MAX,
        0 <= y <= usize::MAX,
        width * height <= usize::MAX,
    ensures
        x == 0 ==> !alive_at(cells, width, height, x - 1, y - 1) && !alive_at(cells, width, height, x - 1, y)
            && !alive_at(cells, width, height, x - 1, y + 1),
        y == 0 ==> !alive_at(cells, width, height, x - 1, y - 1) && !alive_at(cells, width, height, x, y - 1)
            && !alive_at(cells, width, height, x + 1, y - 1),
        x == usize::MAX ==> !alive_at(cells, width, height, x + 1, y - 1) && !alive_at(cells, width, height, x + 1, y)
            && !alive_at(cells, width, height, x + 1, y + 1),
        y == usize::MAX ==> !alive_at(cells, width, height, x - 1, y + 1) && !alive_at(cells, width, height, x, y + 1)
            && !alive_at(cells, width, height, x + 1, y + 1),
{
    if height > 0 && width > usize::MAX {
        assert(width * height >= width) by (nonlinear_arith)
            requires
                height > 0,
                width >= 0,
        ;
    }
    if width > 0 && height > usize::MAX {
        assert(width * height >= height) by (nonlinear_arith)
            requires
                width > 0,
                height >= 0,
        ;
    }
}

proof fn lemma_swept_len(cells: Seq<bool>, width: int, height: int, k: nat)
    requires
        k <= cells.len(),
    ensures
        swept(cells, width, height, k).len() == cells.len(),
    decreases k,
{
    if k > 0 {
        lemma_swept_len(cells, width, height, (k - 1) as nat);
    }
}

/// The pause overlay: while paused, the simulation does not advance.
pub struct PauseMenu {
    paused: bool,
}

impl PauseMenu {
    pub fn new() -> (r: PauseMenu)
        ensures
            !r.is_paused_spec(),
    {
        PauseMenu { paused: false }
    }

    pub closed spec fn is_paused_spec(&self) -> bool {
        self.paused
    }

    pub fn is_paused(&self) -> (r: bool)
        ensures
            r == self.is_paused_spec(),
    {
        self.paused
    }

    /// Pauses a running simulation, or resumes a paused one.
    pub fn toggle(&mut self)
        ensures
            final(self).is_paused_spec() == !old(self).is_paused_spec(),
    {
        self.paused = !self.paused;
    }
}

/// The simulation: a grid and its pause overlay.
pub struct GameOfLife {
    pub grid: Grid,
    pub pause_menu: PauseMenu,
}

impl GameOfLife {
    /// An empty, running simulation.
    pub fn new() -> (r: GameOfLife)
        ensures
            r.grid@.width == 0 && r.grid@.height == 0 && r.grid@.cells.len() == 0,
            !r.pause_menu.is_paused_spec(),
    {
        GameOfLife { grid: Grid::new(), pause_menu: PauseMenu::new() }
    }

    /// One timestep: the grid is swept once, unless the simulation is paused.
    pub fn update(&mut self)
        ensures
            final(self).pause_menu == old(self).pause_menu,
            old(self).pause_menu.is_paused_spec() ==> final(self).grid@ == old(self).grid@,
            !old(self).pause_menu.is_paused_spec() ==> final(self).grid@ == (GridView {
                cells: swept(
                    old(self).grid@.cells,
                    old(self).grid@.width as int,
                    old(self).grid@.height as int,
                    old(self).grid@.cells.len(),
                ),
                ..old(self).grid@
            }),
    {
        if self.pause_menu.is_paused() {
            return;
        }
        self.grid.step();
    }
}

} // verus!
