use vstd::prelude::*;
use crate::cell::Cell;
use crate::rule::{RuleView, fires};

verus! {

/// The default seed: a cell is alive when its linear index is divisible by 2
/// or by 5.
pub open spec fn seed_cell(i: int) -> Cell {
    if i % 2 == 0 || i % 5 == 0 {
        Cell::Alive
    } else {
        Cell::Dead
    }
}

/// The default pattern of `len` cells.
pub open spec fn seed_pattern(len: nat) -> Seq<Cell> {
    Seq::new(len, |i: int| seed_cell(i))
}

/// The cell at `(row, col)` of a row-major grid of the given width.
pub open spec fn cell_at(cells: Seq<Cell>, width: int, row: int, col: int) -> Cell {
    cells[row * width + col]
}

/// The weight of the cell reached from `(row, col)` by the offsets
/// `(dr, dc)`, both taken modulo the grid's size.
pub open spec fn weight_at_offset(
    cells: Seq<Cell>,
    width: int,
    height: int,
    row: int,
    col: int,
    dr: int,
    dc: int,
) -> int {
    cell_at(cells, width, (row + dr) % height, (col + dc) % width).weight()
}

/// The live-neighbour count of `(row, col)` on the torus: the sum over the
/// offsets `{height-1, 0, 1} x {width-1, 0, 1}` without `(0, 0)`.
pub open spec fn live_neighbours(cells: Seq<Cell>, width: int, height: int, row: int, col: int) -> int {
    weight_at_offset(cells, width, height, row, col, height - 1, width - 1)
        + weight_at_offset(cells, width, height, row, col, height - 1, 0)
        + weight_at_offset(cells, width, height, row, col, height - 1, 1)
        + weight_at_offset(cells, width, height, row, col, 0, width - 1)
        + weight_at_offset(cells, width, height, row, col, 0, 1)
        + weight_at_offset(cells, width, height, row, col, 1, width - 1)
        + weight_at_offset(cells, width, height, row, col, 1, 0)
        + weight_at_offset(cells, width, height, row, col, 1, 1)
}

/// The grid repeated without end in both directions: the cell at any
/// integer position `(r, c)`.
pub open spec fn tiled(cells: Seq<Cell>, width: int, height: int, r: int, c: int) -> Cell {
    cell_at(cells, width, r % height, c % width)
}

/// The number of live cells among the eight immediate neighbours of
/// `(row, col)` in the endless tiling.
pub open spec fn tiled_neighbours(cells: Seq<Cell>, width: int, height: int, row: int, col: int) -> int {
    tiled(cells, width, height, row - 1, col - 1).weight() + tiled(
        cells,
        width,
        height,
        row - 1,
        col,
    ).weight() + tiled(cells, width, height, row - 1, col + 1).weight() + tiled(
        cells,
        width,
        height,
        row,
        col - 1,
    ).weight() + tiled(cells, width, height, row, col + 1).weight() + tiled(
        cells,
        width,
        height,
        row + 1,
        col - 1,
    ).weight() + tiled(cells, width, height, row + 1, col).weight() + tiled(
        cells,
        width,
        height,
        row + 1,
        col + 1,
    ).weight()
}

/// The state a cell moves to: the `to_state` of the first rule whose
/// `from_state` is the cell's and whose condition fired (`fired[i]` for rule
/// `i`); the cell itself when there is none.
pub open spec fn chosen_state(rules: Seq<RuleView>, fired: Seq<bool>, cell: Cell) -> Cell
    decreases rules.len(),
{
    if rules.len() == 0 {
        cell
    } else if rules[0].from_state == cell && fired[0] {
        rules[0].to_state
    } else {
        chosen_state(rules.drop_first(), fired.drop_first(), cell)
    }
}

/// For each live-neighbour count `n` in `0..=8`, whether each rule's
/// condition holds at `n`.
pub open spec fn evaluation_table(rules: Seq<RuleView>) -> Seq<Seq<bool>> {
    Seq::new(9, |n: int| Seq::new(rules.len(), |i: int| fires(rules[i].condition, n as u8)))
}

/// The next generation: every cell is decided from the old generation alone,
/// with `table[n][i]` saying whether rule `i` fires at count `n`.
pub open spec fn next_generation(
    cells: Seq<Cell>,
    width: int,
    height: int,
    rules: Seq<RuleView>,
    table: Seq<Seq<bool>>,
) -> Seq<Cell> {
    Seq::new(
        cells.len(),
        |i: int|
            chosen_state(
                rules,
                table[live_neighbours(cells, width, height, i / width, i % width)],
                cells[i],
            ),
    )
}

/// The glyph of a cell in a rendering.
pub open spec fn glyph(c: Cell) -> char {
    match c {
        Cell::Dead => '\u{2B1C}',
        Cell::Alive => '\u{2B1B}',
    }
}

/// The text of a grid: one glyph per cell in row-major order, a line break
/// after each full row.
pub open spec fn rendering(cells: Seq<Cell>, width: int) -> Seq<char>
    decreases cells.len(),
{
    if cells.len() == 0 {
        Seq::empty()
    } else {
        let front = rendering(cells.drop_last(), width) + seq![glyph(cells.last())];
        if (cells.len() as int) % width == 0 {
            front + seq!['\n']
        } else {
            front
        }
    }
}


/// A fixed-size toroidal grid of cells, stored row-major.
pub struct Grid {
    width: u32,
    height: u32,
    cells: Vec<Cell>,
}

/// The mathematical content of a grid.
pub struct GridView {
    pub width: nat,
    pub height: nat,
    pub cells: Seq<Cell>,
}

impl GridView {
    /// The size is positive and there is one cell per position.
    pub open spec fn wf(self) -> bool {
        &&& self.width > 0
        &&& self.height > 0
        &&& self.cells.len() == self.width * self.height
        &&& self.cells.len() <= usize::MAX
    }
}

impl View for Grid {
    type V = GridView;

    closed spec fn view(&self) -> GridView {
        GridView { width: self.width as nat, height: self.height as nat, cells: self.cells@ }
    }
}

/// Relies on `String::push`: appends one character.
#[verifier::external_body]
fn push_char(s: &mut String, c: char)
    ensures
        final(s)@ == old(s)@.push(c),
{
    s.push(c)
}

/// The default pattern of `len` cells.
fn seed_cells(len: usize) -> (r: Vec<Cell>)
    ensures
        r@ == seed_pattern(len as nat),
{
    let mut cells: Vec<Cell> = Vec::with_capacity(len);
    let mut i: usize = 0;
    while i < len
        invariant
            i <= len,
            cells@ =~= seed_pattern(i as nat),
        decreases len - i,
    {
        let c = if i % 2 == 0 || i % 5 == 0 {
            Cell::Alive
        } else {
            Cell::Dead
        };
        cells.push(c);
        i += 1;
    }
    cells
}

proof fn lemma_index_bound(row: int, col: int, width: int, height: int)
    requires
        0 <= row < height,
        0 <= col < width,
    ensures
        0 <= row * width + col < width * height,
{
    assert(row * width + col < width * height) by (nonlinear_arith)
        requires
            0 <= row < height,
            0 <= col < width,
    ;
    assert(0 <= row * width) by (nonlinear_arith)
        requires
            0 <= row,
            0 <= col < width,
    ;
}

impl Grid {
    #[verifier::type_invariant]
    pub open spec fn inv(&self) -> bool {
        self@.wf()
    }

    /// A grid of the given size, seeded with the default pattern.
    pub fn with_size(width: u32, height: u32) -> (r: Grid)
        requires
            width > 0,
            height > 0,
            width * height <= usize::MAX,
        ensures
            r@ == (GridView {
                width: width as nat,
                height: height as nat,
                cells: seed_pattern((width * height) as nat),
            }),
    {
        let cells = seed_cells(width as usize * height as usize);
        Grid { width, height, cells }
    }

    /// Puts the default pattern back; the size stays.
    pub fn reseed(&mut self)
        ensures
            final(self)@ == (GridView {
                cells: seed_pattern(old(self)@.width * old(self)@.height),
                ..old(self)@
            }),
    {
        proof {
            use_type_invariant(&*self);
        }
        self.cells = seed_cells(self.cells.len());
    }

    /// Replaces the whole generation by one of the same size.
    pub fn replace_cells(&mut self, cells: Vec<Cell>)
        requires
            cells@.len() == old(self)@.cells.len(),
        ensures
            final(self)@ == (GridView { cells: cells@, ..old(self)@ }),
    {
        proof {
            use_type_invariant(&*self);
        }
        self.cells = cells;
    }

    pub fn width(&self) -> (r: u32)
        ensures
            r == self@.width,
            r > 0,
    {
        proof {
            use_type_invariant(self);
        }
        self.width
    }

    pub fn height(&self) -> (r: u32)
        ensures
            r == self@.height,
            r > 0,
    {
        proof {
            use_type_invariant(self);
        }
        self.height
    }

    /// The cells in row-major order.
    pub fn cells(&self) -> (r: &Vec<Cell>)
        ensures
            r@ == self@.cells,
            r@.len() == self@.width * self@.height,
    {
        proof {
            use_type_invariant(self);
        }
        &self.cells
    }

    /// The linear index of `(row, col)`.
    fn get_index(&self, row: u32, col: u32) -> (r: usize)
        requires
            row < self@.height,
            col < self@.width,
        ensures
            r == row * self@.width + col,
            r < self@.cells.len(),
    {
        proof {
            use_type_invariant(self);
            lemma_index_bound(row as int, col as int, self.width as int, self.height as int);
        }
        row as usize * self.width as usize + col as usize
    }

    /// The cell at `(row, col)`.
    pub fn get(&self, row: u32, col: u32) -> (r: Cell)
        requires
            row < self@.height,
            col < self@.width,
        ensures
            r == cell_at(self@.cells, self@.width as int, row as int, col as int),
    {
        let i = self.get_index(row, col);
        self.cells[i]
    }

    /// Replaces the cell at `(row, col)`.
    pub fn set(&mut self, row: u32, col: u32, cell: Cell)
        requires
            row < old(self)@.height,
            col < old(self)@.width,
        ensures
            final(self)@ == (GridView {
                cells: old(self)@.cells.update(row * old(self)@.width + col, cell),
                ..old(self)@
            }),
            final(self)@.wf(),
    {
        proof {
            use_type_invariant(&*self);
        }
        let i = self.get_index(row, col);
        // A grid never lends its fields out mutably, so that its invariant
        // holds at every step: the cells are copied, changed and put back.
        let mut cells = self.cells.clone();
        cells.set(i, cell);
        self.cells = cells;
    }

    /// The weight (1 alive, 0 dead) of the cell reached from `(row, col)` by
    /// the offsets `(dr, dc)`, wrapped around the torus.
    fn weight_at(&self, row: u32, col: u32, dr: u32, dc: u32) -> (r: u8)
        requires
            row < self@.height,
            col < self@.width,
        ensures
            r == weight_at_offset(
                self@.cells,
                self@.width as int,
                self@.height as int,
                row as int,
                col as int,
                dr as int,
                dc as int,
            ),
    {
        proof {
            use_type_invariant(self);
        }
        let nr = ((row as u64 + dr as u64) % self.height as u64) as u32;
        let nc = ((col as u64 + dc as u64) % self.width as u64) as u32;
        let i = self.get_index(nr, nc);
        match self.cells[i] {
            Cell::Alive => 1,
            Cell::Dead => 0,
        }
    }

    /// The number of live cells among the eight neighbours of `(row, col)`,
    /// the grid's edges wrapping around to the opposite side.
    pub fn live_neighbour_count(&self, row: u32, col: u32) -> (r: u8)
        requires
            row < self@.height,
            col < self@.width,
        ensures
            r == live_neighbours(
                self@.cells,
                self@.width as int,
                self@.height as int,
                row as int,
                col as int,
            ),
            r <= 8,
    {
        proof {
            use_type_invariant(self);
        }
        let up = self.height - 1;
        let left = self.width - 1;
        self.weight_at(row, col, up, left) + self.weight_at(row, col, up, 0) + self.weight_at(
            row,
            col,
            up,
            1,
        ) + self.weight_at(row, col, 0, left) + self.weight_at(row, col, 0, 1) + self.weight_at(
            row,
            col,
            1,
            left,
        ) + self.weight_at(row, col, 1, 0) + self.weight_at(row, col, 1, 1)
    }

    /// The grid as text: `height` lines of `width` glyphs, each ended by a
    /// line break; an alive cell is a black square, a dead one a white square.
    pub fn render(&self) -> (r: String)
        ensures
            r@ == rendering(self@.cells, self@.width as int),
    {
        proof {
            use_type_invariant(self);
        }
        let ghost cells = self.cells@;
        let w = self.width as usize;
        let mut text = String::new();
        let mut i: usize = 0;
        assert(cells.subrange(0, 0) =~= Seq::<Cell>::empty());
        while i < self.cells.len()
            invariant
                cells == self.cells@,
                w == self@.width,
                w > 0,
                i <= cells.len(),
                text@ == rendering(cells.subrange(0, i as int), w as int),
            decreases cells.len() - i,
        {
            let c = self.cells[i];
            let g = if c == Cell::Alive {
                '\u{2B1B}'
            } else {
                '\u{2B1C}'
            };
            push_char(&mut text, g);
            proof {
                let next = cells.subrange(0, i + 1);
                assert(next.drop_last() =~= cells.subrange(0, i as int));
                assert(next.last() == c);
            }
            if (i + 1) % w == 0 {
                push_char(&mut text, '\n');
            }
            i += 1;
        }
        assert(cells.subrange(0, cells.len() as int) =~= cells);
        text
    }
}

} // verus!
