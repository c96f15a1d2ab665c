//! The grid data model: cells, bounds-checked coordinates, and the square
//! board with its per-cell reads and writes.

use vstd::prelude::*;

use crate::error::GameError;

verus! {

use vstd::string::StringExecFns;

/// The state of one board cell.
///
/// A cell starts `Empty`; it becomes `Ship` only during setup, and becomes
/// `Hit` (from `Ship`) or `Miss` (from `Empty`) only during play.
#[derive(Clone, Copy, Debug, PartialEq, Eq, Structural)]
pub enum Cell {
    Empty,
    Ship,
    Hit,
    Miss,
}

/// A bounds-checked single-axis coordinate: an integer validated to lie in
/// `[0, board_size)` at construction time.
#[derive(Clone, Copy, Debug, PartialEq, Eq, Structural)]
pub struct Index(usize);

impl View for Index {
    type V = int;

    closed spec fn view(&self) -> int {
        self.0 as int
    }
}

impl Index {
    /// Builds an `Index` from a raw value, succeeding exactly when the value
    /// lies in `[0, board_size)`.
    pub fn new(index: usize, board_size: usize) -> (r: Result<Index, GameError>)
        ensures
            r is Ok <==> index < board_size,
            r is Ok ==> r->Ok_0@ == index,
            r is Err ==> r->Err_0 is OutOfBounds,
    {
        if index < board_size {
            Ok(Index(index))
        } else {
            Err(GameError::OutOfBounds)
        }
    }

    /// The raw value this index was built from.
    pub fn value(&self) -> (v: usize)
        ensures
            v == self@,
    {
        self.0
    }
}

/// A validated `(row, column)` pair. Both coordinates are built against the
/// same board size; there is no cross-coordinate invariant beyond each being
/// individually in range.
#[derive(Clone, Copy, Debug, PartialEq, Eq, Structural)]
pub struct Position(pub Index, pub Index);

impl Position {
    /// Builds a `Position` from two raw coordinates, validating each against
    /// the same board size. Succeeds exactly when both are in range.
    pub fn new(row: usize, col: usize, board_size: usize) -> (r: Result<Position, GameError>)
        ensures
            r is Ok <==> row < board_size && col < board_size,
            r is Ok ==> r->Ok_0.0@ == row && r->Ok_0.1@ == col,
            r is Err ==> r->Err_0 is OutOfBounds,
    {
        let row_index = match Index::new(row, board_size) {
            Ok(i) => i,
            Err(e) => {
                return Err(e);
            },
        };
        let col_index = match Index::new(col, board_size) {
            Ok(i) => i,
            Err(e) => {
                return Err(e);
            },
        };
        Ok(Position(row_index, col_index))
    }

    /// The row coordinate.
    pub open spec fn row(self) -> int {
        self.0@
    }

    /// The column coordinate.
    pub open spec fn col(self) -> int {
        self.1@
    }

    /// Whether both coordinates lie within a board of the given size.
    pub open spec fn in_bounds(self, size: int) -> bool {
        0 <= self.row() < size && 0 <= self.col() < size
    }
}

/// The glyph that one cell renders as. A `Ship` cell is shown as `S` only
/// when ships are revealed (the owner's view); the opponent's view shows it
/// as an `Empty` cell.
pub open spec fn glyph(cell: Cell, reveal_ships: bool) -> char {
    match cell {
        Cell::Empty => 'O',
        Cell::Ship => if reveal_ships {
            'S'
        } else {
            'O'
        },
        Cell::Hit => 'H',
        Cell::Miss => 'M',
    }
}

/// One rendered board row: one glyph per cell, ended by a newline.
pub open spec fn render_row(row: Seq<Cell>, reveal_ships: bool) -> Seq<char> {
    Seq::new(row.len(), |i: int| glyph(row[i], reveal_ships)).push('\n')
}

/// A whole rendered board: its rows in order, each ended by a newline.
pub open spec fn render_grid(grid: Seq<Seq<Cell>>, reveal_ships: bool) -> Seq<char>
    decreases grid.len(),
{
    if grid.len() == 0 {
        Seq::empty()
    } else {
        render_grid(grid.drop_last(), reveal_ships) + render_row(grid.last(), reveal_ships)
    }
}

/// The board grid updated at one position, as a mathematical value.
pub open spec fn grid_update(grid: Seq<Seq<Cell>>, row: int, col: int, cell: Cell) -> Seq<
    Seq<Cell>,
> {
    grid.update(row, grid[row].update(col, cell))
}

/// A square grid of cells, its size fixed at creation and every cell
/// initialized to `Empty`. Owned exclusively by one player.
#[derive(Clone, Debug)]
pub struct Board {
    cells: Vec<Vec<Cell>>,
}

impl View for Board {
    type V = Seq<Seq<Cell>>;

    closed spec fn view(&self) -> Seq<Seq<Cell>> {
        Seq::new(self.cells@.len(), |i: int| self.cells@[i]@)
    }
}

impl Board {
    /// The board is a square grid: every row is as long as the grid is tall.
    pub open spec fn wf(self) -> bool {
        forall|i: int| 0 <= i < self@.len() ==> (#[trigger] self@[i]).len() == self@.len()
    }

    /// Allocates a `size` by `size` grid of `Empty` cells. A zero size is
    /// rejected rather than silently producing an unplayable board.
    pub fn new(size: usize) -> (r: Result<Board, GameError>)
        ensures
            r is Ok <==> size > 0,
            r is Err ==> r->Err_0 is OutOfBounds,
            r is Ok ==> r->Ok_0.wf() && r->Ok_0@.len() == size,
            r is Ok ==> forall|i: int, j: int|
                0 <= i < size && 0 <= j < size ==> (#[trigger] r->Ok_0@[i][j]) is Empty,
    {
        if size == 0 {
            return Err(GameError::OutOfBounds);
        }
        let mut cells: Vec<Vec<Cell>> = Vec::new();
        let mut i: usize = 0;
        while i < size
            invariant
                i <= size,
                cells@.len() == i,
                forall|r: int| 0 <= r < i ==> (#[trigger] cells@[r])@.len() == size,
                forall|r: int, c: int|
                    0 <= r < i && 0 <= c < size ==> (#[trigger] cells@[r]@[c]) is Empty,
            decreases size - i,
        {
            let mut row: Vec<Cell> = Vec::new();
            let mut j: usize = 0;
            while j < size
                invariant
                    j <= size,
                    row@.len() == j,
                    forall|c: int| 0 <= c < j ==> row@[c] is Empty,
                decreases size - j,
            {
                row.push(Cell::Empty);
                j = j + 1;
            }
            cells.push(row);
            i = i + 1;
        }
        let board = Board { cells };
        Ok(board)
    }

    /// The side length of the board.
    pub fn size(&self) -> (s: usize)
        ensures
            s == self@.len(),
    {
        self.cells.len()
    }

    /// Reads the cell at a validated position.
    pub fn get_cell(&self, position: &Position) -> (cell: Cell)
        requires
            self.wf(),
            position.in_bounds(self@.len() as int),
        ensures
            cell == self@[position.row()][position.col()],
    {
        let row = position.0.value();
        let col = position.1.value();
        self.cells[row][col]
    }

    /// Writes the cell at a validated position, unconditionally. Callers
    /// enforce transition legality.
    pub fn set_cell(&mut self, position: &Position, cell: Cell)
        requires
            old(self).wf(),
            position.in_bounds(old(self)@.len() as int),
        ensures
            final(self)@ == grid_update(old(self)@, position.row(), position.col(), cell),
            final(self)@.len() == old(self)@.len(),
            final(self).wf(),
    {
        let row = position.0.value();
        let col = position.1.value();
        proof {
            assert(self@[row as int] == self.cells@[row as int]@);
        }
        self.cells[row][col] = cell;
        proof {
            assert(self@ =~~= grid_update(old(self)@, position.row(), position.col(), cell));
        }
    }

    /// Produces the textual view of the board: one line per row, one glyph
    /// per cell. `reveal_ships` selects the owner's full view (ships shown
    /// as `S`) or the opponent's view (ships hidden).
    ///
    /// The result is a pure function of the grid contents, so rendering the
    /// same board twice yields the same text.
    pub fn render(&self, reveal_ships: bool) -> (out: String)
        requires
            self.wf(),
        ensures
            out@ == render_grid(self@, reveal_ships),
    {
        let ghost grid = self@;
        let mut out = String::new();
        let size = self.cells.len();
        let mut i: usize = 0;
        while i < size
            invariant
                self.wf(),
                grid == self@,
                size == grid.len(),
                i <= size,
                out@ == render_grid(grid.take(i as int), reveal_ships),
            decreases size - i,
        {
            let mut j: usize = 0;
            while j < size
                invariant
                    self.wf(),
                    grid == self@,
                    size == grid.len(),
                    i < size,
                    j <= size,
                    out@ == render_grid(grid.take(i as int), reveal_ships) + Seq::new(
                        j as nat,
                        |k: int| glyph(grid[i as int][k], reveal_ships),
                    ),
                decreases size - j,
            {
                proof {
                    assert(grid[i as int] == self.cells@[i as int]@);
                }
                let g = glyph_str(self.cells[i][j], reveal_ships);
                out.append(g);
                proof {
                    assert(out@ =~= render_grid(grid.take(i as int), reveal_ships) + Seq::new(
                        (j + 1) as nat,
                        |k: int| glyph(grid[i as int][k], reveal_ships),
                    ));
                }
                j = j + 1;
            }
            out.append("\n");
            proof {
                reveal_strlit("\n");
                assert(grid.take(i as int + 1).drop_last() =~= grid.take(i as int));
                assert(grid.take(i as int + 1).last() == grid[i as int]);
                assert(grid[i as int].len() == size);
                assert(out@ =~= render_grid(grid.take(i as int + 1), reveal_ships));
            }
            i = i + 1;
        }
        proof {
            assert(grid.take(size as int) =~= grid);
        }
        out
    }
}

/// Rendering is idempotent: the rendered text is a function of the grid
/// contents and the view selection alone, so rendering the same board twice
/// without mutation yields identical output both times.
pub proof fn lemma_render_deterministic(
    grid: Seq<Seq<Cell>>,
    reveal_ships: bool,
    first: Seq<char>,
    second: Seq<char>,
)
    requires
        first == render_grid(grid, reveal_ships),
        second == render_grid(grid, reveal_ships),
    ensures
        first == second,
{
}

/// The glyph of one cell as a one-character string slice, matching `glyph`.
fn glyph_str(cell: Cell, reveal_ships: bool) -> (g: &'static str)
    ensures
        g@ == seq![glyph(cell, reveal_ships)],
{
    proof {
        reveal_strlit("O");
        reveal_strlit("S");
        reveal_strlit("H");
        reveal_strlit("M");
    }
    match cell {
        Cell::Empty => "O",
        Cell::Ship => if reveal_ships {
            "S"
        } else {
            "O"
        },
        Cell::Hit => "H",
        Cell::Miss => "M",
    }
}

} // verus!
