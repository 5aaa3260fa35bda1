//! The static tile grid: a row-major vector of cells, each knowing its
//! row, column and whether it is a wall.
//!
//! World positions are measured in sub-units; a tile spans `cell_w` by
//! `cell_h` sub-units, so the grid's bounding rectangle runs from `(0, 0)`
//! to `(width * cell_w, height * cell_h)`.

use vstd::prelude::*;

verus! {

/// Largest accepted number of tiles along either grid side.
pub const MAX_GRID_SIDE: u16 = 1024;

/// Largest accepted tile span in sub-units.
pub const MAX_CELL_SIZE: i64 = 65536;

/// One tile of the grid.
#[derive(Copy, Clone)]
pub struct Cell {
    pub row: u16,
    pub col: u16,
    pub is_wall: bool,
}

impl Cell {
    /// The all-zero open cell.
    pub fn default() -> (r: Self)
        ensures
            r.row == 0 && r.col == 0 && !r.is_wall,
    {
        Cell { row: 0, col: 0, is_wall: false }
    }

    /// A cell at the given row and column.
    pub fn new(row: u16, col: u16, is_wall: bool) -> (r: Self)
        ensures
            r.row == row && r.col == col && r.is_wall == is_wall,
    {
        Cell { row, col, is_wall }
    }
}

/// A rectangular tile grid, row-major, immutable after construction.
pub struct Grid {
    width: u16,
    height: u16,
    cell_w: i64,
    cell_h: i64,
    cells: Vec<Cell>,
}

impl Grid {
    /// Number of tiles along a row.
    pub closed spec fn spec_width(self) -> int {
        self.width as int
    }

    /// Number of tiles along a column.
    pub closed spec fn spec_height(self) -> int {
        self.height as int
    }

    /// Sub-units spanned by one tile along a row.
    pub closed spec fn spec_cell_w(self) -> int {
        self.cell_w as int
    }

    /// Sub-units spanned by one tile along a column.
    pub closed spec fn spec_cell_h(self) -> int {
        self.cell_h as int
    }

    /// Width of the grid's bounding rectangle in sub-units.
    pub open spec fn world_w(self) -> int {
        self.spec_width() * self.spec_cell_w()
    }

    /// Height of the grid's bounding rectangle in sub-units.
    pub open spec fn world_h(self) -> int {
        self.spec_height() * self.spec_cell_h()
    }

    /// Whether the tile at the given column and row is a wall.
    pub closed spec fn spec_wall_at(self, col: int, row: int) -> bool {
        self.cells[row * self.spec_width() + col].is_wall
    }

    /// Structural soundness: dimensions within bounds, one cell per tile,
    /// each cell labelled with its own row and column.
    pub closed spec fn wf(self) -> bool {
        &&& 1 <= self.width <= MAX_GRID_SIDE
        &&& 1 <= self.height <= MAX_GRID_SIDE
        &&& 1 <= self.cell_w <= MAX_CELL_SIZE
        &&& 1 <= self.cell_h <= MAX_CELL_SIZE
        &&& self.cells.len() == self.spec_width() * self.spec_height()
        &&& forall|k: int|
            0 <= k < self.cells.len() ==> (#[trigger] self.cells[k]).row == k / self.spec_width()
                && self.cells[k].col == k % self.spec_width()
    }

    /// Bounds that well-formedness grants, stated once for callers.
    pub proof fn lemma_wf_bounds(self)
        requires
            self.wf(),
        ensures
            1 <= self.spec_width() <= MAX_GRID_SIDE,
            1 <= self.spec_height() <= MAX_GRID_SIDE,
            1 <= self.spec_cell_w() <= MAX_CELL_SIZE,
            1 <= self.spec_cell_h() <= MAX_CELL_SIZE,
            self.spec_cell_w() <= self.world_w() <= 0x400_0000,
            self.spec_cell_h() <= self.world_h() <= 0x400_0000,
    {
        assert(self.spec_width() * self.spec_cell_w() <= 1024 * 65536) by (nonlinear_arith)
            requires
                1 <= self.spec_width() <= 1024 && 1 <= self.spec_cell_w() <= 65536,
        ;
        assert(self.spec_height() * self.spec_cell_h() <= 1024 * 65536) by (nonlinear_arith)
            requires
                1 <= self.spec_height() <= 1024 && 1 <= self.spec_cell_h() <= 65536,
        ;
        assert(self.spec_cell_w() * 1 <= self.spec_width() * self.spec_cell_w())
            by (nonlinear_arith)
            requires
                1 <= self.spec_width() && 0 <= self.spec_cell_w(),
        ;
        assert(self.spec_cell_h() * 1 <= self.spec_height() * self.spec_cell_h())
            by (nonlinear_arith)
            requires
                1 <= self.spec_height() && 0 <= self.spec_cell_h(),
        ;
    }

    /// Builds a grid from row-major tile values (`1` is a wall, any other
    /// value open), the tile counts and the tile spans.  Returns `None`
    /// exactly when a dimension is out of bounds or the value list does not
    /// cover the grid.
    pub fn new(width: u16, height: u16, cell_w: i64, cell_h: i64, tile_values: &Vec<i32>) -> (r:
        Option<Grid>)
        ensures
            r is Some <==> {
                &&& 1 <= width <= MAX_GRID_SIDE
                &&& 1 <= height <= MAX_GRID_SIDE
                &&& 1 <= cell_w <= MAX_CELL_SIZE
                &&& 1 <= cell_h <= MAX_CELL_SIZE
                &&& tile_values.len() == width * height
            },
            r matches Some(g) ==> {
                &&& g.wf()
                &&& g.spec_width() == width
                &&& g.spec_height() == height
                &&& g.spec_cell_w() == cell_w
                &&& g.spec_cell_h() == cell_h
                &&& forall|col: int, row: int|
                    0 <= col < width && 0 <= row < height ==> #[trigger] g.spec_wall_at(col, row)
                        == (tile_values[row * width + col] == 1)
            },
    {
        if !(1 <= width && width <= MAX_GRID_SIDE) {
            return None;
        }
        if !(1 <= height && height <= MAX_GRID_SIDE) {
            return None;
        }
        if !(1 <= cell_w && cell_w <= MAX_CELL_SIZE) {
            return None;
        }
        if !(1 <= cell_h && cell_h <= MAX_CELL_SIZE) {
            return None;
        }
        assert((width as int) * (height as int) <= 1024 * 1024) by (nonlinear_arith)
            requires
                1 <= width <= 1024 && 1 <= height <= 1024,
        ;
        let n: usize = (width as usize) * (height as usize);
        if tile_values.len() != n {
            return None;
        }
        let mut cells: Vec<Cell> = Vec::new();
        let mut k: usize = 0;
        while k < n
            invariant
                0 <= k <= n,
                n == width * height,
                tile_values.len() == n,
                1 <= width,
                cells.len() == k,
                forall|j: int|
                    0 <= j < k ==> (#[trigger] cells[j]).row == j / (width as int) && cells[j].col
                        == j % (width as int) && cells[j].is_wall == (tile_values[j] == 1),
            decreases n - k,
        {
            let row: usize = k / (width as usize);
            let col: usize = k % (width as usize);
            assert(row < height as int) by {
                assert(k < width * height);
                assert((k as int) / (width as int) < height as int) by (nonlinear_arith)
                    requires
                        0 <= k < (width as int) * (height as int) && 1 <= width,
                ;
            }
            assert(col < width as int) by {
                assert((k as int) % (width as int) < width as int) by (nonlinear_arith)
                    requires
                        1 <= width && 0 <= k,
                ;
            }
            cells.push(Cell::new(row as u16, col as u16, tile_values[k] == 1));
            k = k + 1;
        }
        let g = Grid { width, height, cell_w, cell_h, cells };
        proof {
            assert forall|col: int, row: int|
                0 <= col < width && 0 <= row < height implies #[trigger] g.spec_wall_at(col, row)
                == (tile_values[row * width + col] == 1) by {
                assert(0 <= row * (width as int) + col < (width as int) * (height as int))
                    by (nonlinear_arith)
                    requires
                        0 <= col < width && 0 <= row < height,
                ;
            }
        }
        Some(g)
    }

    /// Number of tiles along a row.
    pub fn width(&self) -> (r: u16)
        ensures
            r == self.spec_width(),
    {
        self.width
    }

    /// Number of tiles along a column.
    pub fn height(&self) -> (r: u16)
        ensures
            r == self.spec_height(),
    {
        self.height
    }

    /// Sub-units spanned by one tile along a row.
    pub fn cell_w(&self) -> (r: i64)
        ensures
            r == self.spec_cell_w(),
    {
        self.cell_w
    }

    /// Sub-units spanned by one tile along a column.
    pub fn cell_h(&self) -> (r: i64)
        ensures
            r == self.spec_cell_h(),
    {
        self.cell_h
    }

    /// Tile-occupancy query: whether tile `(col, row)` is a wall.  The
    /// caster's bounds check runs before every call, so out-of-range
    /// indices are refused here by contract.
    pub fn is_wall(&self, col: u16, row: u16) -> (r: bool)
        requires
            self.wf(),
            col < self.spec_width(),
            row < self.spec_height(),
        ensures
            r == self.spec_wall_at(col as int, row as int),
    {
        assert(0 <= (row as int) * (self.width as int) + (col as int) < (self.width as int) * (
        self.height as int) <= 1024 * 1024) by (nonlinear_arith)
            requires
                0 <= col < self.width && 0 <= row < self.height && self.width <= 1024
                    && self.height <= 1024,
        ;
        let idx: usize = (row as usize) * (self.width as usize) + (col as usize);
        self.cells[idx].is_wall
    }
}

/// The cell at column `i`, row `j` of the grid.
pub fn get_cell(i: u16, j: u16, grid: &Grid) -> (r: Cell)
    requires
        grid.wf(),
        i < grid.spec_width(),
        j < grid.spec_height(),
    ensures
        r.col == i,
        r.row == j,
        r.is_wall == grid.spec_wall_at(i as int, j as int),
{
    assert(0 <= (j as int) * grid.spec_width() + (i as int) < grid.spec_width()
        * grid.spec_height() <= 1024 * 1024) by (nonlinear_arith)
        requires
            0 <= i < grid.spec_width() && 0 <= j < grid.spec_height() && grid.spec_width() <= 1024
                && grid.spec_height() <= 1024,
    ;
    let idx: usize = (j as usize) * (grid.width() as usize) + (i as usize);
    proof {
        vstd::arithmetic::div_mod::lemma_fundamental_div_mod_converse(
            idx as int,
            grid.spec_width(),
            j as int,
            i as int,
        );
    }
    grid.cells[idx]
}

/// The column index of the tile containing a nonnegative x position.
pub fn get_column_index(position_x: i64, cell_w: i64) -> (r: u16)
    requires
        0 <= position_x,
        1 <= cell_w,
        position_x / cell_w <= u16::MAX,
    ensures
        r == position_x as int / cell_w as int,
{
    (position_x / cell_w) as u16
}

/// The row index of the tile containing a nonnegative y position.
pub fn get_row_index(position_y: i64, cell_h: i64) -> (r: u16)
    requires
        0 <= position_y,
        1 <= cell_h,
        position_y / cell_h <= u16::MAX,
    ensures
        r == position_y as int / cell_h as int,
{
    (position_y / cell_h) as u16
}

} // verus!
