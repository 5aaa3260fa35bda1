//! The ray/grid intersection engine.
//!
//! A cast runs two independent sweeps: one over the row lines the ray
//! crosses and one over the column lines, each walking one grid line at a
//! time until it meets a wall tile or leaves the grid's bounding
//! rectangle.  The cast takes the sweep with the smaller capped distance
//! and records which family of grid lines produced it.
//!
//! Each sweep is specified by a recursive walk over the grid lines
//! (`row_walk`, `col_walk`), returning the squared Euclidean distance to
//! the wall that was hit, or nothing when the ray leaves the rectangle —
//! the sentinel case.  A ray exactly parallel to a family never crosses
//! that family's lines and reports the sentinel at once, avoiding the
//! division by the vanishing direction component.

use vstd::prelude::*;
use crate::angle::{spec_facing_left, spec_facing_up, spec_horizontal, spec_vertical, HALF_TURN,
    QUARTER_TURN, THREE_QUARTER_TURN};
use crate::direction::Direction;
use crate::grid::Grid;
use crate::math::{mul_div_trunc, scale_trunc, sqrt_floor};

verus! {

/// Whether `(x, y)` lies in the grid's bounding rectangle.
pub open spec fn in_rect(g: Grid, x: int, y: int) -> bool {
    0 <= x <= g.world_w() && 0 <= y <= g.world_h()
}

/// One row-line crossing after another: at each crossing `(ix, iy)` the
/// walk stops with the squared distance from `(ox, oy)` when the tile
/// entered (column under `ix`, row `row` stepped once toward travel) is a
/// wall, stops empty when the crossing leaves the bounding rectangle or
/// the tile indices leave the grid, and otherwise advances by one row.
pub open spec fn row_walk(
    g: Grid,
    ox: int,
    oy: int,
    up: bool,
    ix: int,
    iy: int,
    row: int,
    dx_step: int,
    dy_step: int,
) -> Option<int>
    decreases (if up {
        row + 1
    } else {
        g.spec_height() - row
    }),
{
    if !in_rect(g, ix, iy) {
        None
    } else {
        let col = ix / g.spec_cell_w();
        let nrow = if up {
            row - 1
        } else {
            row + 1
        };
        if !(0 <= col < g.spec_width() && 0 <= nrow < g.spec_height()) {
            None
        } else if g.spec_wall_at(col, nrow) {
            Some((ix - ox) * (ix - ox) + (iy - oy) * (iy - oy))
        } else {
            row_walk(g, ox, oy, up, ix + dx_step, iy + dy_step, nrow, dx_step, dy_step)
        }
    }
}

/// One column-line crossing after another, the mirror of `row_walk`:
/// the column index is stepped, the row index read off the crossing.
pub open spec fn col_walk(
    g: Grid,
    ox: int,
    oy: int,
    left: bool,
    ix: int,
    iy: int,
    col: int,
    dx_step: int,
    dy_step: int,
) -> Option<int>
    decreases (if left {
        col + 1
    } else {
        g.spec_width() - col
    }),
{
    if !in_rect(g, ix, iy) {
        None
    } else {
        let row = iy / g.spec_cell_h();
        let ncol = if left {
            col - 1
        } else {
            col + 1
        };
        if !(0 <= ncol < g.spec_width() && 0 <= row < g.spec_height()) {
            None
        } else if g.spec_wall_at(ncol, row) {
            Some((ix - ox) * (ix - ox) + (iy - oy) * (iy - oy))
        } else {
            col_walk(g, ox, oy, left, ix + dx_step, iy + dy_step, ncol, dx_step, dy_step)
        }
    }
}

/// The row-line sweep: the squared distance to the nearest wall met at a
/// row crossing, or nothing when the ray is row-parallel, starts outside
/// the rectangle, or leaves it without a hit.
pub open spec fn sweep_rows_sq(g: Grid, ox: int, oy: int, d: Direction) -> Option<int> {
    let a = d.spec_angle();
    if !in_rect(g, ox, oy) || spec_horizontal(a) {
        None
    } else {
        let up = spec_facing_up(a);
        let ch = g.spec_cell_h();
        let y0 = if up {
            -(oy % ch)
        } else {
            ch - oy % ch
        };
        let x0adv = scale_trunc(vstd::math::abs(y0) as int, d.spec_dx(), vstd::math::abs(
            d.spec_dy(),
        ) as int);
        let dx_step = scale_trunc(ch, d.spec_dx(), vstd::math::abs(d.spec_dy()) as int);
        let dy_step = if up {
            -ch
        } else {
            ch
        };
        row_walk(g, ox, oy, up, ox + x0adv, oy + y0, oy / ch, dx_step, dy_step)
    }
}

/// The column-line sweep: the squared distance to the nearest wall met at
/// a column crossing, or nothing when the ray is column-parallel, starts
/// outside the rectangle, or leaves it without a hit.
pub open spec fn sweep_cols_sq(g: Grid, ox: int, oy: int, d: Direction) -> Option<int> {
    let a = d.spec_angle();
    if !in_rect(g, ox, oy) || spec_vertical(a) {
        None
    } else {
        let left = spec_facing_left(a);
        let cw = g.spec_cell_w();
        let x0 = if left {
            -(ox % cw)
        } else {
            cw - ox % cw
        };
        let y0adv = scale_trunc(vstd::math::abs(x0) as int, d.spec_dy(), vstd::math::abs(
            d.spec_dx(),
        ) as int);
        let dy_step = scale_trunc(cw, d.spec_dy(), vstd::math::abs(d.spec_dx()) as int);
        let dx_step = if left {
            -cw
        } else {
            cw
        };
        col_walk(g, ox, oy, left, ox + x0, oy + y0adv, ox / cw, dx_step, dy_step)
    }
}

/// Runs the row-line sweep on the grid.
pub fn sweep_rows(grid: &Grid, ox: i64, oy: i64, dir: &Direction) -> (r: Option<u64>)
    requires
        grid.wf(),
        dir.wf(),
    ensures
        r is None <==> sweep_rows_sq(*grid, ox as int, oy as int, *dir) is None,
        r matches Some(s) ==> sweep_rows_sq(*grid, ox as int, oy as int, *dir) == Some(s as int)
            && s <= 0x20_0000_0000_0000,
{
    proof {
        grid.lemma_wf_bounds();
    }
    let cell_w: i64 = grid.cell_w();
    let cell_h: i64 = grid.cell_h();
    let width: u16 = grid.width();
    let height: u16 = grid.height();
    let ww: i64 = (width as i64) * cell_w;
    let wh: i64 = (height as i64) * cell_h;
    if ox < 0 || oy < 0 || ox > ww || oy > wh {
        return None;
    }
    let angle: u32 = dir.angle();
    if angle == 0 || angle == HALF_TURN {
        return None;
    }
    let up: bool = angle > HALF_TURN;
    let dx: i64 = dir.dx();
    let dy: i64 = dir.dy();
    let ady: i64 = if dy < 0 {
        -dy
    } else {
        dy
    };
    let ymod: i64 = oy % cell_h;
    let y0: i64 = if up {
        -ymod
    } else {
        cell_h - ymod
    };
    let ay0: i64 = if up {
        ymod
    } else {
        cell_h - ymod
    };
    let x0adv: i64 = mul_div_trunc(ay0, dx, ady);
    let dx_step: i64 = mul_div_trunc(cell_h, dx, ady);
    let dy_step: i64 = if up {
        -cell_h
    } else {
        cell_h
    };
    let mut ix: i64 = ox + x0adv;
    let mut iy: i64 = oy + y0;
    let mut row: i64 = oy / cell_h;
    proof {
        vstd::arithmetic::div_mod::lemma_div_basics_4(oy as int, cell_h as int);
        vstd::arithmetic::div_mod::lemma_div_is_ordered(oy as int, wh as int, cell_h as int);
        vstd::arithmetic::div_mod::lemma_div_by_multiple(height as int, cell_h as int);
        assert(row <= height);
    }
    loop
        invariant
            grid.wf(),
            dir.wf(),
            cell_w == grid.spec_cell_w(),
            cell_h == grid.spec_cell_h(),
            width == grid.spec_width(),
            height == grid.spec_height(),
            ww == grid.world_w(),
            wh == grid.world_h(),
            0x10000 >= cell_w >= 1 && 0x10000 >= cell_h >= 1,
            ww <= 0x400_0000 && wh <= 0x400_0000,
            up == spec_facing_up(dir.spec_angle()),
            !spec_horizontal(dir.spec_angle()),
            dx == dir.spec_dx(),
            dy == dir.spec_dy(),
            dy != 0,
            ady == vstd::math::abs(dy as int),
            dx_step == scale_trunc(cell_h as int, dx as int, ady as int),
            -0x1_0000_0000 <= dx_step <= 0x1_0000_0000,
            dy_step == (if up {
                -(cell_h as int)
            } else {
                cell_h as int
            }),
            0 <= ox <= ww,
            0 <= oy <= wh,
            -0x2_0000_0000 <= ix <= 0x2_0000_0000,
            -0x2_0000 <= iy <= 0x500_0000,
            0 <= row <= height,
            sweep_rows_sq(*grid, ox as int, oy as int, *dir) == row_walk(
                *grid,
                ox as int,
                oy as int,
                up,
                ix as int,
                iy as int,
                row as int,
                dx_step as int,
                dy_step as int,
            ),
        decreases (if up {
            row + 1
        } else {
            grid.spec_height() - row
        }),
    {
        if ix < 0 || iy < 0 || ix > ww || iy > wh {
            return None;
        }
        let col: i64 = ix / cell_w;
        proof {
            vstd::arithmetic::div_mod::lemma_div_basics_4(ix as int, cell_w as int);
        }
        let nrow: i64 = if up {
            row - 1
        } else {
            row + 1
        };
        if !(col < width as i64 && 0 <= nrow && nrow < height as i64) {
            return None;
        }
        if grid.is_wall(col as u16, nrow as u16) {
            let ddx: i64 = ix - ox;
            let ddy: i64 = iy - oy;
            assert(0 <= ddx * ddx <= 0x10_0000_0000_0000 && 0 <= ddy * ddy
                <= 0x10_0000_0000_0000) by (nonlinear_arith)
                requires
                    -0x400_0000 <= ddx <= 0x400_0000 && -0x400_0000 <= ddy <= 0x400_0000,
            ;
            let sq: u64 = ((ddx * ddx) as u64) + ((ddy * ddy) as u64);
            return Some(sq);
        }
        ix = ix + dx_step;
        iy = iy + dy_step;
        row = nrow;
    }
}

/// Runs the column-line sweep on the grid.
pub fn sweep_cols(grid: &Grid, ox: i64, oy: i64, dir: &Direction) -> (r: Option<u64>)
    requires
        grid.wf(),
        dir.wf(),
    ensures
        r is None <==> sweep_cols_sq(*grid, ox as int, oy as int, *dir) is None,
        r matches Some(s) ==> sweep_cols_sq(*grid, ox as int, oy as int, *dir) == Some(s as int)
            && s <= 0x20_0000_0000_0000,
{
    proof {
        grid.lemma_wf_bounds();
    }
    let cell_w: i64 = grid.cell_w();
    let cell_h: i64 = grid.cell_h();
    let width: u16 = grid.width();
    let height: u16 = grid.height();
    let ww: i64 = (width as i64) * cell_w;
    let wh: i64 = (height as i64) * cell_h;
    if ox < 0 || oy < 0 || ox > ww || oy > wh {
        return None;
    }
    let angle: u32 = dir.angle();
    if angle == QUARTER_TURN || angle == THREE_QUARTER_TURN {
        return None;
    }
    let left: bool = QUARTER_TURN < angle && angle < THREE_QUARTER_TURN;
    let dx: i64 = dir.dx();
    let dy: i64 = dir.dy();
    let adx: i64 = if dx < 0 {
        -dx
    } else {
        dx
    };
    let xmod: i64 = ox % cell_w;
    let x0: i64 = if left {
        -xmod
    } else {
        cell_w - xmod
    };
    let ax0: i64 = if left {
        xmod
    } else {
        cell_w - xmod
    };
    let y0adv: i64 = mul_div_trunc(ax0, dy, adx);
    let dy_step: i64 = mul_div_trunc(cell_w, dy, adx);
    let dx_step: i64 = if left {
        -cell_w
    } else {
        cell_w
    };
    let mut ix: i64 = ox + x0;
    let mut iy: i64 = oy + y0adv;
    let mut col: i64 = ox / cell_w;
    proof {
        vstd::arithmetic::div_mod::lemma_div_basics_4(ox as int, cell_w as int);
        vstd::arithmetic::div_mod::lemma_div_is_ordered(ox as int, ww as int, cell_w as int);
        vstd::arithmetic::div_mod::lemma_div_by_multiple(width as int, cell_w as int);
        assert(col <= width);
    }
    loop
        invariant
            grid.wf(),
            dir.wf(),
            cell_w == grid.spec_cell_w(),
            cell_h == grid.spec_cell_h(),
            width == grid.spec_width(),
            height == grid.spec_height(),
            ww == grid.world_w(),
            wh == grid.world_h(),
            0x10000 >= cell_w >= 1 && 0x10000 >= cell_h >= 1,
            ww <= 0x400_0000 && wh <= 0x400_0000,
            left == spec_facing_left(dir.spec_angle()),
            !spec_vertical(dir.spec_angle()),
            dx == dir.spec_dx(),
            dy == dir.spec_dy(),
            dx != 0,
            adx == vstd::math::abs(dx as int),
            dy_step == scale_trunc(cell_w as int, dy as int, adx as int),
            -0x1_0000_0000 <= dy_step <= 0x1_0000_0000,
            dx_step == (if left {
                -(cell_w as int)
            } else {
                cell_w as int
            }),
            0 <= ox <= ww,
            0 <= oy <= wh,
            -0x2_0000_0000 <= iy <= 0x2_0000_0000,
            -0x2_0000 <= ix <= 0x500_0000,
            0 <= col <= width,
            sweep_cols_sq(*grid, ox as int, oy as int, *dir) == col_walk(
                *grid,
                ox as int,
                oy as int,
                left,
                ix as int,
                iy as int,
                col as int,
                dx_step as int,
                dy_step as int,
            ),
        decreases (if left {
            col + 1
        } else {
            grid.spec_width() - col
        }),
    {
        if ix < 0 || iy < 0 || ix > ww || iy > wh {
            return None;
        }
        let row: i64 = iy / cell_h;
        proof {
            vstd::arithmetic::div_mod::lemma_div_basics_4(iy as int, cell_h as int);
        }
        let ncol: i64 = if left {
            col - 1
        } else {
            col + 1
        };
        if !(row < height as i64 && 0 <= ncol && ncol < width as i64) {
            return None;
        }
        if grid.is_wall(ncol as u16, row as u16) {
            let ddx: i64 = ix - ox;
            let ddy: i64 = iy - oy;
            assert(0 <= ddx * ddx <= 0x10_0000_0000_0000 && 0 <= ddy * ddy
                <= 0x10_0000_0000_0000) by (nonlinear_arith)
                requires
                    -0x400_0000 <= ddx <= 0x400_0000 && -0x400_0000 <= ddy <= 0x400_0000,
            ;
            let sq: u64 = ((ddx * ddx) as u64) + ((ddy * ddy) as u64);
            return Some(sq);
        }
        ix = ix + dx_step;
        iy = iy + dy_step;
        col = ncol;
    }
}

/// Which family of grid lines produced the nearest hit.
#[derive(Copy, Clone, PartialEq, Eq, Structural, Debug)]
pub enum HitFamily {
    Vertical,
    Horizontal,
}

/// A ray's hit: its capped distance in sub-units and the family of grid
/// lines crossed at the nearest wall.  Recomputed every frame.
#[derive(Copy, Clone, PartialEq, Eq, Structural, Debug)]
pub struct RayHit {
    pub distance: i64,
    pub family: HitFamily,
}

/// A sweep's squared distance lifted to the mathematical model.
pub open spec fn sq_model(o: Option<u64>) -> Option<int> {
    match o {
        Some(s) => Some(s as int),
        None => None,
    }
}

/// The length a sweep contributes to the cast: the sentinel
/// `max_ray_length` when it found no wall, else the floor square root of
/// its squared distance, capped at the sentinel.
pub open spec fn family_len(m: Option<int>, max_ray_length: int) -> int {
    match m {
        Some(sq) => vstd::math::min(sqrt_floor(sq as nat) as int, max_ray_length),
        None => max_ray_length,
    }
}

/// The distance a cast reports: the smaller of the two sweeps' capped
/// lengths.
pub open spec fn spec_cast_distance(g: Grid, ox: int, oy: int, d: Direction, max_ray_length: int)
    -> int {
    vstd::math::min(
        family_len(sweep_cols_sq(g, ox, oy, d), max_ray_length),
        family_len(sweep_rows_sq(g, ox, oy, d), max_ray_length),
    )
}

/// The family a cast reports: vertical exactly when the column sweep's
/// capped length is strictly smaller, ties going to the horizontal family.
pub open spec fn spec_cast_family(g: Grid, ox: int, oy: int, d: Direction, max_ray_length: int)
    -> HitFamily {
    if family_len(sweep_cols_sq(g, ox, oy, d), max_ray_length) < family_len(
        sweep_rows_sq(g, ox, oy, d),
        max_ray_length,
    ) {
        HitFamily::Vertical
    } else {
        HitFamily::Horizontal
    }
}

/// Caps one sweep's squared distance to a length in `[0, max_ray_length]`.
pub(crate) fn cap_len(sq: Option<u64>, max_ray_length: i64) -> (r: i64)
    requires
        0 < max_ray_length,
        sq matches Some(s) ==> s <= 0x20_0000_0000_0000,
    ensures
        r == family_len(sq_model(sq), max_ray_length as int),
        0 <= r <= max_ray_length,
{
    match sq {
        None => max_ray_length,
        Some(s) => {
            let d: u64 = crate::math::isqrt(s);
            proof {
                crate::math::lemma_sqrt_floor_bounds(s as nat);
                assert(d <= 0x800_0000) by {
                    if d > 0x800_0000 {
                        assert((d as int) * (d as int) > 0x800_0000 * 0x800_0000)
                            by (nonlinear_arith)
                            requires
                                d > 0x800_0000,
                        ;
                    }
                }
            }
            if (d as i64) < max_ray_length {
                d as i64
            } else {
                max_ray_length
            }
        },
    }
}

/// Casts one ray: runs both sweeps from `(ox, oy)` along `dir` and takes
/// the smaller capped distance, recording which family produced it.  When
/// neither sweep meets a wall — the ray is pointed at open space beyond
/// the grid, or starts outside it — the distance is exactly the sentinel
/// `max_ray_length`.
pub fn cast(grid: &Grid, ox: i64, oy: i64, dir: &Direction, max_ray_length: i64) -> (r: RayHit)
    requires
        grid.wf(),
        dir.wf(),
        0 < max_ray_length,
    ensures
        r.distance == spec_cast_distance(*grid, ox as int, oy as int, *dir, max_ray_length as int),
        r.family == spec_cast_family(*grid, ox as int, oy as int, *dir, max_ray_length as int),
        0 <= r.distance <= max_ray_length,
        sweep_rows_sq(*grid, ox as int, oy as int, *dir) is None && sweep_cols_sq(
            *grid,
            ox as int,
            oy as int,
            *dir,
        ) is None ==> r.distance == max_ray_length,
{
    let rows = sweep_rows(grid, ox, oy, dir);
    let cols = sweep_cols(grid, ox, oy, dir);
    let len_h: i64 = cap_len(rows, max_ray_length);
    let len_v: i64 = cap_len(cols, max_ray_length);
    if len_v < len_h {
        RayHit { distance: len_v, family: HitFamily::Vertical }
    } else {
        RayHit { distance: len_h, family: HitFamily::Horizontal }
    }
}

/// Axis-alignment law: a ray exactly parallel to one family of grid lines
/// never crosses them, and that family's sweep reports the sentinel — no
/// division by the vanishing tangent is attempted.
pub proof fn lemma_axis_parallel_sentinel(g: Grid, ox: int, oy: int, d: Direction)
    ensures
        spec_horizontal(d.spec_angle()) ==> sweep_rows_sq(g, ox, oy, d) is None,
        spec_vertical(d.spec_angle()) ==> sweep_cols_sq(g, ox, oy, d) is None,
{
}

/// Idempotence law: casting the same ray twice against an unchanged grid
/// yields identical results — any two hits meeting `cast`'s contract for
/// the same observer pose, direction and grid are equal.
pub proof fn lemma_cast_idempotent(
    g: Grid,
    ox: i64,
    oy: i64,
    d: Direction,
    max_ray_length: i64,
    r1: RayHit,
    r2: RayHit,
)
    requires
        r1.distance == spec_cast_distance(g, ox as int, oy as int, d, max_ray_length as int),
        r1.family == spec_cast_family(g, ox as int, oy as int, d, max_ray_length as int),
        r2.distance == spec_cast_distance(g, ox as int, oy as int, d, max_ray_length as int),
        r2.family == spec_cast_family(g, ox as int, oy as int, d, max_ray_length as int),
    ensures
        r1 == r2,
{
}

} // verus!
