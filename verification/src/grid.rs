//! Layout of the enemy grid: how many rows and columns fit between the
//! walls, and where each enemy stands.
//!
//! Every coordinate the grid hands out is *doubled* (twice the world
//! coordinate).  Centring the grid halves odd sums, and doubling keeps
//! those halves exact integers; callers divide by two when they convert
//! to their rendering coordinates.

use vstd::prelude::*;

verus! {

use crate::COORD_LIMIT;
use vstd::arithmetic::div_mod::{
    lemma_div_by_self,
    lemma_div_is_ordered,
    lemma_div_nonincreasing,
    lemma_div_pos_is_pos,
    lemma_fundamental_div_mod_converse_div,
    lemma_fundamental_div_mod_converse_mod,
    lemma_remainder_lower,
};
use vstd::arithmetic::mul::{
    lemma_mul_basics,
    lemma_mul_inequality,
    lemma_mul_is_commutative,
    lemma_mul_is_distributive_add_other_way,
};

/// Everything the enemy-grid layout depends on: the side walls, the
/// ceiling, the bottom edge of the grid (set by the player's row), the
/// gaps to keep clear, the size of one enemy, and the spacing between
/// neighbouring enemies.
#[derive(Clone, Copy, PartialEq, Eq, Structural, Debug)]
pub struct GridConfig {
    pub left_wall: i64,
    pub right_wall: i64,
    pub top_wall: i64,
    pub bottom_edge: i64,
    pub side_gap: i64,
    pub ceiling_gap: i64,
    pub enemy_width: i64,
    pub enemy_height: i64,
    pub spacing: i64,
}

impl GridConfig {
    /// Horizontal space available to the grid.
    pub open spec fn total_width(self) -> int {
        self.right_wall - self.left_wall - 2 * self.side_gap
    }

    /// Vertical space available to the grid.
    pub open spec fn total_height(self) -> int {
        self.top_wall - self.bottom_edge - self.ceiling_gap
    }

    /// Horizontal pitch of the grid: one enemy plus one gap.
    pub open spec fn cell_width(self) -> int {
        self.enemy_width + self.spacing
    }

    /// Vertical pitch of the grid.
    pub open spec fn cell_height(self) -> int {
        self.enemy_height + self.spacing
    }

    /// A layable grid: bounded coordinates, non-negative gaps, positive
    /// enemy size, positive space on both axes, and room for at least one
    /// column.
    pub open spec fn wf(self) -> bool {
        &&& -COORD_LIMIT <= self.left_wall < self.right_wall <= COORD_LIMIT
        &&& -COORD_LIMIT <= self.bottom_edge <= COORD_LIMIT
        &&& -COORD_LIMIT <= self.top_wall <= COORD_LIMIT
        &&& 0 <= self.side_gap <= COORD_LIMIT
        &&& 0 <= self.ceiling_gap <= COORD_LIMIT
        &&& 0 < self.enemy_width <= COORD_LIMIT
        &&& 0 < self.enemy_height <= COORD_LIMIT
        &&& 0 <= self.spacing <= COORD_LIMIT
        &&& self.total_width() > 0
        &&& self.total_height() > 0
        &&& self.cell_width() <= self.total_width()
    }

    /// Number of columns that fit in the available width.
    pub open spec fn columns(self) -> int {
        self.total_width() / self.cell_width()
    }

    /// Number of rows that fit in the available height.
    pub open spec fn rows(self) -> int {
        self.total_height() / self.cell_height()
    }

    /// Twice the x coordinate of the first (leftmost) column's centre:
    /// the grid is centred between the walls, so the left edge sits at
    /// the arena's centre minus half the grid's width, and the column
    /// centre is half an enemy further right.
    pub open spec fn origin_x2(self) -> int {
        self.left_wall + self.right_wall - self.columns() * self.enemy_width - (self.columns()
            - 1) * self.spacing + self.enemy_width
    }

    /// Twice the y coordinate of the first (bottom) row's centre: the
    /// grid's bottom edge plus half an enemy.
    pub open spec fn origin_y2(self) -> int {
        2 * self.bottom_edge + self.enemy_height
    }

    /// Doubled centre coordinates of the enemy in the given row and
    /// column.
    pub open spec fn position_at(self, row: int, col: int) -> (int, int) {
        (
            self.origin_x2() + 2 * col * self.cell_width(),
            self.origin_y2() + 2 * row * self.cell_height(),
        )
    }
}

/// How many whole cells of size `cell` fit into `total` units of space.
fn grid_count(total: i64, cell: i64) -> (n: usize)
    requires
        0 < total <= 2 * COORD_LIMIT,
        0 < cell,
    ensures
        n == total as int / cell as int,
        n <= total,
{
    let q: u64 = (total as u64) / (cell as u64);
    proof {
        lemma_div_nonincreasing(total as int, cell as int);
        lemma_div_pos_is_pos(total as int, cell as int);
        assert(q <= 2 * COORD_LIMIT);
    }
    q as usize
}

impl GridConfig {
    /// Number of grid columns; the well-formed configuration leaves room
    /// for at least one.
    pub fn column_count(&self) -> (n: usize)
        requires
            self.wf(),
        ensures
            n == self.columns(),
            1 <= n,
    {
        let tw = self.right_wall - self.left_wall - 2 * self.side_gap;
        let cw = self.enemy_width + self.spacing;
        let n = grid_count(tw, cw);
        proof {
            lemma_div_is_ordered(cw as int, tw as int, cw as int);
            lemma_div_by_self(cw as int);
        }
        n
    }

    /// Number of grid rows; a short arena may hold none.
    pub fn row_count(&self) -> (n: usize)
        requires
            self.wf(),
        ensures
            n == self.rows(),
    {
        let th = self.top_wall - self.bottom_edge - self.ceiling_gap;
        let ch = self.enemy_height + self.spacing;
        grid_count(th, ch)
    }

    /// Doubled centre coordinates of the bottom-left enemy.
    pub fn origin(&self) -> (o: (i64, i64))
        requires
            self.wf(),
        ensures
            o.0 == self.origin_x2(),
            o.1 == self.origin_y2(),
            -6 * COORD_LIMIT <= o.0 <= 6 * COORD_LIMIT,
            -3 * COORD_LIMIT <= o.1 <= 3 * COORD_LIMIT,
    {
        let cols = self.column_count();
        proof {
            lemma_count_times_cell_bounds(*self);
        }
        let cols_i = cols as i64;
        let enemies_wide = cols_i * self.enemy_width;
        let gaps_wide = (cols_i - 1) * self.spacing;
        let x2 = self.left_wall + self.right_wall - enemies_wide - gaps_wide + self.enemy_width;
        let y2 = 2 * self.bottom_edge + self.enemy_height;
        (x2, y2)
    }
}

impl GridConfig {
    /// Doubled centre coordinates of the enemy in the given row and
    /// column.
    pub fn enemy_position(&self, row: usize, col: usize) -> (p: (i64, i64))
        requires
            self.wf(),
            row < self.rows(),
            col < self.columns(),
        ensures
            p.0 == self.position_at(row as int, col as int).0,
            p.1 == self.position_at(row as int, col as int).1,
    {
        let o = self.origin();
        proof {
            lemma_cell_offset_bounds(*self, row as int, col as int);
        }
        let dx = 2 * (col as i64) * (self.enemy_width + self.spacing);
        let dy = 2 * (row as i64) * (self.enemy_height + self.spacing);
        (o.0 + dx, o.1 + dy)
    }

    /// Positions of the whole grid, one entry per enemy: row by row from
    /// the bottom, column by column from the left, in spawn order.
    pub fn enemy_positions(&self) -> (v: Vec<(i64, i64)>)
        requires
            self.wf(),
        ensures
            v@.len() == self.rows() * self.columns(),
            forall|i: int|
                0 <= i < v@.len() ==> (#[trigger] v@[i]).0 == self.position_at(
                    i / self.columns(),
                    i % self.columns(),
                ).0 && v@[i].1 == self.position_at(i / self.columns(), i % self.columns()).1,
    {
        let rows = self.row_count();
        let cols = self.column_count();
        let mut v: Vec<(i64, i64)> = Vec::new();
        let mut r: usize = 0;
        while r < rows
            invariant
                self.wf(),
                rows == self.rows(),
                cols == self.columns(),
                r <= rows,
                v@.len() == r * cols,
                forall|i: int|
                    0 <= i < v@.len() ==> (#[trigger] v@[i]).0 == self.position_at(
                        i / self.columns(),
                        i % self.columns(),
                    ).0 && v@[i].1 == self.position_at(i / self.columns(), i % self.columns()).1,
            decreases rows - r,
        {
            let mut c: usize = 0;
            while c < cols
                invariant
                    self.wf(),
                    rows == self.rows(),
                    cols == self.columns(),
                    r < rows,
                    c <= cols,
                    v@.len() == r * cols + c,
                    forall|i: int|
                        0 <= i < v@.len() ==> (#[trigger] v@[i]).0 == self.position_at(
                            i / self.columns(),
                            i % self.columns(),
                        ).0 && v@[i].1 == self.position_at(
                            i / self.columns(),
                            i % self.columns(),
                        ).1,
                decreases cols - c,
            {
                let p = self.enemy_position(r, c);
                proof {
                    lemma_fundamental_div_mod_converse_div(
                        r * cols + c,
                        cols as int,
                        r as int,
                        c as int,
                    );
                    lemma_fundamental_div_mod_converse_mod(
                        r * cols + c,
                        cols as int,
                        r as int,
                        c as int,
                    );
                }
                v.push(p);
                c = c + 1;
            }
            proof {
                lemma_mul_is_distributive_add_other_way(cols as int, r as int, 1);
                lemma_mul_basics(cols as int);
            }
            r = r + 1;
        }
        v
    }
}

/// Offsets of a cell inside the grid stay between zero and twice the
/// available space, so the position arithmetic stays within bounds.
proof fn lemma_cell_offset_bounds(cfg: GridConfig, row: int, col: int)
    requires
        cfg.wf(),
        0 <= row < cfg.rows(),
        0 <= col < cfg.columns(),
    ensures
        0 <= 2 * col * cfg.cell_width() <= 2 * cfg.total_width(),
        0 <= 2 * row * cfg.cell_height() <= 2 * cfg.total_height(),
        cfg.columns() <= cfg.total_width(),
        cfg.rows() <= cfg.total_height(),
{
    let tw = cfg.total_width();
    let cw = cfg.cell_width();
    let th = cfg.total_height();
    let ch = cfg.cell_height();
    let n = cfg.columns();
    let m = cfg.rows();
    lemma_div_nonincreasing(tw, cw);
    lemma_div_nonincreasing(th, ch);
    lemma_remainder_lower(tw, cw);
    lemma_remainder_lower(th, ch);
    assert(n * cw <= tw);
    assert(m * ch <= th);
    assert(0 <= 2 * col * cw <= 2 * tw) by (nonlinear_arith)
        requires
            0 <= col < n,
            0 < cw,
            n * cw <= tw,
    ;
    assert(0 <= 2 * row * ch <= 2 * th) by (nonlinear_arith)
        requires
            0 <= row < m,
            0 < ch,
            m * ch <= th,
    ;
}

/// The products `columns * enemy_width` and `(columns - 1) * spacing` are
/// trapped between zero and the available width, so the centring
/// arithmetic stays within bounds.
proof fn lemma_count_times_cell_bounds(cfg: GridConfig)
    requires
        cfg.wf(),
    ensures
        0 <= cfg.columns() * cfg.enemy_width <= cfg.total_width(),
        0 <= (cfg.columns() - 1) * cfg.spacing <= cfg.total_width(),
        cfg.columns() * cfg.cell_width() <= cfg.total_width(),
        1 <= cfg.columns() <= cfg.total_width(),
{
    let tw = cfg.total_width();
    let cw = cfg.cell_width();
    let n = cfg.columns();
    lemma_div_is_ordered(cw, tw, cw);
    lemma_div_by_self(cw);
    lemma_div_nonincreasing(tw, cw);
    lemma_remainder_lower(tw, cw);
    lemma_mul_is_commutative(n, cw);
    assert(n * cw <= tw);
    lemma_mul_inequality(cfg.enemy_width as int, cw, n);
    lemma_mul_is_commutative(n, cfg.enemy_width as int);
    lemma_mul_is_commutative(n, cfg.spacing as int);
    lemma_mul_inequality(0, cfg.enemy_width as int, n);
    lemma_mul_inequality(cfg.spacing as int, cw, n - 1);
    lemma_mul_inequality(0, cfg.spacing as int, n - 1);
    lemma_mul_is_commutative(n - 1, cfg.spacing as int);
    lemma_mul_is_commutative(n - 1, cw);
    lemma_mul_inequality(n - 1, n, cw);
    lemma_mul_is_commutative(n, cw);
}

/// Law: the computed grid fits the space it was laid out in.  Along each
/// axis the count is a non-negative whole number (the width always holds
/// at least one column) and `count * (size + gap) - gap` does not exceed
/// the available space.
pub proof fn lemma_grid_fits(cfg: GridConfig)
    requires
        cfg.wf(),
    ensures
        1 <= cfg.columns(),
        0 <= cfg.rows(),
        cfg.columns() * (cfg.enemy_width + cfg.spacing) - cfg.spacing <= cfg.total_width(),
        cfg.rows() * (cfg.enemy_height + cfg.spacing) - cfg.spacing <= cfg.total_height(),
{
    let tw = cfg.total_width();
    let cw = cfg.cell_width();
    let th = cfg.total_height();
    let ch = cfg.cell_height();
    lemma_div_is_ordered(cw, tw, cw);
    lemma_div_by_self(cw);
    lemma_div_pos_is_pos(th, ch);
    lemma_remainder_lower(tw, cw);
    lemma_remainder_lower(th, ch);
}

/// Law: every enemy of the grid stands between the side walls, above the
/// grid's bottom edge and below the ceiling gap, with the configured gap
/// and half an enemy of clearance on each side (coordinates doubled, as
/// everywhere in this module).
pub proof fn lemma_grid_inside_walls(cfg: GridConfig, row: int, col: int)
    requires
        cfg.wf(),
        0 <= row < cfg.rows(),
        0 <= col < cfg.columns(),
    ensures
        2 * cfg.left_wall + 2 * cfg.side_gap + cfg.enemy_width <= cfg.position_at(row, col).0,
        cfg.position_at(row, col).0 <= 2 * cfg.right_wall - 2 * cfg.side_gap - cfg.enemy_width,
        2 * cfg.bottom_edge + cfg.enemy_height <= cfg.position_at(row, col).1,
        cfg.position_at(row, col).1 <= 2 * cfg.top_wall - 2 * cfg.ceiling_gap - cfg.enemy_height,
{
    let ll = cfg.left_wall as int;
    let rr = cfg.right_wall as int;
    let side = cfg.side_gap as int;
    let ceil = cfg.ceiling_gap as int;
    let be = cfg.bottom_edge as int;
    let top = cfg.top_wall as int;
    let w = cfg.enemy_width as int;
    let h = cfg.enemy_height as int;
    let g = cfg.spacing as int;
    let tw = cfg.total_width();
    let cw = cfg.cell_width();
    let th = cfg.total_height();
    let ch = cfg.cell_height();
    let n = cfg.columns();
    let m = cfg.rows();
    lemma_remainder_lower(tw, cw);
    lemma_remainder_lower(th, ch);
    assert(n * cw <= tw);
    assert(m * ch <= th);
    assert(2 * ll + 2 * side + w <= ll + rr - n * w - (n - 1) * g + w + 2 * col * cw && ll + rr - n
        * w - (n - 1) * g + w + 2 * col * cw <= 2 * rr - 2 * side - w) by (nonlinear_arith)
        requires
            n * cw <= tw,
            tw == rr - ll - 2 * side,
            cw == w + g,
            0 <= col < n,
            0 < w,
            0 <= g,
            0 <= side,
            1 <= n,
    ;
    assert(2 * be + h <= 2 * be + h + 2 * row * ch && 2 * be + h + 2 * row * ch <= 2 * top - 2
        * ceil - h) by (nonlinear_arith)
        requires
            m * ch <= th,
            th == top - be - ceil,
            ch == h + g,
            0 <= row < m,
            0 < h,
            0 <= g,
            0 <= ceil,
    ;
}

} // verus!
