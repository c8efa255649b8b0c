//! The hexagonal coordinate model: tile addresses, fixed-point positions,
//! the row-major ordering index, and the parity-aware adjacency resolver.

use vstd::prelude::*;
use vstd::arithmetic::div_mod::{lemma_fundamental_div_mod, lemma_mod_bound};

verus! {

/// The orientation of the hexagons in a grid.
#[derive(Clone, Copy, PartialEq, Eq, Structural, Debug)]
pub enum HexGridOrientation {
    /// Straight columns; the flat sides of each hexagon face up and down.
    Vertical,
    /// Straight rows; the flat sides face left and right. Reserved and
    /// unimplemented: every coordinate, adjacency, or spawn operation
    /// invoked under it fails fast instead of approximating a result.
    Horizontal,
}

/// Errors raised by the grid operations.
#[derive(Clone, Copy, PartialEq, Eq, Structural, Debug)]
pub enum HexGridError {
    /// The operation was invoked under an orientation whose coordinate
    /// math is not implemented.
    UnsupportedOrientation,
}

/// A tile's logical address within a grid: column `x`, row `y`.
///
/// Created once per tile at spawn-plan time and never mutated: a tile's
/// identity is its address.
#[derive(Clone, Copy, PartialEq, Eq, Structural, Debug)]
pub struct HexTile {
    pub x: u32,
    pub y: u32,
}

/// A tile's position relative to the center of its grid, in exact
/// fixed-point units: `x` counts eighths of one tile's pixel width and
/// `y` counts quarters of one tile's pixel height (the height of a
/// regular hexagon is 0.866 times its width). A renderer recovers pixel
/// coordinates as `x * width / 8` and `y * height / 4`.
#[derive(Clone, Copy, PartialEq, Eq, Structural, Debug)]
pub struct HexPosition {
    pub x: i64,
    pub y: i64,
}

/// Horizontal offset of a tile in column `x`, in eighths of the tile
/// width: columns step by six eighths (3/4 of a tile), the whole grid is
/// shifted left so that it is centered around zero, and a further
/// half-step correction keeps it centered when `columns` is odd.
pub open spec fn spec_x_offset(x: int, columns: int) -> int {
    6 * x - (6 * (columns / 2) - 3) - if columns % 2 != 0 {
        3int
    } else {
        0int
    }
}

/// Vertical offset of the tile at `(x, y)`, in quarters of the tile
/// height: rows step by a full tile height, odd columns are shifted up by
/// half a tile, and the grid is centered around zero with a half-step
/// correction when `rows` is odd.
pub open spec fn spec_y_offset(x: int, y: int, rows: int) -> int {
    4 * y + (if x % 2 != 0 {
        2int
    } else {
        0int
    }) - (4 * (rows / 2) - 1) - if rows % 2 != 0 {
        2int
    } else {
        0int
    }
}

/// The 1-based row-major ordering index of the tile at `(x, y)`.
pub open spec fn spec_order(x: int, y: int, columns: int) -> int {
    (x + 1) + y * columns
}

/// Whether `(x, y)` lies inside a grid of the given extent.
pub open spec fn spec_in_bounds(x: int, y: int, columns: int, rows: int) -> bool {
    0 <= x < columns && 0 <= y < rows
}

/// Whether `(dx, dy)` is one of the six compass offsets of a tile in
/// column `x`. The two diagonal offsets depend on the column's parity,
/// because offset columns are shifted vertically by half a row.
pub open spec fn spec_is_offset(x: int, dx: int, dy: int) -> bool {
    (dx == 1 && dy == 0) || (dx == -1 && dy == 0) || (dx == 0 && dy == -1) || (dx == 0 && dy == 1)
        || if x % 2 == 0 {
        (dx == 1 && dy == -1) || (dx == -1 && dy == -1)
    } else {
        (dx == 1 && dy == 1) || (dx == -1 && dy == 1)
    }
}

/// Whether the in-bounds tile `(nx, ny)` borders the tile `(x, y)`.
pub open spec fn spec_is_neighbor(x: int, y: int, nx: int, ny: int, columns: int, rows: int) -> bool {
    spec_in_bounds(nx, ny, columns, rows) && spec_is_offset(x, nx - x, ny - y)
}

/// Appends `(nx, ny)` to a neighbor list when it lies inside the grid.
pub open spec fn spec_push_if_in_bounds(
    s: Seq<(u32, u32)>,
    nx: int,
    ny: int,
    columns: int,
    rows: int,
) -> Seq<(u32, u32)> {
    if spec_in_bounds(nx, ny, columns, rows) {
        s.push(((nx as u32), (ny as u32)))
    } else {
        s
    }
}

/// The neighbor list of the tile at `(x, y)`: the six parity-dependent
/// candidates, in a fixed order, filtered to the grid's extent.
pub open spec fn spec_neighbors(x: int, y: int, columns: int, rows: int) -> Seq<(u32, u32)> {
    let s = Seq::<(u32, u32)>::empty();
    let s = spec_push_if_in_bounds(s, x + 1, y, columns, rows);
    let s = spec_push_if_in_bounds(s, x - 1, y, columns, rows);
    let s = spec_push_if_in_bounds(s, x, y - 1, columns, rows);
    let s = spec_push_if_in_bounds(s, x, y + 1, columns, rows);
    if x % 2 == 0 {
        let s = spec_push_if_in_bounds(s, x + 1, y - 1, columns, rows);
        spec_push_if_in_bounds(s, x - 1, y - 1, columns, rows)
    } else {
        let s = spec_push_if_in_bounds(s, x + 1, y + 1, columns, rows);
        spec_push_if_in_bounds(s, x - 1, y + 1, columns, rows)
    }
}

/// Computes the fixed-point position of the tile at `(x, y)` under the
/// vertical ("odd-q" offset) layout.
pub(crate) fn vertical_position(x: u32, y: u32, columns: u32, rows: u32) -> (position: HexPosition)
    ensures
        position.x == spec_x_offset(x as int, columns as int),
        position.y == spec_y_offset(x as int, y as int, rows as int),
{
    let half_columns: i64 = (columns / 2) as i64;
    let half_rows: i64 = (rows / 2) as i64;
    let x_units: i64 = 6 * (x as i64) - (6 * half_columns - 3) - if columns % 2 != 0 {
        3
    } else {
        0
    };
    let y_units: i64 = 4 * (y as i64) + (if x % 2 != 0 {
        2
    } else {
        0
    }) - (4 * half_rows - 1) - if rows % 2 != 0 {
        2
    } else {
        0
    };
    HexPosition { x: x_units, y: y_units }
}

/// Appends the candidate `(nx, ny)` to `neighbors` when it lies inside
/// the grid's extent.
fn push_neighbor_if_in_bounds(
    neighbors: &mut Vec<(u32, u32)>,
    nx: i64,
    ny: i64,
    columns: u32,
    rows: u32,
)
    ensures
        final(neighbors)@ == spec_push_if_in_bounds(
            old(neighbors)@,
            nx as int,
            ny as int,
            columns as int,
            rows as int,
        ),
{
    if 0 <= nx && nx < columns as i64 && 0 <= ny && ny < rows as i64 {
        neighbors.push((nx as u32, ny as u32));
    }
}

/// A tile's initial data, ready to be realized as one child entity of the
/// grid entity: its address, its position relative to the grid's center,
/// and its initial visibility. No visual data is included at this stage.
#[derive(Clone, Copy, PartialEq, Eq, Structural, Debug)]
pub struct TileBundle {
    pub tile: HexTile,
    pub position: HexPosition,
    pub visible: bool,
}

/// Whether `bundle` carries exactly the initial data of the tile at
/// `(x, y)` in a grid of the given extent.
pub open spec fn spec_tile_bundle_matches(
    bundle: TileBundle,
    x: int,
    y: int,
    columns: int,
    rows: int,
) -> bool {
    bundle.tile.x == x && bundle.tile.y == y && bundle.position.x == spec_x_offset(x, columns)
        && bundle.position.y == spec_y_offset(x, y, rows) && bundle.visible
}

impl HexTile {
    pub fn new(x: u32, y: u32) -> (tile: HexTile)
        ensures
            tile.x == x,
            tile.y == y,
    {
        HexTile { x, y }
    }

    /// The tile's position relative to the center of its grid, in
    /// fixed-point units (see [`HexPosition`]). Fails on the unimplemented
    /// `Horizontal` orientation.
    pub fn coord_to_world(&self, columns: u32, rows: u32, orientation: HexGridOrientation) -> (r:
        Result<HexPosition, HexGridError>)
        ensures
            orientation is Vertical ==> (r matches Ok(position)
                && position.x == spec_x_offset(self.x as int, columns as int)
                && position.y == spec_y_offset(self.x as int, self.y as int, rows as int)),
            orientation is Horizontal ==> r == Err::<HexPosition, HexGridError>(
                HexGridError::UnsupportedOrientation,
            ),
    {
        match orientation {
            HexGridOrientation::Vertical => Ok(vertical_position(self.x, self.y, columns, rows)),
            HexGridOrientation::Horizontal => Err(HexGridError::UnsupportedOrientation),
        }
    }

    /// The 1-based order of this tile when the grid is read row by row:
    /// `(0, 0)` maps to 1, incrementing along a row, jumping by `columns`
    /// from one row to the next.
    pub fn coord_to_order(&self, columns: u32) -> (order: u32)
        requires
            self.x < columns,
            (self.y as int + 1) * (columns as int) <= u32::MAX as int,
        ensures
            order == spec_order(self.x as int, self.y as int, columns as int),
    {
        proof {
            let y = self.y as int;
            let c = columns as int;
            assert(y * c + c == (y + 1) * c) by (nonlinear_arith);
            assert(y * c >= 0) by (nonlinear_arith)
                requires
                    y >= 0,
                    c >= 0,
            ;
        }
        (self.x + 1) + self.y * columns
    }

    /// The addresses of the tiles bordering this one, taking the grid's
    /// extent into account: only in-bounds neighbors are returned. Fails
    /// on the unimplemented `Horizontal` orientation.
    pub fn get_neighbors(&self, columns: u32, rows: u32, orientation: HexGridOrientation) -> (r:
        Result<Vec<(u32, u32)>, HexGridError>)
        ensures
            orientation is Vertical ==> (r matches Ok(neighbors) && neighbors@ == spec_neighbors(
                self.x as int,
                self.y as int,
                columns as int,
                rows as int,
            )),
            orientation is Horizontal ==> r == Err::<Vec<(u32, u32)>, HexGridError>(
                HexGridError::UnsupportedOrientation,
            ),
    {
        match orientation {
            HexGridOrientation::Vertical => {
                let x = self.x as i64;
                let y = self.y as i64;
                let mut neighbors: Vec<(u32, u32)> = Vec::new();
                push_neighbor_if_in_bounds(&mut neighbors, x + 1, y, columns, rows);
                push_neighbor_if_in_bounds(&mut neighbors, x - 1, y, columns, rows);
                push_neighbor_if_in_bounds(&mut neighbors, x, y - 1, columns, rows);
                push_neighbor_if_in_bounds(&mut neighbors, x, y + 1, columns, rows);
                if self.x % 2 == 0 {
                    push_neighbor_if_in_bounds(&mut neighbors, x + 1, y - 1, columns, rows);
                    push_neighbor_if_in_bounds(&mut neighbors, x - 1, y - 1, columns, rows);
                } else {
                    push_neighbor_if_in_bounds(&mut neighbors, x + 1, y + 1, columns, rows);
                    push_neighbor_if_in_bounds(&mut neighbors, x - 1, y + 1, columns, rows);
                }
                Ok(neighbors)
            },
            HexGridOrientation::Horizontal => Err(HexGridError::UnsupportedOrientation),
        }
    }

    /// The tile's full initial data: itself, its position relative to the
    /// grid's center, and an initially visible flag. Consumes the tile.
    /// Fails on the unimplemented `Horizontal` orientation.
    pub fn get_bundle(self, orientation: HexGridOrientation, columns: u32, rows: u32) -> (r: Result<
        TileBundle,
        HexGridError,
    >)
        ensures
            orientation is Vertical ==> (r matches Ok(bundle) && spec_tile_bundle_matches(
                bundle,
                self.x as int,
                self.y as int,
                columns as int,
                rows as int,
            )),
            orientation is Horizontal ==> r == Err::<TileBundle, HexGridError>(
                HexGridError::UnsupportedOrientation,
            ),
    {
        match orientation {
            HexGridOrientation::Vertical => {
                let position = vertical_position(self.x, self.y, columns, rows);
                Ok(TileBundle { tile: self, position, visible: true })
            },
            HexGridOrientation::Horizontal => Err(HexGridError::UnsupportedOrientation),
        }
    }
}

/// The column holding the tile of order index `k` (1-based, row-major).
pub open spec fn spec_order_column(k: int, columns: int) -> int {
    (k - 1) % columns
}

/// The row holding the tile of order index `k` (1-based, row-major).
pub open spec fn spec_order_row(k: int, columns: int) -> int {
    (k - 1) / columns
}

/// The ordering index is a bijection from the grid's addresses onto
/// `[1, columns * rows]`: every address maps into that interval, no two
/// addresses share an index, and every index in the interval is reached —
/// by the address `(spec_order_column(k), spec_order_row(k))`.
pub proof fn lemma_order_bijective(columns: int, rows: int)
    requires
        columns >= 1,
        rows >= 1,
    ensures
        forall|x: int, y: int|
            spec_in_bounds(x, y, columns, rows) ==> 1 <= #[trigger] spec_order(x, y, columns)
                <= columns * rows,
        forall|x1: int, y1: int, x2: int, y2: int|
            #![trigger spec_order(x1, y1, columns), spec_order(x2, y2, columns)]
            spec_in_bounds(x1, y1, columns, rows) && spec_in_bounds(x2, y2, columns, rows)
                && spec_order(x1, y1, columns) == spec_order(x2, y2, columns) ==> x1 == x2 && y1
                == y2,
        forall|k: int|
            1 <= k <= columns * rows ==> spec_in_bounds(
                #[trigger] spec_order_column(k, columns),
                spec_order_row(k, columns),
                columns,
                rows,
            ) && spec_order(spec_order_column(k, columns), spec_order_row(k, columns), columns)
                == k,
{
    assert forall|x: int, y: int| spec_in_bounds(x, y, columns, rows) implies 1 <= spec_order(
        x,
        y,
        columns,
    ) <= columns * rows by {
        assert(y * columns >= 0) by (nonlinear_arith)
            requires
                y >= 0,
                columns >= 0,
        ;
        assert((y + 1) * columns <= rows * columns) by (nonlinear_arith)
            requires
                y + 1 <= rows,
                columns >= 0,
        ;
        assert(y * columns + columns == (y + 1) * columns) by (nonlinear_arith);
        assert(rows * columns == columns * rows) by (nonlinear_arith);
    }
    assert forall|x1: int, y1: int, x2: int, y2: int|
        spec_in_bounds(x1, y1, columns, rows) && spec_in_bounds(x2, y2, columns, rows)
            && spec_order(x1, y1, columns) == spec_order(x2, y2, columns) implies x1 == x2 && y1
        == y2 by {
        assert(y1 == y2) by (nonlinear_arith)
            requires
                0 <= x1 < columns,
                0 <= x2 < columns,
                (x1 + 1) + y1 * columns == (x2 + 1) + y2 * columns,
        ;
    }
    assert forall|k: int| 1 <= k <= columns * rows implies spec_in_bounds(
        spec_order_column(k, columns),
        spec_order_row(k, columns),
        columns,
        rows,
    ) && spec_order(spec_order_column(k, columns), spec_order_row(k, columns), columns) == k by {
        let x = (k - 1) % columns;
        let y = (k - 1) / columns;
        lemma_fundamental_div_mod(k - 1, columns);
        lemma_mod_bound(k - 1, columns);
        assert(y >= 0) by (nonlinear_arith)
            requires
                columns * y + x == k - 1,
                0 <= x < columns,
                k >= 1,
                columns >= 1,
        ;
        assert(y < rows) by (nonlinear_arith)
            requires
                columns * y + x == k - 1,
                0 <= x,
                k <= columns * rows,
                columns >= 1,
        ;
        assert(spec_order(x, y, columns) == k) by (nonlinear_arith)
            requires
                columns * y + x == k - 1,
        ;
    }
}

/// The position computation is deterministic: it has no hidden mutable
/// state, so any two positions meeting [`HexTile::coord_to_world`]'s
/// contract for the same address and extent are equal.
pub proof fn lemma_position_deterministic(
    first: HexPosition,
    second: HexPosition,
    x: int,
    y: int,
    columns: int,
    rows: int,
)
    requires
        first.x == spec_x_offset(x, columns),
        first.y == spec_y_offset(x, y, rows),
        second.x == spec_x_offset(x, columns),
        second.y == spec_y_offset(x, y, rows),
    ensures
        first == second,
{
}

/// Membership in `spec_push_if_in_bounds(s, ...)` is membership in `s`, or
/// being the pushed candidate when that candidate is in bounds.
proof fn lemma_push_if_contains(
    s: Seq<(u32, u32)>,
    nx: int,
    ny: int,
    columns: int,
    rows: int,
    p: (u32, u32),
)
    requires
        columns <= u32::MAX as int,
        rows <= u32::MAX as int,
    ensures
        spec_push_if_in_bounds(s, nx, ny, columns, rows).contains(p) <==> (s.contains(p) || (
        spec_in_bounds(nx, ny, columns, rows) && p == (((nx as u32), (ny as u32))))),
{
    if spec_in_bounds(nx, ny, columns, rows) {
        let e = ((nx as u32), (ny as u32));
        let t = s.push(e);
        assert(t[s.len() as int] == e);
        if s.contains(p) {
            let i = choose|i: int| 0 <= i < s.len() && s[i] == p;
            assert(t[i] == p);
        }
        if t.contains(p) && p != e {
            let i = choose|i: int| 0 <= i < t.len() && t[i] == p;
            assert(t[i] == s[i]);
        }
    }
}

/// A tile's neighbor list holds exactly the in-bounds tiles reached by one
/// of its six parity-dependent compass offsets.
pub proof fn lemma_neighbors_characterization(x: int, y: int, columns: int, rows: int)
    requires
        spec_in_bounds(x, y, columns, rows),
        columns <= u32::MAX as int,
        rows <= u32::MAX as int,
    ensures
        forall|p: (u32, u32)| #[trigger]
            spec_neighbors(x, y, columns, rows).contains(p) <==> spec_is_neighbor(
                x,
                y,
                p.0 as int,
                p.1 as int,
                columns,
                rows,
            ),
{
    let s0 = Seq::<(u32, u32)>::empty();
    let s1 = spec_push_if_in_bounds(s0, x + 1, y, columns, rows);
    let s2 = spec_push_if_in_bounds(s1, x - 1, y, columns, rows);
    let s3 = spec_push_if_in_bounds(s2, x, y - 1, columns, rows);
    let s4 = spec_push_if_in_bounds(s3, x, y + 1, columns, rows);
    assert forall|p: (u32, u32)| #[trigger]
        spec_neighbors(x, y, columns, rows).contains(p) <==> spec_is_neighbor(
            x,
            y,
            p.0 as int,
            p.1 as int,
            columns,
            rows,
        ) by {
        lemma_push_if_contains(s0, x + 1, y, columns, rows, p);
        lemma_push_if_contains(s1, x - 1, y, columns, rows, p);
        lemma_push_if_contains(s2, x, y - 1, columns, rows, p);
        lemma_push_if_contains(s3, x, y + 1, columns, rows, p);
        if x % 2 == 0 {
            let s5 = spec_push_if_in_bounds(s4, x + 1, y - 1, columns, rows);
            lemma_push_if_contains(s4, x + 1, y - 1, columns, rows, p);
            lemma_push_if_contains(s5, x - 1, y - 1, columns, rows, p);
        } else {
            let s5 = spec_push_if_in_bounds(s4, x + 1, y + 1, columns, rows);
            lemma_push_if_contains(s4, x + 1, y + 1, columns, rows, p);
            lemma_push_if_contains(s5, x - 1, y + 1, columns, rows, p);
        }
    }
}

/// Every entry of a tile's neighbor list lies inside the grid, and the
/// tile itself never appears in its own list.
pub proof fn lemma_neighbors_in_bounds_no_self(x: int, y: int, columns: int, rows: int)
    requires
        spec_in_bounds(x, y, columns, rows),
        columns <= u32::MAX as int,
        rows <= u32::MAX as int,
    ensures
        forall|p: (u32, u32)| #[trigger]
            spec_neighbors(x, y, columns, rows).contains(p) ==> spec_in_bounds(
                p.0 as int,
                p.1 as int,
                columns,
                rows,
            ),
        forall|p: (u32, u32)| #[trigger]
            spec_neighbors(x, y, columns, rows).contains(p) ==> p != (((x as u32), (y as u32))),
{
    lemma_neighbors_characterization(x, y, columns, rows);
}

/// A tile's neighbor list never repeats an address: the six offsets are
/// pairwise distinct unit steps, so the in-bounds candidates they reach
/// are pairwise distinct tiles.
pub proof fn lemma_neighbors_no_duplicates(x: int, y: int, columns: int, rows: int)
    requires
        spec_in_bounds(x, y, columns, rows),
        columns <= u32::MAX as int,
        rows <= u32::MAX as int,
    ensures
        spec_neighbors(x, y, columns, rows).no_duplicates(),
{
    let s0 = Seq::<(u32, u32)>::empty();
    let s1 = spec_push_if_in_bounds(s0, x + 1, y, columns, rows);
    let s2 = spec_push_if_in_bounds(s1, x - 1, y, columns, rows);
    let s3 = spec_push_if_in_bounds(s2, x, y - 1, columns, rows);
    let s4 = spec_push_if_in_bounds(s3, x, y + 1, columns, rows);
    let c1 = (((x + 1) as u32), (y as u32));
    let c2 = (((x - 1) as u32), (y as u32));
    let c3 = ((x as u32), ((y - 1) as u32));
    let c4 = ((x as u32), ((y + 1) as u32));
    lemma_push_if_contains(s0, x + 1, y, columns, rows, c2);
    lemma_push_if_nodup(s0, x + 1, y, columns, rows);
    lemma_push_if_contains(s1, x - 1, y, columns, rows, c3);
    lemma_push_if_contains(s0, x + 1, y, columns, rows, c3);
    lemma_push_if_nodup(s1, x - 1, y, columns, rows);
    lemma_push_if_contains(s2, x, y - 1, columns, rows, c4);
    lemma_push_if_contains(s1, x - 1, y, columns, rows, c4);
    lemma_push_if_contains(s0, x + 1, y, columns, rows, c4);
    lemma_push_if_nodup(s2, x, y - 1, columns, rows);
    lemma_push_if_nodup(s3, x, y + 1, columns, rows);
    if x % 2 == 0 {
        let s5 = spec_push_if_in_bounds(s4, x + 1, y - 1, columns, rows);
        let c5 = (((x + 1) as u32), ((y - 1) as u32));
        let c6 = (((x - 1) as u32), ((y - 1) as u32));
        lemma_push_if_contains(s3, x, y + 1, columns, rows, c5);
        lemma_push_if_contains(s2, x, y - 1, columns, rows, c5);
        lemma_push_if_contains(s1, x - 1, y, columns, rows, c5);
        lemma_push_if_contains(s0, x + 1, y, columns, rows, c5);
        lemma_push_if_nodup(s4, x + 1, y - 1, columns, rows);
        lemma_push_if_contains(s4, x + 1, y - 1, columns, rows, c6);
        lemma_push_if_contains(s3, x, y + 1, columns, rows, c6);
        lemma_push_if_contains(s2, x, y - 1, columns, rows, c6);
        lemma_push_if_contains(s1, x - 1, y, columns, rows, c6);
        lemma_push_if_contains(s0, x + 1, y, columns, rows, c6);
        lemma_push_if_nodup(s5, x - 1, y - 1, columns, rows);
    } else {
        let s5 = spec_push_if_in_bounds(s4, x + 1, y + 1, columns, rows);
        let c5 = (((x + 1) as u32), ((y + 1) as u32));
        let c6 = (((x - 1) as u32), ((y + 1) as u32));
        lemma_push_if_contains(s3, x, y + 1, columns, rows, c5);
        lemma_push_if_contains(s2, x, y - 1, columns, rows, c5);
        lemma_push_if_contains(s1, x - 1, y, columns, rows, c5);
        lemma_push_if_contains(s0, x + 1, y, columns, rows, c5);
        lemma_push_if_nodup(s4, x + 1, y + 1, columns, rows);
        lemma_push_if_contains(s4, x + 1, y + 1, columns, rows, c6);
        lemma_push_if_contains(s3, x, y + 1, columns, rows, c6);
        lemma_push_if_contains(s2, x, y - 1, columns, rows, c6);
        lemma_push_if_contains(s1, x - 1, y, columns, rows, c6);
        lemma_push_if_contains(s0, x + 1, y, columns, rows, c6);
        lemma_push_if_nodup(s5, x - 1, y + 1, columns, rows);
    }
}

/// Pushing a fresh in-bounds candidate onto a duplicate-free neighbor
/// list keeps it duplicate-free.
proof fn lemma_push_if_nodup(s: Seq<(u32, u32)>, nx: int, ny: int, columns: int, rows: int)
    requires
        s.no_duplicates(),
        spec_in_bounds(nx, ny, columns, rows) ==> !s.contains((((nx as u32), (ny as u32)))),
    ensures
        spec_push_if_in_bounds(s, nx, ny, columns, rows).no_duplicates(),
{
    if spec_in_bounds(nx, ny, columns, rows) {
        let e = ((nx as u32), (ny as u32));
        let t = s.push(e);
        assert forall|i: int, j: int| 0 <= i < j < t.len() implies t[i] != t[j] by {
            if j < s.len() {
                assert(t[i] == s[i] && t[j] == s[j]);
            } else {
                assert(t[j] == e);
                assert(t[i] == s[i]);
                if s[i] == e {
                    assert(s.contains(e));
                }
            }
        }
    }
}

/// The parity property: tiles differing only in column parity share the
/// four lateral and vertical offsets, and their offset sets differ in
/// exactly the four diagonal entries — the even column reaches upward
/// diagonals (`dy == -1`), the odd column downward ones (`dy == 1`).
pub proof fn lemma_parity_offsets(x_even: int, x_odd: int)
    requires
        x_even % 2 == 0,
        x_odd % 2 != 0,
    ensures
        forall|dx: int, dy: int|
            #![trigger spec_is_offset(x_even, dx, dy), spec_is_offset(x_odd, dx, dy)]
            (dx == 0 || dy == 0) ==> (spec_is_offset(x_even, dx, dy) <==> spec_is_offset(
                x_odd,
                dx,
                dy,
            )),
        forall|dx: int, dy: int|
            #![trigger spec_is_offset(x_even, dx, dy), spec_is_offset(x_odd, dx, dy)]
            (spec_is_offset(x_even, dx, dy) != spec_is_offset(x_odd, dx, dy)) <==> ((dx == 1 || dx
                == -1) && (dy == 1 || dy == -1)),
{
}

} // verus!
