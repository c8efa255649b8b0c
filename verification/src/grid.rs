//! Grid instances: the identity registry that issues unique grid ids, the
//! descriptor of one grid, and the spawn planner that enumerates every
//! tile's initial data.

use vstd::prelude::*;
use vstd::arithmetic::div_mod::lemma_fundamental_div_mod_converse;
use crate::tile::{
    HexGridError,
    HexGridOrientation,
    HexTile,
    TileBundle,
    spec_tile_bundle_matches,
    vertical_position,
};

verus! {

/// The grid identity registry: a counter that starts at 1 and issues one
/// fresh id per grid construction. Construct one at startup and pass it to
/// every [`HexGrid::new`] call; sequential use issues strictly increasing,
/// gapless ids.
#[derive(Clone, Copy, PartialEq, Eq, Structural, Debug)]
pub struct HexGridCounter {
    /// The id the next construction will receive.
    pub next: u64,
}

impl HexGridCounter {
    pub fn new() -> (counter: HexGridCounter)
        ensures
            counter.next == 1,
    {
        HexGridCounter { next: 1 }
    }

    /// Returns the current counter value and increments it, so that no two
    /// calls on the same registry return the same id.
    pub fn next_id(&mut self) -> (id: u64)
        requires
            old(self).next < u64::MAX,
        ensures
            id == old(self).next,
            final(self).next == old(self).next + 1,
    {
        let id = self.next;
        self.next = self.next + 1;
        id
    }
}

/// Resets the registry so that the next grid constructed receives id 1.
///
/// Intended for test isolation only: resetting while ids issued earlier
/// are still in active use breaks their uniqueness, and avoiding that is
/// the caller's responsibility.
pub fn reset_hexgrid_counter(counter: &mut HexGridCounter)
    ensures
        final(counter).next == 1,
{
    counter.next = 1;
}

/// Ids issued by consecutive [`HexGridCounter::next_id`] calls — each one
/// larger by exactly one than the one before — are strictly increasing,
/// pairwise distinct, and gapless.
pub proof fn lemma_sequential_ids_unique(ids: Seq<int>, start: int)
    requires
        forall|i: int| 0 <= i < ids.len() ==> #[trigger] ids[i] == start + i,
    ensures
        forall|i: int, j: int| 0 <= i < j < ids.len() ==> ids[i] < ids[j],
        forall|i: int, j: int| 0 <= i < j < ids.len() ==> ids[i] != ids[j],
        forall|i: int| 0 <= i < ids.len() - 1 ==> #[trigger] ids[i] + 1 == ids[i + 1],
{
}

/// The configuration record of one grid instance: its unique id, the
/// orientation of its tiles, its logical extent in columns and rows, and
/// the pixel width of one tile.
#[derive(Clone, Copy, PartialEq, Eq, Structural, Debug)]
pub struct HexGrid {
    /// Unique identifier issued at construction from the registry; the
    /// sole key correlating this descriptor with its realized tiles.
    pub id: u64,
    /// The orientation of the grid's hexagon tiles.
    pub orientation: HexGridOrientation,
    /// Number of columns in the grid (x).
    pub columns: u32,
    /// Number of rows in the grid (y).
    pub rows: u32,
    /// Pixel width of one tile; a tile's pixel height is 0.866 times it.
    pub hextile_width: u32,
}

impl HexGrid {
    /// A non-degenerate descriptor: at least one column and one row, and a
    /// positive tile width.
    pub open spec fn wf(self) -> bool {
        self.columns >= 1 && self.rows >= 1 && self.hextile_width >= 1
    }

    /// Builds a descriptor whose id is drawn from the registry, leaving
    /// the registry ready to issue the next id.
    pub fn new(
        counter: &mut HexGridCounter,
        orientation: HexGridOrientation,
        columns: u32,
        rows: u32,
        hextile_width: u32,
    ) -> (grid: HexGrid)
        requires
            old(counter).next < u64::MAX,
            columns >= 1,
            rows >= 1,
            hextile_width >= 1,
        ensures
            grid.id == old(counter).next,
            final(counter).next == old(counter).next + 1,
            grid.orientation == orientation,
            grid.columns == columns,
            grid.rows == rows,
            grid.hextile_width == hextile_width,
            grid.wf(),
    {
        let id = counter.next_id();
        HexGrid { id, orientation, columns, rows, hextile_width }
    }

    /// Enumerates the initial data of every tile of the grid, column by
    /// column: the bundle at index `k` belongs to the tile in column
    /// `k / rows`, row `k % rows`. The plan is finite and a function of
    /// the descriptor alone; re-invoking it yields the same sequence.
    /// Fails on the unimplemented `Horizontal` orientation.
    pub fn spawn_plan(&self) -> (r: Result<Vec<TileBundle>, HexGridError>)
        requires
            self.wf(),
        ensures
            self.orientation is Vertical ==> (r matches Ok(bundles)
                && bundles@.len() == (self.columns as int) * (self.rows as int)
                && forall|k: int| 0 <= k < bundles@.len() ==> spec_tile_bundle_matches(
                    #[trigger] bundles@[k],
                    k / (self.rows as int),
                    k % (self.rows as int),
                    self.columns as int,
                    self.rows as int,
                )),
            self.orientation is Horizontal ==> r == Err::<Vec<TileBundle>, HexGridError>(
                HexGridError::UnsupportedOrientation,
            ),
    {
        match self.orientation {
            HexGridOrientation::Horizontal => Err(HexGridError::UnsupportedOrientation),
            HexGridOrientation::Vertical => {
                let mut bundles: Vec<TileBundle> = Vec::new();
                let mut col: u32 = 0;
                while col < self.columns
                    invariant
                        col <= self.columns,
                        self.rows >= 1,
                        bundles@.len() == (col as int) * (self.rows as int),
                        forall|k: int| 0 <= k < bundles@.len() ==> spec_tile_bundle_matches(
                            #[trigger] bundles@[k],
                            k / (self.rows as int),
                            k % (self.rows as int),
                            self.columns as int,
                            self.rows as int,
                        ),
                    decreases self.columns - col,
                {
                    let mut row: u32 = 0;
                    while row < self.rows
                        invariant
                            row <= self.rows,
                            col < self.columns,
                            self.rows >= 1,
                            bundles@.len() == (col as int) * (self.rows as int) + row as int,
                            forall|k: int| 0 <= k < bundles@.len() ==> spec_tile_bundle_matches(
                                #[trigger] bundles@[k],
                                k / (self.rows as int),
                                k % (self.rows as int),
                                self.columns as int,
                                self.rows as int,
                            ),
                        decreases self.rows - row,
                    {
                        let tile = HexTile::new(col, row);
                        let position = vertical_position(col, row, self.columns, self.rows);
                        bundles.push(TileBundle { tile, position, visible: true });
                        proof {
                            let k = (col as int) * (self.rows as int) + row as int;
                            lemma_fundamental_div_mod_converse(
                                k,
                                self.rows as int,
                                col as int,
                                row as int,
                            );
                        }
                        row = row + 1;
                    }
                    proof {
                        let c = col as int;
                        let r = self.rows as int;
                        assert(c * r + r == (c + 1) * r) by (nonlinear_arith);
                    }
                    col = col + 1;
                }
                Ok(bundles)
            },
        }
    }
}

} // verus!
