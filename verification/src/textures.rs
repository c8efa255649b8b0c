//! The texture rule engine: resolves, for each tile of a grid, which
//! texture path its visual should use — either one path for every tile,
//! or ordered range rules over the tiles' ordering indices with a default
//! — and emits the mutation instructions for an external entity store.

use vstd::prelude::*;
use crate::grid::HexGrid;
use crate::tile::{HexTile, spec_order};

verus! {

/// A texture specification: one path for every tile, or a sequence of
/// `(ranges, path)` rules over order indices plus a default path.
#[derive(Clone, Debug)]
pub enum TileTextures {
    /// One path applies to every tile of the grid.
    Single(String),
    /// Each rule pairs inclusive `(start, end)` order-index ranges with a
    /// path; rules are walked in declaration order and every match
    /// overwrites, so the last matching rule wins. Tiles matching no rule
    /// fall through to the default path (the second field).
    Multiple(Vec<(Vec<(u32, u32)>, String)>, String),
}

/// Whether the inclusive range `(start, end)` contains `order`. A
/// malformed range with `start > end` contains nothing, so one bad rule
/// degrades to "falls through" instead of failing a repaint.
pub open spec fn spec_range_matches(range: (u32, u32), order: int) -> bool {
    range.0 <= order && order <= range.1
}

/// Whether any range of a rule contains `order`.
pub open spec fn spec_rule_matches(ranges: Seq<(u32, u32)>, order: int) -> bool {
    exists|i: int| 0 <= i < ranges.len() && spec_range_matches(#[trigger] ranges[i], order)
}

/// The path resolved after walking the first `n` rules: the last of them
/// that matches `order` wins; with no match the default stands.
pub open spec fn spec_resolve_upto(
    rules: Seq<(Vec<(u32, u32)>, String)>,
    n: int,
    default_path: Seq<char>,
    order: int,
) -> Seq<char>
    decreases n,
{
    if n <= 0 {
        default_path
    } else if spec_rule_matches(rules[n - 1].0@, order) {
        rules[n - 1].1@
    } else {
        spec_resolve_upto(rules, n - 1, default_path, order)
    }
}

/// The path a tile of order index `order` resolves to under a
/// specification.
pub open spec fn spec_resolved_path(textures: TileTextures, order: int) -> Seq<char> {
    match textures {
        TileTextures::Single(path) => path@,
        TileTextures::Multiple(rules, default_path) => spec_resolve_upto(
            rules@,
            rules@.len() as int,
            default_path@,
            order,
        ),
    }
}

/// Whether any range in `ranges` contains `order`.
fn ranges_match(ranges: &Vec<(u32, u32)>, order: u32) -> (matched: bool)
    ensures
        matched == spec_rule_matches(ranges@, order as int),
{
    let mut matched: bool = false;
    let mut i: usize = 0;
    while i < ranges.len()
        invariant
            i <= ranges@.len(),
            matched == spec_rule_matches(ranges@.take(i as int), order as int),
        decreases ranges@.len() - i,
    {
        let (start, end) = ranges[i];
        proof {
            let s = ranges@.take(i as int);
            let e = ranges@[i as int];
            assert(ranges@.take(i as int + 1) =~= s.push(e));
            if spec_range_matches(e, order as int) {
                assert(s.push(e)[s.len() as int] == e);
            }
            if spec_rule_matches(s, order as int) {
                let j = choose|j: int|
                    0 <= j < s.len() && spec_range_matches(#[trigger] s[j], order as int);
                assert(s.push(e)[j] == s[j]);
            }
            if spec_rule_matches(s.push(e), order as int) && !spec_range_matches(
                e,
                order as int,
            ) {
                let j = choose|j: int|
                    0 <= j < s.push(e).len() && spec_range_matches(
                        #[trigger] s.push(e)[j],
                        order as int,
                    );
                assert(s.push(e)[j] == s[j]);
            }
        }
        if start <= order && order <= end {
            matched = true;
        }
        i = i + 1;
    }
    proof {
        assert(ranges@.take(ranges@.len() as int) =~= ranges@);
    }
    matched
}

impl TileTextures {
    /// The path that a tile of the given order index resolves to: the
    /// single path, or the last matching rule's path, or the default.
    pub fn resolve_path(&self, order: u32) -> (path: String)
        ensures
            path@ == spec_resolved_path(*self, order as int),
    {
        match self {
            TileTextures::Single(path) => path.clone(),
            TileTextures::Multiple(rules, default_path) => {
                let mut resolved: String = default_path.clone();
                let mut i: usize = 0;
                while i < rules.len()
                    invariant
                        i <= rules@.len(),
                        resolved@ == spec_resolve_upto(
                            rules@,
                            i as int,
                            default_path@,
                            order as int,
                        ),
                    decreases rules@.len() - i,
                {
                    let rule = &rules[i];
                    if ranges_match(&rule.0, order) {
                        resolved = rule.1.clone();
                    }
                    i = i + 1;
                }
                resolved
            },
        }
    }
}

/// One mutation instruction for the external entity store: replace the
/// visual of the tile at `tile`'s address with the texture at `path`, on
/// a square footprint of `width` pixels across (and 0.866 of that high).
#[derive(Clone, Debug)]
pub struct SpriteInstruction {
    pub tile: HexTile,
    pub path: String,
    pub width: u32,
}

impl View for SpriteInstruction {
    type V = (HexTile, Seq<char>, u32);

    open spec fn view(&self) -> (HexTile, Seq<char>, u32) {
        (self.tile, self.path@, self.width)
    }
}

/// The mathematical content of an instruction list: each entry as the
/// addressed tile, the resolved path, and the footprint width.
pub open spec fn spec_instruction_views(instructions: Seq<SpriteInstruction>) -> Seq<
    (HexTile, Seq<char>, u32),
> {
    instructions.map_values(|instruction: SpriteInstruction| instruction@)
}

/// A grid entry whose tiles can all be given an order index: every tile
/// lies inside the grid's extent, and the largest index fits in `u32`.
pub open spec fn spec_grid_tiles_wf(grid: HexGrid, tiles: Seq<HexTile>) -> bool {
    (grid.columns as int) * (grid.rows as int) <= u32::MAX as int && forall|i: int|
        0 <= i < tiles.len() ==> (#[trigger] tiles[i]).x < grid.columns && tiles[i].y < grid.rows
}

/// The repaint of one grid's tiles: every tile receives the path its
/// order index resolves to, on the grid's footprint.
pub open spec fn spec_repaint_tiles(textures: TileTextures, grid: HexGrid, tiles: Seq<HexTile>) -> Seq<
    (HexTile, Seq<char>, u32),
> {
    tiles.map_values(
        |tile: HexTile|
            (
                tile,
                spec_resolved_path(textures, spec_order(tile.x as int, tile.y as int, grid.columns as int)),
                grid.hextile_width,
            ),
    )
}

/// The contribution of one `(grid, tiles)` entry to a repaint: its full
/// tile list when its id matches, nothing otherwise.
pub open spec fn spec_repaint_entry(
    grid_id: u64,
    textures: TileTextures,
    entry: (HexGrid, Vec<HexTile>),
) -> Seq<(HexTile, Seq<char>, u32)> {
    if entry.0.id == grid_id {
        spec_repaint_tiles(textures, entry.0, entry.1@)
    } else {
        Seq::empty()
    }
}

/// The instructions of a whole-grid repaint over the live entries, in
/// entry order.
pub open spec fn spec_repaint(
    grid_id: u64,
    textures: TileTextures,
    grids: Seq<(HexGrid, Vec<HexTile>)>,
) -> Seq<(HexTile, Seq<char>, u32)>
    decreases grids.len(),
{
    if grids.len() == 0 {
        Seq::empty()
    } else {
        spec_repaint(grid_id, textures, grids.drop_last()) + spec_repaint_entry(
            grid_id,
            textures,
            grids.last(),
        )
    }
}

/// Recomputes and overwrites the visual of every live tile whose parent
/// grid's id equals `grid_id` — a full repaint, not a delta. Entries with
/// another id contribute nothing; an unknown id yields an empty
/// instruction list (a no-op, not an error).
pub fn change_hexgrid_textures(
    grid_id: u64,
    textures: &TileTextures,
    grids: &Vec<(HexGrid, Vec<HexTile>)>,
) -> (instructions: Vec<SpriteInstruction>)
    requires
        forall|gi: int|
            0 <= gi < grids@.len() && (#[trigger] grids@[gi]).0.id == grid_id
                ==> spec_grid_tiles_wf(grids@[gi].0, grids@[gi].1@),
    ensures
        spec_instruction_views(instructions@) == spec_repaint(grid_id, *textures, grids@),
{
    let mut instructions: Vec<SpriteInstruction> = Vec::new();
    let mut gi: usize = 0;
    while gi < grids.len()
        invariant
            gi <= grids@.len(),
            forall|i: int|
                0 <= i < grids@.len() && (#[trigger] grids@[i]).0.id == grid_id
                    ==> spec_grid_tiles_wf(grids@[i].0, grids@[i].1@),
            spec_instruction_views(instructions@) == spec_repaint(
                grid_id,
                *textures,
                grids@.take(gi as int),
            ),
        decreases grids@.len() - gi,
    {
        let entry = &grids[gi];
        let grid: HexGrid = entry.0;
        if grid.id == grid_id {
            let tiles: &Vec<HexTile> = &entry.1;
            let mut ti: usize = 0;
            while ti < tiles.len()
                invariant
                    ti <= tiles@.len(),
                    gi < grids@.len(),
                    grid == grids@[gi as int].0,
                    tiles@ == grids@[gi as int].1@,
                    grid.id == grid_id,
                    spec_grid_tiles_wf(grid, tiles@),
                    spec_instruction_views(instructions@) == spec_repaint(
                        grid_id,
                        *textures,
                        grids@.take(gi as int),
                    ) + spec_repaint_tiles(*textures, grid, tiles@.take(ti as int)),
                decreases tiles@.len() - ti,
            {
                let tile: HexTile = tiles[ti];
                proof {
                    assert((tile.y as int + 1) * (grid.columns as int) <= (grid.rows as int) * (
                    grid.columns as int)) by (nonlinear_arith)
                        requires
                            tile.y as int + 1 <= grid.rows as int,
                            grid.columns as int >= 0,
                    ;
                    assert((grid.rows as int) * (grid.columns as int) == (grid.columns as int) * (
                    grid.rows as int)) by (nonlinear_arith);
                }
                let order = tile.coord_to_order(grid.columns);
                let path = textures.resolve_path(order);
                let instruction = SpriteInstruction { tile, path, width: grid.hextile_width };
                proof {
                    let prior = instructions@;
                    let taken = tiles@.take(ti as int);
                    assert(tiles@.take(ti as int + 1) =~= taken.push(tile));
                    assert(spec_instruction_views(prior.push(instruction)) =~~= spec_instruction_views(
                        prior,
                    ).push(instruction@));
                    assert(spec_repaint_tiles(*textures, grid, taken.push(tile))
                        =~~= spec_repaint_tiles(*textures, grid, taken).push(instruction@));
                    assert(spec_repaint(grid_id, *textures, grids@.take(gi as int))
                        + spec_repaint_tiles(*textures, grid, taken.push(tile)) =~~= (spec_repaint(
                        grid_id,
                        *textures,
                        grids@.take(gi as int),
                    ) + spec_repaint_tiles(*textures, grid, taken)).push(instruction@));
                }
                instructions.push(instruction);
                ti = ti + 1;
            }
            proof {
                assert(tiles@.take(tiles@.len() as int) =~= tiles@);
            }
        }
        proof {
            let prefix = grids@.take(gi as int + 1);
            assert(prefix.drop_last() =~= grids@.take(gi as int));
            assert(prefix.last() == grids@[gi as int]);
            if grids@[gi as int].0.id != grid_id {
                assert(spec_repaint(grid_id, *textures, prefix) =~~= spec_repaint(
                    grid_id,
                    *textures,
                    grids@.take(gi as int),
                ) + Seq::<(HexTile, Seq<char>, u32)>::empty());
                assert(spec_instruction_views(instructions@) =~~= spec_repaint(
                    grid_id,
                    *textures,
                    prefix,
                ));
            }
        }
        gi = gi + 1;
    }
    proof {
        assert(grids@.take(grids@.len() as int) =~= grids@);
    }
    instructions
}

/// Whether the coordinate list contains the address `(x, y)`.
fn coords_contain(coords: &Vec<(u32, u32)>, x: u32, y: u32) -> (found: bool)
    ensures
        found == coords@.contains((x, y)),
{
    let mut i: usize = 0;
    while i < coords.len()
        invariant
            i <= coords@.len(),
            !coords@.take(i as int).contains((x, y)),
        decreases coords@.len() - i,
    {
        let candidate = coords[i];
        proof {
            assert(coords@.take(i as int + 1) =~= coords@.take(i as int).push(
                coords@[i as int],
            ));
        }
        if candidate.0 == x && candidate.1 == y {
            proof {
                assert(coords@[i as int] == (x, y));
            }
            return true;
        }
        proof {
            let s = coords@.take(i as int + 1);
            if s.contains((x, y)) {
                let j = choose|j: int| 0 <= j < s.len() && s[j] == (x, y);
                assert(coords@.take(i as int)[j] == s[j]);
            }
        }
        i = i + 1;
    }
    proof {
        assert(coords@.take(coords@.len() as int) =~= coords@);
    }
    false
}

/// The targeted update of one grid's tiles: exactly the tiles whose
/// address is listed in `coords` receive `path`; all others are left
/// untouched (no instruction is emitted for them).
pub open spec fn spec_subset_tiles(
    path: Seq<char>,
    coords: Seq<(u32, u32)>,
    grid: HexGrid,
    tiles: Seq<HexTile>,
) -> Seq<(HexTile, Seq<char>, u32)>
    decreases tiles.len(),
{
    if tiles.len() == 0 {
        Seq::empty()
    } else {
        spec_subset_tiles(path, coords, grid, tiles.drop_last()) + if coords.contains(
            (tiles.last().x, tiles.last().y),
        ) {
            seq![(tiles.last(), path, grid.hextile_width)]
        } else {
            Seq::empty()
        }
    }
}

/// The contribution of one `(grid, tiles)` entry to a targeted update:
/// its listed tiles when its id matches, nothing otherwise.
pub open spec fn spec_subset_entry(
    grid_id: u64,
    path: Seq<char>,
    coords: Seq<(u32, u32)>,
    entry: (HexGrid, Vec<HexTile>),
) -> Seq<(HexTile, Seq<char>, u32)> {
    if entry.0.id == grid_id {
        spec_subset_tiles(path, coords, entry.0, entry.1@)
    } else {
        Seq::empty()
    }
}

/// The instructions of a targeted update over the live entries, in entry
/// order.
pub open spec fn spec_subset_repaint(
    grid_id: u64,
    path: Seq<char>,
    coords: Seq<(u32, u32)>,
    grids: Seq<(HexGrid, Vec<HexTile>)>,
) -> Seq<(HexTile, Seq<char>, u32)>
    decreases grids.len(),
{
    if grids.len() == 0 {
        Seq::empty()
    } else {
        spec_subset_repaint(grid_id, path, coords, grids.drop_last()) + spec_subset_entry(
            grid_id,
            path,
            coords,
            grids.last(),
        )
    }
}

/// Replaces the visual of exactly those live tiles whose parent grid's id
/// equals `grid_id` and whose address appears in `hextiles_coords`; every
/// other tile is left untouched. The targeted-update counterpart to the
/// whole-grid repaint of [`change_hexgrid_textures`].
pub fn change_hextile_textures(
    grid_id: u64,
    texture_path: &str,
    hextiles_coords: &Vec<(u32, u32)>,
    grids: &Vec<(HexGrid, Vec<HexTile>)>,
) -> (instructions: Vec<SpriteInstruction>)
    ensures
        spec_instruction_views(instructions@) == spec_subset_repaint(
            grid_id,
            texture_path@,
            hextiles_coords@,
            grids@,
        ),
{
    let master: String = texture_path.to_owned();
    let mut instructions: Vec<SpriteInstruction> = Vec::new();
    let mut gi: usize = 0;
    while gi < grids.len()
        invariant
            gi <= grids@.len(),
            master@ == texture_path@,
            spec_instruction_views(instructions@) == spec_subset_repaint(
                grid_id,
                texture_path@,
                hextiles_coords@,
                grids@.take(gi as int),
            ),
        decreases grids@.len() - gi,
    {
        let entry = &grids[gi];
        let grid: HexGrid = entry.0;
        if grid.id == grid_id {
            let tiles: &Vec<HexTile> = &entry.1;
            let mut ti: usize = 0;
            while ti < tiles.len()
                invariant
                    ti <= tiles@.len(),
                    gi < grids@.len(),
                    grid == grids@[gi as int].0,
                    tiles@ == grids@[gi as int].1@,
                    grid.id == grid_id,
                    master@ == texture_path@,
                    spec_instruction_views(instructions@) == spec_subset_repaint(
                        grid_id,
                        texture_path@,
                        hextiles_coords@,
                        grids@.take(gi as int),
                    ) + spec_subset_tiles(
                        texture_path@,
                        hextiles_coords@,
                        grid,
                        tiles@.take(ti as int),
                    ),
                decreases tiles@.len() - ti,
            {
                let tile: HexTile = tiles[ti];
                let listed = coords_contain(hextiles_coords, tile.x, tile.y);
                proof {
                    let taken = tiles@.take(ti as int);
                    assert(tiles@.take(ti as int + 1) =~= taken.push(tile));
                    assert(taken.push(tile).drop_last() =~= taken);
                }
                if listed {
                    let instruction = SpriteInstruction {
                        tile,
                        path: master.clone(),
                        width: grid.hextile_width,
                    };
                    proof {
                        let prior = instructions@;
                        let taken = tiles@.take(ti as int);
                        assert(spec_instruction_views(prior.push(instruction))
                            =~~= spec_instruction_views(prior).push(instruction@));
                        assert(spec_subset_tiles(
                            texture_path@,
                            hextiles_coords@,
                            grid,
                            taken.push(tile),
                        ) =~~= spec_subset_tiles(texture_path@, hextiles_coords@, grid, taken)
                            + seq![(tile, texture_path@, grid.hextile_width)]);
                        assert(spec_instruction_views(prior).push(instruction@)
                            =~~= spec_instruction_views(prior) + seq![instruction@]);
                    }
                    instructions.push(instruction);
                    proof {
                        let taken = tiles@.take(ti as int);
                        assert(spec_instruction_views(instructions@) =~~= spec_subset_repaint(
                            grid_id,
                            texture_path@,
                            hextiles_coords@,
                            grids@.take(gi as int),
                        ) + spec_subset_tiles(
                            texture_path@,
                            hextiles_coords@,
                            grid,
                            taken.push(tile),
                        ));
                    }
                } else {
                    proof {
                        let taken = tiles@.take(ti as int);
                        assert(spec_subset_tiles(
                            texture_path@,
                            hextiles_coords@,
                            grid,
                            taken.push(tile),
                        ) =~~= spec_subset_tiles(texture_path@, hextiles_coords@, grid, taken)
                            + Seq::<(HexTile, Seq<char>, u32)>::empty());
                        assert(spec_subset_tiles(texture_path@, hextiles_coords@, grid, taken)
                            + Seq::<(HexTile, Seq<char>, u32)>::empty() =~~= spec_subset_tiles(
                            texture_path@,
                            hextiles_coords@,
                            grid,
                            taken,
                        ));
                    }
                }
                ti = ti + 1;
            }
            proof {
                assert(tiles@.take(tiles@.len() as int) =~= tiles@);
            }
        }
        proof {
            let prefix = grids@.take(gi as int + 1);
            assert(prefix.drop_last() =~= grids@.take(gi as int));
            assert(prefix.last() == grids@[gi as int]);
            if grids@[gi as int].0.id != grid_id {
                assert(spec_instruction_views(instructions@) =~~= spec_subset_repaint(
                    grid_id,
                    texture_path@,
                    hextiles_coords@,
                    grids@.take(gi as int),
                ) + Seq::<(HexTile, Seq<char>, u32)>::empty());
            }
        }
        gi = gi + 1;
    }
    proof {
        assert(grids@.take(grids@.len() as int) =~= grids@);
    }
    instructions
}

} // verus!
