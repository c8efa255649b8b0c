use hexgrid_kit::grid::{reset_hexgrid_counter, HexGrid, HexGridCounter};
use hexgrid_kit::tile::{HexGridError, HexGridOrientation, HexTile};

#[test]
fn counter_starts_at_one() {
    let mut counter = HexGridCounter::new();
    assert_eq!(counter.next_id(), 1);
}

#[test]
fn counter_issues_increasing_gapless_ids() {
    let mut counter = HexGridCounter::new();
    let ids: Vec<u64> = (0..16).map(|_| counter.next_id()).collect();
    for i in 0..ids.len() {
        assert_eq!(ids[i], 1 + i as u64);
        for j in i + 1..ids.len() {
            assert!(ids[i] < ids[j]);
        }
    }
}

#[test]
fn counter_reset_restarts_at_one() {
    let mut counter = HexGridCounter::new();
    counter.next_id();
    counter.next_id();
    reset_hexgrid_counter(&mut counter);
    assert_eq!(counter.next_id(), 1);
}

#[test]
fn grids_receive_consecutive_ids() {
    let mut counter = HexGridCounter::new();
    let first = HexGrid::new(&mut counter, HexGridOrientation::Vertical, 3, 3, 16);
    let second = HexGrid::new(&mut counter, HexGridOrientation::Vertical, 5, 2, 32);
    assert_eq!(first.id, 1);
    assert_eq!(second.id, 2);
    assert_eq!(second.columns, 5);
    assert_eq!(second.rows, 2);
    assert_eq!(second.hextile_width, 32);
}

#[test]
fn spawn_plan_enumerates_every_tile_column_major() {
    let mut counter = HexGridCounter::new();
    let grid = HexGrid::new(&mut counter, HexGridOrientation::Vertical, 3, 2, 16);
    let bundles = grid.spawn_plan().unwrap();
    assert_eq!(bundles.len(), 6);
    for col in 0..3u32 {
        for row in 0..2u32 {
            let bundle = &bundles[(col * 2 + row) as usize];
            assert_eq!(bundle.tile, HexTile::new(col, row));
            let expected = HexTile::new(col, row)
                .coord_to_world(3, 2, HexGridOrientation::Vertical)
                .unwrap();
            assert_eq!(bundle.position, expected);
            assert!(bundle.visible);
        }
    }
}

#[test]
fn spawn_plan_is_restartable() {
    let mut counter = HexGridCounter::new();
    let grid = HexGrid::new(&mut counter, HexGridOrientation::Vertical, 4, 4, 8);
    let first = grid.spawn_plan().unwrap();
    let second = grid.spawn_plan().unwrap();
    assert_eq!(first, second);
}

#[test]
fn spawn_plan_fails_on_horizontal_orientation() {
    let mut counter = HexGridCounter::new();
    let grid = HexGrid::new(&mut counter, HexGridOrientation::Horizontal, 3, 3, 16);
    assert_eq!(grid.spawn_plan(), Err(HexGridError::UnsupportedOrientation));
}
