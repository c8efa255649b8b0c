use hexgrid_kit::tile::{HexGridError, HexGridOrientation, HexTile};

#[test]
fn order_of_first_tile_is_one() {
    let tile = HexTile::new(0, 0);
    assert_eq!(tile.coord_to_order(5), 1);
}

#[test]
fn order_of_last_tile_in_row_is_columns() {
    let tile = HexTile::new(4, 0);
    assert_eq!(tile.coord_to_order(5), 5);
}

#[test]
fn order_jumps_by_columns_between_rows() {
    let tile = HexTile::new(0, 1);
    assert_eq!(tile.coord_to_order(5), 6);
}

#[test]
fn order_is_bijective_on_a_small_grid() {
    // 4 columns x 3 rows: every order in 1..=12 is hit exactly once.
    let columns = 4u32;
    let rows = 3u32;
    let mut seen = vec![false; (columns * rows) as usize];
    for x in 0..columns {
        for y in 0..rows {
            let order = HexTile::new(x, y).coord_to_order(columns);
            assert!(1 <= order && order <= columns * rows);
            assert!(!seen[(order - 1) as usize], "order {} issued twice", order);
            seen[(order - 1) as usize] = true;
        }
    }
    assert!(seen.iter().all(|&hit| hit));
}

#[test]
fn position_of_sole_row_grid() {
    // 5 columns x 1 row, tile (0,0): -1.5 tile widths, -0.2165 tile
    // heights, i.e. -12 eighths and -1 quarter.
    let tile = HexTile::new(0, 0);
    let position = tile
        .coord_to_world(5, 1, HexGridOrientation::Vertical)
        .unwrap();
    assert_eq!(position.x, -12);
    assert_eq!(position.y, -1);
}

#[test]
fn position_shifts_odd_columns_up_half_a_tile() {
    // Tiles (0,0) and (1,0) of a 2x2 grid differ by 6 eighths in x and
    // by 2 quarters (the half-tile parity shift) in y.
    let even = HexTile::new(0, 0)
        .coord_to_world(2, 2, HexGridOrientation::Vertical)
        .unwrap();
    let odd = HexTile::new(1, 0)
        .coord_to_world(2, 2, HexGridOrientation::Vertical)
        .unwrap();
    assert_eq!(odd.x - even.x, 6);
    assert_eq!(odd.y - even.y, 2);
}

#[test]
fn position_is_deterministic() {
    let tile = HexTile::new(3, 2);
    let first = tile.coord_to_world(7, 5, HexGridOrientation::Vertical).unwrap();
    let second = tile.coord_to_world(7, 5, HexGridOrientation::Vertical).unwrap();
    assert_eq!(first, second);
}

#[test]
fn position_fails_on_horizontal_orientation() {
    let tile = HexTile::new(0, 0);
    let result = tile.coord_to_world(3, 3, HexGridOrientation::Horizontal);
    assert_eq!(result, Err(HexGridError::UnsupportedOrientation));
}

#[test]
fn neighbors_of_center_tile() {
    // (1,1) sits in an odd column: diagonals point to the next row down.
    let neighbors = HexTile::new(1, 1)
        .get_neighbors(3, 3, HexGridOrientation::Vertical)
        .unwrap();
    assert_eq!(neighbors, vec![(2, 1), (0, 1), (1, 0), (1, 2), (2, 2), (0, 2)]);
}

#[test]
fn neighbors_of_even_column_tile() {
    // (2,1) sits in an even column: diagonals point to the previous row.
    let neighbors = HexTile::new(2, 1)
        .get_neighbors(4, 3, HexGridOrientation::Vertical)
        .unwrap();
    assert_eq!(neighbors, vec![(3, 1), (1, 1), (2, 0), (2, 2), (3, 0), (1, 0)]);
}

#[test]
fn neighbors_differ_only_in_diagonals_across_parity() {
    // Same row, adjacent columns, far from every edge: the four lateral
    // and vertical offsets agree, the two diagonals flip row direction.
    let even = HexTile::new(2, 2)
        .get_neighbors(8, 8, HexGridOrientation::Vertical)
        .unwrap();
    let odd = HexTile::new(3, 2)
        .get_neighbors(8, 8, HexGridOrientation::Vertical)
        .unwrap();
    let even_offsets: Vec<(i64, i64)> = even
        .iter()
        .map(|&(nx, ny)| (nx as i64 - 2, ny as i64 - 2))
        .collect();
    let odd_offsets: Vec<(i64, i64)> = odd
        .iter()
        .map(|&(nx, ny)| (nx as i64 - 3, ny as i64 - 2))
        .collect();
    assert_eq!(&even_offsets[..4], &odd_offsets[..4]);
    assert_eq!(&even_offsets[4..], &[(1, -1), (-1, -1)]);
    assert_eq!(&odd_offsets[4..], &[(1, 1), (-1, 1)]);
}

#[test]
fn neighbors_stay_in_bounds_and_exclude_self() {
    let columns = 3u32;
    let rows = 3u32;
    for x in 0..columns {
        for y in 0..rows {
            let neighbors = HexTile::new(x, y)
                .get_neighbors(columns, rows, HexGridOrientation::Vertical)
                .unwrap();
            for &(nx, ny) in &neighbors {
                assert!(nx < columns && ny < rows);
                assert_ne!((nx, ny), (x, y));
            }
            for i in 0..neighbors.len() {
                for j in i + 1..neighbors.len() {
                    assert_ne!(neighbors[i], neighbors[j]);
                }
            }
        }
    }
}

#[test]
fn corner_tile_has_two_neighbors() {
    let neighbors = HexTile::new(0, 0)
        .get_neighbors(3, 3, HexGridOrientation::Vertical)
        .unwrap();
    assert_eq!(neighbors, vec![(1, 0), (0, 1)]);
}

#[test]
fn single_tile_grid_has_no_neighbors() {
    let neighbors = HexTile::new(0, 0)
        .get_neighbors(1, 1, HexGridOrientation::Vertical)
        .unwrap();
    assert!(neighbors.is_empty());
}

#[test]
fn neighbors_fail_on_horizontal_orientation() {
    let result = HexTile::new(1, 1).get_neighbors(3, 3, HexGridOrientation::Horizontal);
    assert_eq!(result, Err(HexGridError::UnsupportedOrientation));
}

#[test]
fn bundle_carries_tile_position_and_visibility() {
    let tile = HexTile::new(1, 0);
    let expected = tile.coord_to_world(2, 2, HexGridOrientation::Vertical).unwrap();
    let bundle = tile.get_bundle(HexGridOrientation::Vertical, 2, 2).unwrap();
    assert_eq!(bundle.tile, tile);
    assert_eq!(bundle.position, expected);
    assert!(bundle.visible);
}

#[test]
fn bundle_fails_on_horizontal_orientation() {
    let result = HexTile::new(0, 0).get_bundle(HexGridOrientation::Horizontal, 2, 2);
    assert_eq!(result, Err(HexGridError::UnsupportedOrientation));
}
