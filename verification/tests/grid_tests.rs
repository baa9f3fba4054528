use mineshaft::grid::{GridError, TileGrid, TileRecord};
use mineshaft::rng::{ConstSource, LcgSource};
use mineshaft::tile::{Tile, TileKind};

const TILE: i64 = 32_000_000;

fn coal_grid(width: usize, height: usize) -> TileGrid {
    let rolls = width.saturating_sub(2) * height.saturating_sub(2);
    let mut source = ConstSource::new(83, rolls);
    TileGrid::generate(width, height, TILE, &mut source).expect("valid dimensions")
}

#[test]
fn grid_has_requested_shape() {
    let grid = coal_grid(24, 15);
    assert_eq!(grid.rows.len(), 15);
    for row in &grid.rows {
        assert_eq!(row.len(), 24);
    }
    assert_eq!(grid.tile_size, TILE);
    assert_eq!(grid.scroll_offset, 0);
}

#[test]
fn cap_row_is_unbreakable_bedrock() {
    let grid = coal_grid(24, 15);
    for col in 0..24 {
        let tile = grid.tile_at(0, col).unwrap();
        assert_eq!(tile.kind, TileKind::Bedrock);
        assert!(!tile.breakable);
        assert!(tile.visible);
    }
}

#[test]
fn borders_are_unbreakable_bedrock() {
    let grid = coal_grid(24, 15);
    for row in 1..15 {
        for col in [0usize, 23] {
            let tile = grid.tile_at(row, col).unwrap();
            assert_eq!(tile.kind, TileKind::Bedrock);
            assert!(!tile.breakable);
        }
    }
}

#[test]
fn starting_hallway_is_empty_and_unbreakable() {
    for value in [0u8, 83, 99, 250] {
        let mut source = ConstSource::new(value, 286);
        let grid = TileGrid::generate(24, 15, TILE, &mut source).unwrap();
        for col in 1..23 {
            let tile = grid.tile_at(1, col).unwrap();
            assert_eq!(tile.kind, TileKind::Empty);
            assert!(!tile.breakable);
        }
    }
}

#[test]
fn constant_roll_83_fills_interior_with_coal() {
    let grid = coal_grid(24, 15);
    for row in 2..15 {
        for col in 1..23 {
            let tile = grid.tile_at(row, col).unwrap();
            assert_eq!(tile.kind, TileKind::CoalOre);
            assert!(tile.breakable);
            assert!(tile.visible);
        }
    }
}

#[test]
fn constant_roll_99_fills_interior_with_diamond() {
    let mut source = ConstSource::new(99, 286);
    let grid = TileGrid::generate(24, 15, TILE, &mut source).unwrap();
    for row in 2..15 {
        for col in 1..23 {
            assert_eq!(grid.tile_at(row, col).unwrap().kind, TileKind::DiamondOre);
        }
    }
}

#[test]
fn constant_roll_0_fills_interior_with_dirt() {
    let mut source = ConstSource::new(0, 286);
    let grid = TileGrid::generate(24, 15, TILE, &mut source).unwrap();
    for row in 2..15 {
        for col in 1..23 {
            assert_eq!(grid.tile_at(row, col).unwrap().kind, TileKind::Dirt);
        }
    }
}

#[test]
fn weighted_table_boundaries_are_exact() {
    // One interior cell per grid: width 3, height 3 needs exactly one roll.
    let cases = [
        (0u8, TileKind::Dirt),
        (69, TileKind::Dirt),
        (70, TileKind::CoalOre),
        (83, TileKind::CoalOre),
        (84, TileKind::IronOre),
        (94, TileKind::IronOre),
        (95, TileKind::GoldOre),
        (98, TileKind::GoldOre),
        (99, TileKind::DiamondOre),
        (100, TileKind::Bedrock),
        (255, TileKind::Bedrock),
    ];
    for (roll, kind) in cases {
        let mut source = ConstSource::new(roll, 1);
        let grid = TileGrid::generate(3, 3, TILE, &mut source).unwrap();
        assert_eq!(grid.tile_at(2, 1).unwrap().kind, kind, "roll {roll}");
    }
}

#[test]
fn zero_dimensions_are_rejected() {
    let mut source = ConstSource::new(83, 0);
    assert!(matches!(
        TileGrid::generate(0, 15, TILE, &mut source),
        Err(GridError::InvalidDimensions)
    ));
    assert!(matches!(
        TileGrid::generate(24, 0, TILE, &mut source),
        Err(GridError::InvalidDimensions)
    ));
    assert!(matches!(
        TileGrid::generate(0, 0, TILE, &mut source),
        Err(GridError::InvalidDimensions)
    ));
}

#[test]
fn generation_is_reproducible_from_a_seed() {
    let mut first = LcgSource::new(0xDEAD_BEEF, 286);
    let mut second = LcgSource::new(0xDEAD_BEEF, 286);
    let grid_a = TileGrid::generate(24, 15, TILE, &mut first).unwrap();
    let grid_b = TileGrid::generate(24, 15, TILE, &mut second).unwrap();
    for row in 0..15 {
        for col in 0..24 {
            assert_eq!(grid_a.tile_at(row, col), grid_b.tile_at(row, col));
        }
    }
}

#[test]
fn lcg_interior_never_hits_the_bedrock_fallback() {
    let mut source = LcgSource::new(20260101, 286);
    let grid = TileGrid::generate(24, 15, TILE, &mut source).unwrap();
    for row in 2..15 {
        for col in 1..23 {
            let tile = grid.tile_at(row, col).unwrap();
            assert_ne!(tile.kind, TileKind::Bedrock);
            assert!(tile.breakable);
        }
    }
}

#[test]
fn tile_at_outside_the_grid_is_none() {
    let grid = coal_grid(4, 3);
    assert_eq!(grid.tile_at(3, 0), None);
    assert_eq!(grid.tile_at(0, 4), None);
    assert_eq!(grid.tile_at(100, 100), None);
    assert!(grid.tile_at(2, 3).is_some());
}

#[test]
fn scroll_up_is_clamped_at_the_top_anchor() {
    let mut grid = coal_grid(4, 3);
    for _ in 0..40 {
        grid.scroll_up(7_000_000);
        assert!(grid.scroll_offset <= 0);
        assert_eq!(grid.scroll_offset, 0);
    }
    grid.scroll_down(10_000_000);
    assert_eq!(grid.scroll_offset, -10_000_000);
    grid.scroll_up(4_000_000);
    assert_eq!(grid.scroll_offset, -6_000_000);
    grid.scroll_up(100_000_000);
    assert_eq!(grid.scroll_offset, 0);
}

#[test]
fn scroll_down_has_no_game_rule_clamp() {
    let mut grid = coal_grid(4, 3);
    let mut expected: i64 = 0;
    for step in [5_000_000i64, 250_000_000, 1_000_000_000_000] {
        grid.scroll_down(step);
        expected -= step;
        assert_eq!(grid.scroll_offset, expected);
    }
}

#[test]
fn visible_tiles_lists_visible_cells_row_major_with_screen_positions() {
    let visible = |kind: TileKind| Tile { kind, visible: true, breakable: true };
    let hidden = Tile { kind: TileKind::Dirt, visible: false, breakable: true };
    let grid = TileGrid {
        rows: vec![
            vec![visible(TileKind::Bedrock), hidden],
            vec![visible(TileKind::Dirt), visible(TileKind::CoalOre)],
        ],
        tile_size: 10,
        scroll_offset: -3,
    };
    let records = grid.visible_tiles();
    assert_eq!(
        records,
        vec![
            TileRecord { row: 0, col: 0, tile: visible(TileKind::Bedrock), x: 0, y: -3 },
            TileRecord { row: 1, col: 0, tile: visible(TileKind::Dirt), x: 0, y: 7 },
            TileRecord { row: 1, col: 1, tile: visible(TileKind::CoalOre), x: 10, y: 7 },
        ]
    );
}

#[test]
fn minimal_widths_generate_only_borders() {
    let mut source = ConstSource::new(83, 0);
    let narrow = TileGrid::generate(1, 3, TILE, &mut source).unwrap();
    for row in 0..3 {
        assert_eq!(narrow.tile_at(row, 0).unwrap().kind, TileKind::Bedrock);
    }
    let mut source = ConstSource::new(83, 0);
    let two_wide = TileGrid::generate(2, 3, TILE, &mut source).unwrap();
    for row in 0..3 {
        assert_eq!(two_wide.tile_at(row, 0).unwrap().kind, TileKind::Bedrock);
        assert_eq!(two_wide.tile_at(row, 1).unwrap().kind, TileKind::Bedrock);
    }
}
