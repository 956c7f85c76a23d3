use tetris_core::fits::does_it_fit;
use tetris_core::playfield::Playfield;
use tetris_core::playfield::EMPTY_CELL;
use tetris_core::playfield::WALL_CELL;
use tetris_core::shapes::get_shapes;

#[test]
fn catalog_has_seven_tetrominoes() {
    let shapes = get_shapes();
    assert_eq!(shapes.len(), 7);
    for t in &shapes {
        assert_eq!(t.shape().len(), 16);
        let occupied: usize = t.shape().iter().filter(|&&c| c != 0).count();
        assert_eq!(occupied, 4);
    }
}

#[test]
fn catalog_masks_hold_expected_cells() {
    let shapes = get_shapes();
    // Straight line: column 1 occupied in every row.
    assert_eq!(*shapes[0].shape(), vec![0, 10, 0, 0, 0, 10, 0, 0, 0, 10, 0, 0, 0, 10, 0, 0]);
    // Box: the four center cells.
    assert_eq!(*shapes[1].shape(), vec![0, 0, 0, 0, 0, 10, 10, 0, 0, 10, 10, 0, 0, 0, 0, 0]);
}

#[test]
fn every_piece_fits_spawn_pose_on_empty_board() {
    for t in 0u8..7 {
        let field = Playfield::create(18, 18);
        assert!(does_it_fit(t, 0, 0, 0, &field));
    }
}

#[test]
fn every_piece_fits_every_rotation_on_empty_board() {
    let field = Playfield::create(18, 18);
    for t in 0u8..7 {
        for r in 0u8..4 {
            assert!(does_it_fit(t, r, 5, 5, &field));
        }
    }
}

#[test]
fn overlap_with_occupied_cell_is_not_fit() {
    let mut field = Playfield::create(18, 18);
    // The box occupies cells (1,1),(2,1),(1,2),(2,2) of its bounding box;
    // at position (8,0) those are (9,1),(10,1),(9,2),(10,2).
    field.set_cell(9, 1, 5);
    assert!(!does_it_fit(1, 0, 8, 0, &field));
    // An occupied cell the piece does not touch is no collision.
    let mut field2 = Playfield::create(18, 18);
    field2.set_cell(3, 3, 5);
    assert!(does_it_fit(1, 0, 8, 0, &field2));
}

#[test]
fn box_at_position_8_0_fits_then_self_collides_after_stamping() {
    let shapes = get_shapes();
    let mut field = Playfield::create(18, 18);
    assert!(does_it_fit(1, 0, 8, 0, &field));
    // Lock the piece: stamp its four occupied cells.
    field.stamp_footprint(&shapes[1], 0, 8, 0, 1);
    assert_eq!(field.cell(9, 1), 1);
    assert_eq!(field.cell(10, 1), 1);
    assert_eq!(field.cell(9, 2), 1);
    assert_eq!(field.cell(10, 2), 1);
    assert!(!does_it_fit(1, 0, 8, 0, &field));
}

#[test]
fn out_of_bounds_zero_cells_never_reject() {
    // The straight line's leftmost bounding-box column is all-zero at
    // rotation 0, so at x = -1 that column hangs off the board without
    // causing a rejection.
    let field = Playfield::create(18, 18);
    assert!(does_it_fit(0, 0, -1, 0, &field));
}

#[test]
fn fit_holds_when_all_occupied_cells_are_out_of_bounds() {
    // Fill the whole board; a piece whose occupied cells all lie outside
    // the grid still fits, because only in-bounds cells are checked.
    let mut field = Playfield::create(18, 18);
    for y in 0usize..18 {
        for x in 0usize..18 {
            field.set_cell(x, y, 7);
        }
    }
    // The straight line occupies only column 1 of its box; at x = -2 that
    // column sits at absolute column -1, outside the grid.
    assert!(does_it_fit(0, 0, -2, 0, &field));
    // One cell back inside, the occupied column collides.
    assert!(!does_it_fit(0, 0, -1, 0, &field));
}

#[test]
fn border_ring_blocks_fits() {
    let mut field = Playfield::create(18, 18);
    field.mark_border();
    assert_eq!(field.cell(0, 0), WALL_CELL);
    assert_eq!(field.cell(17, 17), WALL_CELL);
    assert_eq!(field.cell(17, 0), WALL_CELL);
    assert_eq!(field.cell(0, 17), WALL_CELL);
    assert_eq!(field.cell(5, 5), EMPTY_CELL);
    // The box's occupied cells at (-1, 5) sit at absolute columns 0 and 1;
    // column 0 is wall, so the pose does not fit.
    assert!(!does_it_fit(1, 0, -1, 5, &field));
    // One column to the right, the occupied cells clear the wall.
    assert!(does_it_fit(1, 0, 0, 5, &field));
}

#[test]
fn clear_footprint_restores_empty_cells() {
    let shapes = get_shapes();
    let mut field = Playfield::create(18, 18);
    field.stamp_footprint(&shapes[2], 1, 4, 4, 2);
    assert!(!does_it_fit(2, 1, 4, 4, &field));
    field.clear_footprint(&shapes[2], 1, 4, 4);
    for y in 0usize..18 {
        for x in 0usize..18 {
            assert_eq!(field.cell(x, y), EMPTY_CELL);
        }
    }
    assert!(does_it_fit(2, 1, 4, 4, &field));
}

#[test]
fn stamp_skips_out_of_bounds_cells() {
    let shapes = get_shapes();
    let mut field = Playfield::create(18, 18);
    // Straight line at x = -1: occupied column 1 lands on column 0.
    field.stamp_footprint(&shapes[0], 0, -1, 0, 3);
    for y in 0usize..4 {
        assert_eq!(field.cell(0, y), 3);
    }
    // Nothing else was written.
    for y in 0usize..18 {
        for x in 1usize..18 {
            assert_eq!(field.cell(x, y), EMPTY_CELL);
        }
    }
}
