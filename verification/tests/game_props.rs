use tetris_core::game::GameState;
use tetris_core::game::Intent;
use tetris_core::playfield::EMPTY_CELL;

fn board_cells(g: &GameState) -> Vec<u8> {
    let f = g.field();
    let mut cells: Vec<u8> = Vec::new();
    for y in 0usize..f.height() {
        for x in 0usize..f.width() {
            cells.push(f.cell(x, y));
        }
    }
    cells
}

#[test]
fn new_game_starts_running_at_origin() {
    let g = GameState::new(18, 18, 4);
    assert_eq!(g.piece(), 4);
    assert_eq!(g.rotation(), 0);
    assert_eq!(g.pos_x(), 0);
    assert_eq!(g.pos_y(), 0);
    assert!(!g.rotate_latched());
    assert!(!g.is_game_over());
    assert!(board_cells(&g).iter().all(|&c| c == EMPTY_CELL));
}

#[test]
fn tick_without_intent_stamps_the_footprint() {
    let mut g = GameState::new(18, 18, 4);
    g.tick(None);
    // The left ell occupies cells (1,1),(1,2),(1,3),(2,3) of its box.
    let f = g.field();
    assert_eq!(f.cell(1, 1), 4);
    assert_eq!(f.cell(1, 2), 4);
    assert_eq!(f.cell(1, 3), 4);
    assert_eq!(f.cell(2, 3), 4);
    assert_eq!(f.cell(0, 0), EMPTY_CELL);
    assert_eq!(f.cell(2, 1), EMPTY_CELL);
}

#[test]
fn moves_commit_when_they_fit() {
    let mut g = GameState::new(18, 18, 4);
    g.tick(None);
    g.tick(Some(Intent::MoveRight));
    assert_eq!(g.pos_x(), 1);
    g.tick(Some(Intent::MoveLeft));
    assert_eq!(g.pos_x(), 0);
    g.tick(Some(Intent::SoftDrop));
    assert_eq!(g.pos_y(), 1);
    assert!(!g.is_game_over());
    // The overlay followed the piece: the old footprint is gone.
    let f = g.field();
    assert_eq!(f.cell(1, 1), EMPTY_CELL);
    assert_eq!(f.cell(1, 2), 4);
}

#[test]
fn moving_left_keeps_fitting_while_cells_leave_the_grid() {
    // The left ell's occupied cells sit in columns 1 and 2 of its box, so
    // x = -1 still fits (column 0 hangs off empty) but the piece keeps
    // moving left as long as every occupied cell stays in bounds or leaves
    // the grid; an empty board never blocks it.
    let mut g = GameState::new(18, 18, 4);
    g.tick(Some(Intent::MoveLeft));
    assert_eq!(g.pos_x(), -1);
    g.tick(Some(Intent::MoveLeft));
    assert_eq!(g.pos_x(), -2);
}

#[test]
fn rotation_latch_allows_exactly_one_rotation() {
    let mut g = GameState::new(18, 18, 4);
    g.tick(Some(Intent::RotateRequest));
    assert_eq!(g.rotation(), 1);
    assert!(g.rotate_latched());
    // A second request with no intervening release is ignored.
    g.tick(Some(Intent::RotateRequest));
    assert_eq!(g.rotation(), 1);
    g.tick(Some(Intent::RotateRequest));
    assert_eq!(g.rotation(), 1);
}

#[test]
fn releasing_the_rotate_key_re_arms_rotation() {
    let mut g = GameState::new(18, 18, 4);
    g.tick(Some(Intent::RotateRequest));
    assert_eq!(g.rotation(), 1);
    g.release_rotate();
    assert!(!g.rotate_latched());
    g.tick(Some(Intent::RotateRequest));
    assert_eq!(g.rotation(), 2);
    g.release_rotate();
    g.tick(Some(Intent::RotateRequest));
    assert_eq!(g.rotation(), 3);
    g.release_rotate();
    g.tick(Some(Intent::RotateRequest));
    assert_eq!(g.rotation(), 0);
}

#[test]
fn hard_quit_terminates_within_one_tick_without_board_mutation() {
    let mut g = GameState::new(18, 18, 4);
    g.tick(None);
    let before = board_cells(&g);
    g.tick(Some(Intent::HardQuit));
    assert!(g.is_game_over());
    assert_eq!(board_cells(&g), before);
    // No further tick mutates anything.
    g.tick(Some(Intent::MoveRight));
    g.tick(Some(Intent::SoftDrop));
    g.tick(None);
    assert!(g.is_game_over());
    assert_eq!(board_cells(&g), before);
    assert_eq!(g.pos_x(), 0);
    assert_eq!(g.pos_y(), 0);
}

#[test]
fn unrecognized_intent_terminates_like_quit() {
    let mut g = GameState::new(18, 18, 4);
    g.tick(None);
    let before = board_cells(&g);
    g.tick(Some(Intent::Unrecognized));
    assert!(g.is_game_over());
    assert_eq!(board_cells(&g), before);
}

#[test]
fn blocked_moves_leave_the_pose_unchanged() {
    let mut g = GameState::new(18, 18, 1);
    // Drop the box to the floor: its occupied rows are 1 and 2 of the
    // bounding box, so it can descend until y + 2 == 17, i.e. y == 15.
    for _ in 0..15 {
        g.tick(Some(Intent::SoftDrop));
    }
    assert_eq!(g.pos_y(), 15);
    g.tick(Some(Intent::SoftDrop));
    assert_eq!(g.pos_y(), 16);
    g.tick(Some(Intent::SoftDrop));
    // Rows 1 and 2 of the box now hang at rows 17 and 18; row 18 is out of
    // bounds and skipped, so the piece may keep sliding off the bottom.
    assert_eq!(g.pos_y(), 17);
}

#[test]
fn blocked_by_locked_cells() {
    let shapes = tetris_core::shapes::get_shapes();
    // Lock a box at (2,0): it occupies (3,1),(4,1),(3,2),(4,2).
    let mut field = tetris_core::playfield::Playfield::create(18, 18);
    field.stamp_footprint(&shapes[1], 0, 2, 0, 9);
    // A box at (0,0) occupies (1,1),(2,1),(1,2),(2,2) and fits; moved to
    // x = 1 its occupied cells land on (2,1),(3,1),(2,2),(3,2) and collide
    // with the locked cells.
    assert!(tetris_core::fits::does_it_fit(1, 0, 0, 0, &field));
    assert!(!tetris_core::fits::does_it_fit(1, 0, 1, 0, &field));
}
