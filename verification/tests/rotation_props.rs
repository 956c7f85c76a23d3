use tetris_core::rotation::rotate;

#[test]
fn rotate_exact_values_state0() {
    // state 0: row * 4 + column
    assert_eq!(rotate(0, 0, 0), 0);
    assert_eq!(rotate(2, 1, 0), 6);
    assert_eq!(rotate(3, 3, 0), 15);
}

#[test]
fn rotate_exact_values_state1() {
    // state 1: 12 + row - column * 4
    assert_eq!(rotate(0, 0, 1), 12);
    assert_eq!(rotate(1, 2, 1), 10);
    assert_eq!(rotate(3, 0, 1), 0);
    assert_eq!(rotate(0, 3, 1), 15);
}

#[test]
fn rotate_exact_values_state2() {
    // state 2: 15 - row * 4 - column
    assert_eq!(rotate(0, 0, 2), 15);
    assert_eq!(rotate(3, 3, 2), 0);
    assert_eq!(rotate(1, 2, 2), 6);
}

#[test]
fn rotate_exact_values_state3() {
    // state 3: 3 - row + column * 4
    assert_eq!(rotate(0, 0, 3), 3);
    assert_eq!(rotate(3, 0, 3), 15);
    assert_eq!(rotate(0, 3, 3), 0);
}

#[test]
fn rotate_folds_state_modulo_4() {
    for px in 0u8..4 {
        for py in 0u8..4 {
            for r in 0u8..4 {
                assert_eq!(rotate(px, py, r + 4), rotate(px, py, r));
                assert_eq!(rotate(px, py, r + 8), rotate(px, py, r));
            }
        }
    }
}

#[test]
fn rotate_is_a_bijection_per_state() {
    for r in 0u8..4 {
        let mut seen: [bool; 16] = [false; 16];
        for px in 0u8..4 {
            for py in 0u8..4 {
                let i = rotate(px, py, r);
                assert!(i < 16, "index out of range at state {r}");
                assert!(!seen[i as usize], "index {i} hit twice at state {r}");
                seen[i as usize] = true;
            }
        }
        assert!(seen.iter().all(|&b| b), "some index never hit at state {r}");
    }
}

#[test]
fn rotate_step_relates_successive_states() {
    // Looking a cell up at state r + 1 equals looking its 90-degree-stepped
    // image (column, row) -> (row, 3 - column) up at state r.
    for r in 0u8..4 {
        for px in 0u8..4 {
            for py in 0u8..4 {
                assert_eq!(rotate(px, py, r + 1), rotate(py, 3 - px, r));
            }
        }
    }
}

#[test]
fn rotate_four_steps_return_every_cell() {
    for px in 0u8..4 {
        for py in 0u8..4 {
            let mut c: u8 = px;
            let mut r: u8 = py;
            for _ in 0..4 {
                let nc = r;
                let nr = 3 - c;
                c = nc;
                r = nr;
            }
            assert_eq!((c, r), (px, py));
        }
    }
}
