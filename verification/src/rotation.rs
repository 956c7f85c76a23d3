//! The rotation-index transform: maps a (column, row) cell of a piece's
//! 4x4 bounding box, together with a rotation state taken modulo 4, to a
//! linear index into the piece's 16-entry shape mask. Four closed-form
//! formulas implement the four 90-degree orientations without ever
//! materializing a rotated copy of the shape.

use vstd::prelude::*;

verus! {

/// The linear index into a 16-entry shape mask that cell (`px`, `py`) of
/// the 4x4 bounding box reads at rotation state `r` (taken modulo 4).
pub open spec fn spec_rotate(px: int, py: int, r: int) -> int {
    if r % 4 == 0 {
        py * 4 + px
    } else if r % 4 == 1 {
        12 + py - px * 4
    } else if r % 4 == 2 {
        15 - py * 4 - px
    } else {
        3 - py + px * 4
    }
}

/// Column of the bounding-box cell whose mask index at rotation state `r`
/// is `i`: the inverse of the transform, column part.
pub open spec fn spec_rotate_inv_col(i: int, r: int) -> int {
    if r % 4 == 0 {
        i % 4
    } else if r % 4 == 1 {
        3 - i / 4
    } else if r % 4 == 2 {
        3 - i % 4
    } else {
        i / 4
    }
}

/// Row part of the inverse of the transform at rotation state `r`.
pub open spec fn spec_rotate_inv_row(i: int, r: int) -> int {
    if r % 4 == 0 {
        i / 4
    } else if r % 4 == 1 {
        i % 4
    } else if r % 4 == 2 {
        3 - i / 4
    } else {
        3 - i % 4
    }
}

/// Column of the cell that (`px`, `py`) is carried to by a single
/// 90-degree rotation step of the 4x4 bounding box.
pub open spec fn spec_rot_step_col(px: int, py: int) -> int {
    py
}

/// Row of the cell that (`px`, `py`) is carried to by a single
/// 90-degree rotation step of the 4x4 bounding box.
pub open spec fn spec_rot_step_row(px: int, py: int) -> int {
    3 - px
}

/// Index into a piece's shape mask for cell (`px`, `py`) of its bounding
/// box at rotation state `r`. Any `r` is folded modulo 4; the result is
/// always a valid mask index.
pub fn rotate(px: u8, py: u8, r: u8) -> (pi: u8)
    requires
        px < 4,
        py < 4,
    ensures
        pi == spec_rotate(px as int, py as int, r as int),
        pi < 16,
{
    match r % 4 {
        0 => py * 4 + px,
        1 => 12 + py - px * 4,
        2 => 15 - py * 4 - px,
        _ => 3 - py + px * 4,
    }
}

/// For every rotation state, the transform sends the 16 bounding-box cells
/// onto the 16 mask indices one to one: each index is in range, no two
/// cells share an index, and every index is hit.
pub proof fn lemma_rotate_bijective(r: int)
    ensures
        forall|px: int, py: int|
            0 <= px < 4 && 0 <= py < 4 ==> 0 <= #[trigger] spec_rotate(px, py, r) < 16,
        forall|px1: int, py1: int, px2: int, py2: int|
            0 <= px1 < 4 && 0 <= py1 < 4 && 0 <= px2 < 4 && 0 <= py2 < 4
                && #[trigger] spec_rotate(px1, py1, r) == #[trigger] spec_rotate(px2, py2, r)
                ==> px1 == px2 && py1 == py2,
        forall|i: int|
            0 <= i < 16 ==> {
                let px = #[trigger] spec_rotate_inv_col(i, r);
                let py = spec_rotate_inv_row(i, r);
                0 <= px < 4 && 0 <= py < 4 && spec_rotate(px, py, r) == i
            },
{
}

/// A single 90-degree step of the bounding box has order four: taking any
/// cell through four successive steps returns it to itself, and advancing
/// the rotation state by one is the same as looking the stepped cell up at
/// the previous state. Together these say that rotating through states
/// 0 -> 1 -> 2 -> 3 -> 0 returns every cell to its original mask index.
pub proof fn lemma_rotate_cycle(r: int)
    ensures
        forall|px: int, py: int|
            0 <= px < 4 && 0 <= py < 4 ==> #[trigger] spec_rotate(px, py, r + 4) == spec_rotate(
                px,
                py,
                r,
            ),
        forall|px: int, py: int|
            0 <= px < 4 && 0 <= py < 4 ==> #[trigger] spec_rotate(px, py, r + 1) == spec_rotate(
                spec_rot_step_col(px, py),
                spec_rot_step_row(px, py),
                r,
            ),
        forall|px: int, py: int|
            0 <= px < 4 && 0 <= py < 4 ==> {
                let c1 = #[trigger] spec_rot_step_col(px, py);
                let r1 = spec_rot_step_row(px, py);
                let c2 = spec_rot_step_col(c1, r1);
                let r2 = spec_rot_step_row(c1, r1);
                let c3 = spec_rot_step_col(c2, r2);
                let r3 = spec_rot_step_row(c2, r2);
                spec_rot_step_col(c3, r3) == px && spec_rot_step_row(c3, r3) == py
            },
{
    assert forall|px: int, py: int| 0 <= px < 4 && 0 <= py < 4 implies #[trigger] spec_rotate(
        px,
        py,
        r + 1,
    ) == spec_rotate(spec_rot_step_col(px, py), spec_rot_step_row(px, py), r) by {
        assert((r + 1) % 4 == (r % 4 + 1) % 4) by (nonlinear_arith);
    }
}

} // verus!
