//! The fit evaluator: decides whether a piece may occupy a candidate
//! position and rotation. Only bounding-box cells that land inside the
//! playfield are checked against the board; cells that fall outside the
//! grid are skipped rather than rejected, so a piece whose mask hangs over
//! the edge with empty cells is still a legal fit. This boundary-skip
//! policy is deliberate: tightening it changes rotation behavior at the
//! field edges.

use vstd::prelude::*;

use crate::playfield::EMPTY_CELL;
use crate::playfield::Playfield;
use crate::rotation::spec_rotate;
use crate::rotation::rotate;
use crate::shapes::N_SHAPES;
use crate::shapes::get_shapes;
use crate::shapes::lemma_shapes_are_tetrominoes;
use crate::shapes::spec_shapes;

verus! {

/// True when the mask `mask`, rotated to state `r` and placed with its
/// bounding box's top-left corner at (`x`, `y`), collides nowhere with the
/// `w` by `h` grid: no occupied mask cell lands on an in-bounds non-empty
/// grid cell. Out-of-bounds cells never count as collisions.
pub open spec fn spec_fits_grid(
    mask: Seq<i16>,
    r: int,
    x: int,
    y: int,
    grid: Seq<Seq<u8>>,
    w: int,
    h: int,
) -> bool {
    forall|px: int, py: int|
        0 <= px < 4 && 0 <= py < 4 ==> !(0 <= x + px < w && 0 <= y + py < h && mask[#[trigger] spec_rotate(
            px,
            py,
            r,
        )] != 0 && grid[y + py][x + px] != EMPTY_CELL)
}

/// `spec_fits_grid` read off a playfield: the fit/collision test that
/// `does_it_fit` decides.
pub open spec fn spec_fits(mask: Seq<i16>, r: int, x: int, y: int, f: Playfield) -> bool {
    spec_fits_grid(mask, r, x, y, f@, f.spec_width(), f.spec_height())
}

/// Decides whether catalog piece `n_tetromino`, at rotation state
/// `n_rotation` and with its bounding box placed at (`n_pos_x`,
/// `n_pos_y`), fits the field. Pure: the field is only read.
pub fn does_it_fit(
    n_tetromino: u8,
    n_rotation: u8,
    n_pos_x: i16,
    n_pos_y: i16,
    field: &Playfield,
) -> (fit: bool)
    requires
        field.wf(),
        n_tetromino < N_SHAPES,
    ensures
        fit == spec_fits(
            spec_shapes()[n_tetromino as int],
            n_rotation as int,
            n_pos_x as int,
            n_pos_y as int,
            *field,
        ),
{
    proof {
        lemma_shapes_are_tetrominoes();
    }
    let ghost mask = spec_shapes()[n_tetromino as int];
    let tetrominos = get_shapes();
    let width = field.width();
    let height = field.height();
    let mut k: usize = 0;
    while k < 16
        invariant
            k <= 16,
            field.wf(),
            n_tetromino < N_SHAPES,
            width == field.spec_width(),
            height == field.spec_height(),
            tetrominos@.len() == N_SHAPES,
            tetrominos@[n_tetromino as int]@ == mask,
            mask == spec_shapes()[n_tetromino as int],
            mask.len() == 16,
            forall|px: int, py: int|
                0 <= px < 4 && 0 <= py < 4 && px * 4 + py < k ==> !(field.in_bounds(
                    n_pos_x + px,
                    n_pos_y + py,
                ) && mask[#[trigger] spec_rotate(px, py, n_rotation as int)] != 0
                    && field.spec_cell(n_pos_x + px, n_pos_y + py) != EMPTY_CELL),
        decreases 16 - k,
    {
        let px: u8 = (k / 4) as u8;
        let py: u8 = (k % 4) as u8;
        // Get the index into the rotated piece mask.
        let pi = rotate(px, py, n_rotation);
        let cx: i32 = n_pos_x as i32 + px as i32;
        let cy: i32 = n_pos_y as i32 + py as i32;
        // Out of bounds is not by itself a fail: cells of the bounding box
        // may lie outside the field without colliding, so skip them.
        if 0 <= cx && cx < width as i32 && 0 <= cy && cy < height as i32 {
            // In bounds, so do the collision check.
            if tetrominos[n_tetromino as usize].shape()[pi as usize] != 0 && field.cell(
                cx as usize,
                cy as usize,
            ) != EMPTY_CELL {
                // Fail on the first hit.
                return false;
            }
        }
        proof {
            assert forall|gx: int, gy: int|
                0 <= gx < 4 && 0 <= gy < 4 && gx * 4 + gy < k + 1 implies !(field.in_bounds(
                n_pos_x + gx,
                n_pos_y + gy,
            ) && mask[#[trigger] spec_rotate(gx, gy, n_rotation as int)] != 0 && field.spec_cell(
                n_pos_x + gx,
                n_pos_y + gy,
            ) != EMPTY_CELL) by {
                if gx * 4 + gy == k {
                    assert(gx == k / 4 && gy == k % 4);
                }
            }
        }
        k += 1;
    }
    true
}

/// On an all-empty playfield every piece fits at every position and
/// rotation; in particular, a freshly spawned catalog piece at its
/// starting pose always fits.
pub proof fn lemma_fits_empty(mask: Seq<i16>, r: int, x: int, y: int, f: Playfield)
    requires
        f.all_empty(),
    ensures
        spec_fits(mask, r, x, y, f),
{
    assert forall|px: int, py: int| 0 <= px < 4 && 0 <= py < 4 implies !(0 <= x + px
        < f.spec_width() && 0 <= y + py < f.spec_height() && mask[#[trigger] spec_rotate(
        px,
        py,
        r,
    )] != 0 && f@[y + py][x + px] != EMPTY_CELL) by {
        if 0 <= x + px < f.spec_width() && 0 <= y + py < f.spec_height() {
            assert(f.spec_cell(x + px, y + py) == EMPTY_CELL);
        }
    }
}

} // verus!
