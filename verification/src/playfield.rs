//! The playfield: a mutable grid of fixed width and height whose cells hold
//! either the empty marker or the marker of the piece occupying them. The
//! grid doubles as persisted locked-piece state and as a transient overlay
//! of the actively falling piece, which the game loop re-stamps every tick.

use vstd::prelude::*;

use crate::rotation::spec_rotate;
use crate::rotation::rotate;
use crate::shapes::Tetromino;

verus! {

/// Marker held by an unoccupied cell.
pub const EMPTY_CELL: u8 = 0;

/// Marker written by `mark_border` over the outermost ring of cells, so
/// that border cells count as permanently occupied in collision checks.
pub const WALL_CELL: u8 = 8;

/// A grid of `height` rows, each of `width` cells.
pub struct Playfield {
    width: usize,
    height: usize,
    cells: Vec<Vec<u8>>,
}

impl View for Playfield {
    type V = Seq<Seq<u8>>;

    closed spec fn view(&self) -> Seq<Seq<u8>> {
        self.cells@.map_values(|row: Vec<u8>| row@)
    }
}

/// True when the piece mask `mask`, rotated to state `r` and placed with
/// its bounding box's top-left corner at (`x`, `y`), occupies the field
/// cell (`cx`, `cy`).
pub open spec fn covers(mask: Seq<i16>, r: int, x: int, y: int, cx: int, cy: int) -> bool {
    &&& x <= cx < x + 4
    &&& y <= cy < y + 4
    &&& mask[spec_rotate(cx - x, cy - y, r)] != 0
}

/// The grid of `h` rows by `w` cells that results from writing marker `v`
/// over every cell of `grid` covered by the mask `mask` rotated to state
/// `r` and placed at (`x`, `y`), leaving every other cell as it was.
pub open spec fn spec_painted(
    grid: Seq<Seq<u8>>,
    w: int,
    h: int,
    mask: Seq<i16>,
    r: int,
    x: int,
    y: int,
    v: u8,
) -> Seq<Seq<u8>> {
    Seq::new(
        h as nat,
        |cy: int|
            Seq::new(
                w as nat,
                |cx: int|
                    if covers(mask, r, x, y, cx, cy) {
                        v
                    } else {
                        grid[cy][cx]
                    },
            ),
    )
}

impl Playfield {
    /// Width of the grid, in cells.
    pub closed spec fn spec_width(&self) -> int {
        self.width as int
    }

    /// Height of the grid, in cells.
    pub closed spec fn spec_height(&self) -> int {
        self.height as int
    }

    /// Well-formedness: positive dimensions small enough for signed
    /// position arithmetic, and every row of the stated width.
    pub open spec fn wf(&self) -> bool {
        &&& 0 < self.spec_width() <= 0x7fff
        &&& 0 < self.spec_height() <= 0x7fff
        &&& self@.len() == self.spec_height()
        &&& forall|y: int|
            0 <= y < self.spec_height() ==> (#[trigger] self@[y]).len() == self.spec_width()
    }

    /// True when (`x`, `y`) lies inside the grid.
    pub open spec fn in_bounds(&self, x: int, y: int) -> bool {
        0 <= x < self.spec_width() && 0 <= y < self.spec_height()
    }

    /// The marker held by cell (`x`, `y`).
    pub open spec fn spec_cell(&self, x: int, y: int) -> u8 {
        self@[y][x]
    }

    /// True when every cell of the grid is empty.
    pub open spec fn all_empty(&self) -> bool {
        forall|x: int, y: int|
            self.in_bounds(x, y) ==> #[trigger] self.spec_cell(x, y) == EMPTY_CELL
    }

    /// Width of the grid, in cells.
    pub fn width(&self) -> (w: usize)
        ensures
            w == self.spec_width(),
    {
        self.width
    }

    /// Height of the grid, in cells.
    pub fn height(&self) -> (h: usize)
        ensures
            h == self.spec_height(),
    {
        self.height
    }

    /// Builds an all-empty grid of the given dimensions.
    pub fn create(width: usize, height: usize) -> (f: Playfield)
        requires
            0 < width <= 0x7fff,
            0 < height <= 0x7fff,
        ensures
            f.wf(),
            f.spec_width() == width,
            f.spec_height() == height,
            f.all_empty(),
    {
        let mut cells: Vec<Vec<u8>> = Vec::new();
        let mut y: usize = 0;
        while y < height
            invariant
                y <= height,
                width <= 0x7fff,
                cells@.len() == y,
                forall|j: int| 0 <= j < y ==> (#[trigger] cells@[j])@.len() == width,
                forall|j: int, i: int|
                    0 <= j < y && 0 <= i < width ==> #[trigger] cells@[j]@[i] == EMPTY_CELL,
            decreases height - y,
        {
            let row: Vec<u8> = vec![EMPTY_CELL; width];
            cells.push(row);
            y += 1;
        }
        let f = Playfield { width, height, cells };
        proof {
            assert forall|x: int, yy: int| f.in_bounds(x, yy) implies #[trigger] f.spec_cell(
                x,
                yy,
            ) == EMPTY_CELL by {
                assert(f@[yy] == f.cells@[yy]@);
            }
        }
        f
    }

    /// Reads the marker at (`x`, `y`).
    pub fn cell(&self, x: usize, y: usize) -> (v: u8)
        requires
            self.wf(),
            x < self.spec_width(),
            y < self.spec_height(),
        ensures
            v == self.spec_cell(x as int, y as int),
    {
        proof {
            assert(self@[y as int] == self.cells@[y as int]@);
        }
        self.cells[y][x]
    }

    /// Writes marker `v` at (`x`, `y`); every other cell is unchanged.
    pub fn set_cell(&mut self, x: usize, y: usize, v: u8)
        requires
            old(self).wf(),
            x < old(self).spec_width(),
            y < old(self).spec_height(),
        ensures
            final(self).wf(),
            final(self).spec_width() == old(self).spec_width(),
            final(self).spec_height() == old(self).spec_height(),
            final(self)@ == old(self)@.update(
                y as int,
                old(self)@[y as int].update(x as int, v),
            ),
    {
        proof {
            assert(self@[y as int] == self.cells@[y as int]@);
        }
        self.cells[y][x] = v;
        proof {
            assert forall|j: int| 0 <= j < self@.len() implies self@[j] == old(self)@.update(
                y as int,
                old(self)@[y as int].update(x as int, v),
            )[j] by {
                assert(self@[j] == self.cells@[j]@);
                assert(old(self)@[j] == old(self).cells@[j]@);
                if j == y as int {
                    assert(self.cells@[j]@ =~= old(self).cells@[j]@.update(x as int, v));
                }
            }
            assert(self@ =~= old(self)@.update(
                y as int,
                old(self)@[y as int].update(x as int, v),
            ));
        }
    }

    /// Overwrites the outermost ring of cells with the wall marker; every
    /// interior cell is unchanged.
    pub fn mark_border(&mut self)
        requires
            old(self).wf(),
        ensures
            final(self).wf(),
            final(self).spec_width() == old(self).spec_width(),
            final(self).spec_height() == old(self).spec_height(),
            forall|cx: int, cy: int|
                old(self).in_bounds(cx, cy) ==> #[trigger] final(self).spec_cell(cx, cy) == (
                if cx == 0 || cx == old(self).spec_width() - 1 || cy == 0 || cy == old(
                    self,
                ).spec_height() - 1 {
                    WALL_CELL
                } else {
                    old(self).spec_cell(cx, cy)
                }),
    {
        let width = self.width();
        let height = self.height();
        let ghost orig = *self;
        let mut y: usize = 0;
        while y < height
            invariant
                y <= height,
                self.wf(),
                self.spec_width() == orig.spec_width(),
                self.spec_height() == orig.spec_height(),
                width == orig.spec_width(),
                height == orig.spec_height(),
                forall|cx: int, cy: int|
                    orig.in_bounds(cx, cy) ==> #[trigger] self.spec_cell(cx, cy) == (
                    if cy < y && (cx == 0 || cx == orig.spec_width() - 1 || cy == 0 || cy
                        == orig.spec_height() - 1) {
                        WALL_CELL
                    } else {
                        orig.spec_cell(cx, cy)
                    }),
            decreases height - y,
        {
            let mut x: usize = 0;
            while x < width
                invariant
                    x <= width,
                    y < height,
                    self.wf(),
                    self.spec_width() == orig.spec_width(),
                    self.spec_height() == orig.spec_height(),
                    width == orig.spec_width(),
                    height == orig.spec_height(),
                    forall|cx: int, cy: int|
                        orig.in_bounds(cx, cy) ==> #[trigger] self.spec_cell(cx, cy) == (
                        if (cy < y || (cy == y && cx < x)) && (cx == 0 || cx == orig.spec_width()
                            - 1 || cy == 0 || cy == orig.spec_height() - 1) {
                            WALL_CELL
                        } else {
                            orig.spec_cell(cx, cy)
                        }),
                decreases width - x,
            {
                let ghost pre = *self;
                if x == 0 || x == width - 1 || y == 0 || y == height - 1 {
                    self.set_cell(x, y, WALL_CELL);
                }
                proof {
                    assert forall|cx: int, cy: int| orig.in_bounds(cx, cy) implies #[trigger] self
                        .spec_cell(cx, cy) == (
                    if (cy < y || (cy == y && cx < x + 1)) && (cx == 0 || cx == orig.spec_width()
                        - 1 || cy == 0 || cy == orig.spec_height() - 1) {
                        WALL_CELL
                    } else {
                        orig.spec_cell(cx, cy)
                    }) by {
                        if cx == x as int && cy == y as int {
                        } else {
                            assert(self.spec_cell(cx, cy) == pre.spec_cell(cx, cy));
                            assert(pre.spec_cell(cx, cy) == (
                            if (cy < y || (cy == y && cx < x)) && (cx == 0 || cx
                                == orig.spec_width() - 1 || cy == 0 || cy == orig.spec_height()
                                - 1) {
                                WALL_CELL
                            } else {
                                orig.spec_cell(cx, cy)
                            }));
                        }
                    }
                }
                x += 1;
            }
            y += 1;
        }
    }

    /// Writes marker `v` over every in-bounds field cell covered by the
    /// piece's rotated mask placed at (`x`, `y`); every other cell,
    /// including covered cells that lie outside the grid, is unchanged.
    pub fn stamp_footprint(&mut self, piece: &Tetromino, r: u8, x: i16, y: i16, v: u8)
        requires
            old(self).wf(),
            piece@.len() == 16,
        ensures
            final(self).wf(),
            final(self).spec_width() == old(self).spec_width(),
            final(self).spec_height() == old(self).spec_height(),
            forall|cx: int, cy: int|
                old(self).in_bounds(cx, cy) ==> #[trigger] final(self).spec_cell(cx, cy) == (
                if covers(piece@, r as int, x as int, y as int, cx, cy) {
                    v
                } else {
                    old(self).spec_cell(cx, cy)
                }),
            final(self)@ == spec_painted(
                old(self)@,
                old(self).spec_width(),
                old(self).spec_height(),
                piece@,
                r as int,
                x as int,
                y as int,
                v,
            ),
    {
        let width = self.width();
        let height = self.height();
        let ghost orig = *self;
        let mut k: usize = 0;
        while k < 16
            invariant
                k <= 16,
                self.wf(),
                self.spec_width() == orig.spec_width(),
                self.spec_height() == orig.spec_height(),
                width == orig.spec_width(),
                height == orig.spec_height(),
                piece@.len() == 16,
                forall|cx: int, cy: int|
                    orig.in_bounds(cx, cy) ==> #[trigger] self.spec_cell(cx, cy) == (
                    if covers(piece@, r as int, x as int, y as int, cx, cy) && (cx - x) * 4 + (cy
                        - y) < k {
                        v
                    } else {
                        orig.spec_cell(cx, cy)
                    }),
            decreases 16 - k,
        {
            let px: u8 = (k / 4) as u8;
            let py: u8 = (k % 4) as u8;
            let pi = rotate(px, py, r);
            let cx: i32 = x as i32 + px as i32;
            let cy: i32 = y as i32 + py as i32;
            let ghost pre = *self;
            if piece.shape()[pi as usize] != 0 && 0 <= cx && cx < width as i32 && 0 <= cy && cy
                < height as i32 {
                self.set_cell(cx as usize, cy as usize, v);
            }
            proof {
                assert forall|gx: int, gy: int| orig.in_bounds(gx, gy) implies #[trigger] self
                    .spec_cell(gx, gy) == (
                if covers(piece@, r as int, x as int, y as int, gx, gy) && (gx - x) * 4 + (gy - y)
                    < k + 1 {
                    v
                } else {
                    orig.spec_cell(gx, gy)
                }) by {
                    if gx == cx as int && gy == cy as int {
                        assert((gx - x) * 4 + (gy - y) == k);
                    } else {
                        assert(self.spec_cell(gx, gy) == pre.spec_cell(gx, gy));
                        if covers(piece@, r as int, x as int, y as int, gx, gy) && (gx - x) * 4 + (
                        gy - y) == k {
                            assert(gx - x == k / 4 && gy - y == k % 4);
                            assert(gx == cx as int && gy == cy as int);
                        }
                    }
                }
            }
            k += 1;
        }
        proof {
            let painted = spec_painted(
                orig@,
                orig.spec_width(),
                orig.spec_height(),
                piece@,
                r as int,
                x as int,
                y as int,
                v,
            );
            assert forall|cy: int| 0 <= cy < self@.len() implies self@[cy] == painted[cy] by {
                assert forall|cx: int| 0 <= cx < orig.spec_width() implies self@[cy][cx]
                    == painted[cy][cx] by {
                    assert(orig.in_bounds(cx, cy));
                    assert(self.spec_cell(cx, cy) == (
                    if covers(piece@, r as int, x as int, y as int, cx, cy) && (cx - x) * 4 + (cy
                        - y) < 16 {
                        v
                    } else {
                        orig.spec_cell(cx, cy)
                    }));
                    if covers(piece@, r as int, x as int, y as int, cx, cy) {
                        assert((cx - x) * 4 + (cy - y) < 16);
                    }
                }
                assert(self@[cy] =~= painted[cy]);
            }
            assert(self@ =~= painted);
        }
    }

    /// Writes the empty marker over every in-bounds field cell covered by
    /// the piece's rotated mask placed at (`x`, `y`); every other cell is
    /// unchanged.
    pub fn clear_footprint(&mut self, piece: &Tetromino, r: u8, x: i16, y: i16)
        requires
            old(self).wf(),
            piece@.len() == 16,
        ensures
            final(self).wf(),
            final(self).spec_width() == old(self).spec_width(),
            final(self).spec_height() == old(self).spec_height(),
            forall|cx: int, cy: int|
                old(self).in_bounds(cx, cy) ==> #[trigger] final(self).spec_cell(cx, cy) == (
                if covers(piece@, r as int, x as int, y as int, cx, cy) {
                    EMPTY_CELL
                } else {
                    old(self).spec_cell(cx, cy)
                }),
            final(self)@ == spec_painted(
                old(self)@,
                old(self).spec_width(),
                old(self).spec_height(),
                piece@,
                r as int,
                x as int,
                y as int,
                EMPTY_CELL,
            ),
    {
        self.stamp_footprint(piece, r, x, y, EMPTY_CELL);
    }
}

} // verus!
