//! The shape catalog: the fixed set of tetromino variants, each given as a
//! 16-entry mask over the piece's 4x4 bounding box in its canonical
//! (rotation-0) orientation, indexed by `row * 4 + column`. A nonzero entry
//! marks an occupied cell; the entry's value itself only carries a display
//! tag and is never read by the collision logic. Every shape has exactly
//! four occupied cells.

use vstd::prelude::*;

verus! {

/// Number of piece variants in the catalog.
pub const N_SHAPES: usize = 7;

/// One piece variant: a 16-entry mask over its 4x4 bounding box.
pub struct Tetromino {
    shape: Vec<i16>,
}

impl View for Tetromino {
    type V = Seq<i16>;

    closed spec fn view(&self) -> Seq<i16> {
        self.shape@
    }
}

impl Tetromino {
    /// The piece's mask, indexed by `row * 4 + column` at rotation 0.
    pub fn shape(&self) -> (s: &Vec<i16>)
        ensures
            s@ == self@,
    {
        &self.shape
    }
}

/// The catalog's masks: straight line, box, tee, right ell, left ell,
/// ess, zee.
pub open spec fn spec_shapes() -> Seq<Seq<i16>> {
    seq![
        seq![0i16, 10, 0, 0, 0, 10, 0, 0, 0, 10, 0, 0, 0, 10, 0, 0],
        seq![0i16, 0, 0, 0, 0, 10, 10, 0, 0, 10, 10, 0, 0, 0, 0, 0],
        seq![0i16, 0, 0, 0, 0, 0, 0, 0, 10, 10, 10, 0, 0, 10, 0, 0],
        seq![0i16, 0, 0, 0, 0, 0, 10, 0, 0, 0, 10, 0, 0, 10, 10, 0],
        seq![0i16, 0, 0, 0, 0, 10, 0, 0, 0, 10, 0, 0, 0, 10, 10, 0],
        seq![0i16, 0, 0, 0, 0, 0, 0, 0, 10, 10, 0, 0, 0, 10, 10, 0],
        seq![0i16, 0, 0, 0, 0, 0, 0, 0, 0, 10, 10, 0, 10, 10, 0, 0],
    ]
}

/// Number of occupied (nonzero) entries among the first `n` entries of a
/// shape mask.
pub open spec fn count_occupied_upto(s: Seq<i16>, n: int) -> int
    decreases n,
{
    if n <= 0 {
        0
    } else {
        count_occupied_upto(s, n - 1) + if s[n - 1] != 0 {
            1int
        } else {
            0int
        }
    }
}

/// Number of occupied (nonzero) entries in a shape mask.
pub open spec fn count_occupied(s: Seq<i16>) -> int {
    count_occupied_upto(s, s.len() as int)
}

/// Every catalog mask has 16 entries and exactly four occupied cells: the
/// pieces are tetrominoes.
pub proof fn lemma_shapes_are_tetrominoes()
    ensures
        spec_shapes().len() == N_SHAPES,
        forall|t: int|
            0 <= t < N_SHAPES ==> (#[trigger] spec_shapes()[t]).len() == 16,
        forall|t: int|
            0 <= t < N_SHAPES ==> count_occupied(#[trigger] spec_shapes()[t]) == 4,
{
    assert forall|t: int| 0 <= t < N_SHAPES implies count_occupied(
        #[trigger] spec_shapes()[t],
    ) == 4 by {
        reveal_with_fuel(count_occupied_upto, 17);
        assert(count_occupied(spec_shapes()[0]) == 4);
        assert(count_occupied(spec_shapes()[1]) == 4);
        assert(count_occupied(spec_shapes()[2]) == 4);
        assert(count_occupied(spec_shapes()[3]) == 4);
        assert(count_occupied(spec_shapes()[4]) == 4);
        assert(count_occupied(spec_shapes()[5]) == 4);
        assert(count_occupied(spec_shapes()[6]) == 4);
    }
}

/// Builds the catalog. The returned sequence holds the `N_SHAPES` piece
/// variants, in catalog order, with exactly the masks of `spec_shapes`.
pub fn get_shapes() -> (ts: Vec<Tetromino>)
    ensures
        ts@.len() == N_SHAPES,
        forall|t: int| 0 <= t < N_SHAPES ==> (#[trigger] ts@[t])@ == spec_shapes()[t],
{
    let ts: Vec<Tetromino> = vec![
        Tetromino { shape: vec![0i16, 10, 0, 0, 0, 10, 0, 0, 0, 10, 0, 0, 0, 10, 0, 0] },
        Tetromino { shape: vec![0i16, 0, 0, 0, 0, 10, 10, 0, 0, 10, 10, 0, 0, 0, 0, 0] },
        Tetromino { shape: vec![0i16, 0, 0, 0, 0, 0, 0, 0, 10, 10, 10, 0, 0, 10, 0, 0] },
        Tetromino { shape: vec![0i16, 0, 0, 0, 0, 0, 10, 0, 0, 0, 10, 0, 0, 10, 10, 0] },
        Tetromino { shape: vec![0i16, 0, 0, 0, 0, 10, 0, 0, 0, 10, 0, 0, 0, 10, 10, 0] },
        Tetromino { shape: vec![0i16, 0, 0, 0, 0, 0, 0, 0, 10, 10, 0, 0, 0, 10, 10, 0] },
        Tetromino { shape: vec![0i16, 0, 0, 0, 0, 0, 0, 0, 0, 10, 10, 0, 10, 10, 0, 0] },
    ];
    proof {
        assert forall|t: int| 0 <= t < N_SHAPES implies (#[trigger] ts@[t])@
            == spec_shapes()[t] by {
            assert(ts@[0]@ =~= spec_shapes()[0]);
            assert(ts@[1]@ =~= spec_shapes()[1]);
            assert(ts@[2]@ =~= spec_shapes()[2]);
            assert(ts@[3]@ =~= spec_shapes()[3]);
            assert(ts@[4]@ =~= spec_shapes()[4]);
            assert(ts@[5]@ =~= spec_shapes()[5]);
            assert(ts@[6]@ =~= spec_shapes()[6]);
        }
    }
    ts
}

} // verus!
