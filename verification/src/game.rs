//! The game loop state machine. Once per tick the loop consumes at most
//! one decoded input intent, erases the active piece's previous footprint
//! from the playfield overlay, validates the candidate move or rotation
//! with the fit evaluator, commits it only on success, and re-stamps the
//! piece at its (possibly new) pose for the rendering collaborator. A quit
//! or unrecognized intent ends the run without touching the board.
//!
//! Rotation is latched: a rotate request is honored only while the latch
//! is clear, and an honored request sets the latch, so holding the rotate
//! key does not spin the piece. The input collaborator clears the latch by
//! signaling that the rotate key was released.

use vstd::prelude::*;

use crate::fits::does_it_fit;
use crate::fits::spec_fits_grid;
use crate::playfield::EMPTY_CELL;
use crate::playfield::Playfield;
use crate::playfield::spec_painted;
use crate::shapes::N_SHAPES;
use crate::shapes::get_shapes;
use crate::shapes::lemma_shapes_are_tetrominoes;
use crate::shapes::spec_shapes;

verus! {

/// A decoded, discrete player action, abstracted away from the raw input
/// transport. The input collaborator delivers at most one per tick; a
/// transport-level error or disconnect is delivered as `HardQuit`.
#[derive(Clone, Copy, Debug, PartialEq, Eq, Structural)]
pub enum Intent {
    MoveLeft,
    MoveRight,
    SoftDrop,
    RotateRequest,
    HardQuit,
    Unrecognized,
}

/// The mathematical state of a game: the grid's cells and dimensions, the
/// active piece's identity and pose, the rotation latch, and the
/// termination flag.
#[verifier::ext_equal]
pub ghost struct GameModel {
    pub field: Seq<Seq<u8>>,
    pub width: int,
    pub height: int,
    pub piece: int,
    pub rotation: int,
    pub x: int,
    pub y: int,
    pub rotate_latch: bool,
    pub game_over: bool,
}

impl GameModel {
    /// Well-formedness: a positive grid of the stated dimensions, a
    /// catalog piece, a normalized rotation state, and a pose inside the
    /// position envelope. The envelope is a machine limit: every pose at
    /// which any bounding-box cell is in bounds lies strictly inside it,
    /// so it never affects which visible moves are allowed; it only keeps
    /// the signed position arithmetic in range.
    pub open spec fn wf(self) -> bool {
        &&& 0 < self.width <= 0x1000
        &&& 0 < self.height <= 0x1000
        &&& self.field.len() == self.height
        &&& forall|cy: int|
            0 <= cy < self.height ==> (#[trigger] self.field[cy]).len() == self.width
        &&& 0 <= self.piece < N_SHAPES
        &&& 0 <= self.rotation < 4
        &&& -4 <= self.x <= self.width + 4
        &&& -4 <= self.y <= self.height + 4
    }

    /// The active piece's shape mask.
    pub open spec fn mask(self) -> Seq<i16> {
        spec_shapes()[self.piece]
    }

    /// The grid with the active piece's transient footprint erased at its
    /// current pose, leaving only settled cells.
    pub open spec fn cleared_field(self) -> Seq<Seq<u8>> {
        spec_painted(
            self.field,
            self.width,
            self.height,
            self.mask(),
            self.rotation,
            self.x,
            self.y,
            EMPTY_CELL,
        )
    }

    /// Whether the active piece fits this state's grid at the candidate
    /// rotation and position.
    pub open spec fn candidate_fits(self, r: int, x: int, y: int) -> bool {
        spec_fits_grid(self.mask(), r, x, y, self.field, self.width, self.height)
    }

    /// True when every grid cell is empty.
    pub open spec fn board_empty(self) -> bool {
        forall|cx: int, cy: int|
            0 <= cx < self.width && 0 <= cy < self.height ==> #[trigger] self.field[cy][cx]
                == EMPTY_CELL
    }
}

/// The intent dispatch step, run against a grid whose transient footprint
/// has already been erased. A move or soft drop shifts the pose by one
/// cell and commits only when the candidate fits and stays inside the
/// position envelope. A rotate request is honored only while the latch is
/// clear and the next rotation state fits; on success it sets the latch.
/// A quit or unrecognized intent raises the termination flag.
pub open spec fn spec_dispatch(m: GameModel, intent: Intent) -> GameModel {
    match intent {
        Intent::MoveLeft => {
            let nx = m.x - 1;
            if m.candidate_fits(m.rotation, nx, m.y) && -4 <= nx {
                GameModel { x: nx, ..m }
            } else {
                m
            }
        },
        Intent::MoveRight => {
            let nx = m.x + 1;
            if m.candidate_fits(m.rotation, nx, m.y) && nx <= m.width + 4 {
                GameModel { x: nx, ..m }
            } else {
                m
            }
        },
        Intent::SoftDrop => {
            let ny = m.y + 1;
            if m.candidate_fits(m.rotation, m.x, ny) && ny <= m.height + 4 {
                GameModel { y: ny, ..m }
            } else {
                m
            }
        },
        Intent::RotateRequest => {
            if !m.rotate_latch && m.candidate_fits(m.rotation + 1, m.x, m.y) {
                GameModel { rotation: (m.rotation + 1) % 4, rotate_latch: true, ..m }
            } else {
                m
            }
        },
        Intent::HardQuit => GameModel { game_over: true, ..m },
        Intent::Unrecognized => GameModel { game_over: true, ..m },
    }
}

/// One tick of the game loop. A finished game changes nothing. A quit or
/// unrecognized intent raises the termination flag and leaves the board
/// untouched. Otherwise the active piece's previous footprint is erased,
/// the intent (if any) is dispatched against the settled cells, and the
/// piece is re-stamped at its resulting pose.
pub open spec fn spec_tick(m: GameModel, intent: Option<Intent>) -> GameModel {
    if m.game_over {
        m
    } else {
        let mc = GameModel { field: m.cleared_field(), ..m };
        let md = match intent {
            Option::None => mc,
            Option::Some(i) => spec_dispatch(mc, i),
        };
        if md.game_over {
            GameModel { game_over: true, ..m }
        } else {
            GameModel {
                field: spec_painted(
                    md.field,
                    md.width,
                    md.height,
                    md.mask(),
                    md.rotation,
                    md.x,
                    md.y,
                    md.piece as u8,
                ),
                ..md
            }
        }
    }
}

/// The key-release signal from the input collaborator: it clears the
/// rotation latch and changes nothing else.
pub open spec fn spec_release(m: GameModel) -> GameModel {
    GameModel { rotate_latch: false, ..m }
}

/// Painting a footprint and then erasing the same footprint leaves the
/// grid as if it had only been erased.
proof fn lemma_paint_then_clear(
    grid: Seq<Seq<u8>>,
    w: int,
    h: int,
    mask: Seq<i16>,
    r: int,
    x: int,
    y: int,
    v: u8,
)
    requires
        0 <= w,
        0 <= h,
    ensures
        spec_painted(
            spec_painted(grid, w, h, mask, r, x, y, v),
            w,
            h,
            mask,
            r,
            x,
            y,
            EMPTY_CELL,
        ) == spec_painted(grid, w, h, mask, r, x, y, EMPTY_CELL),
{
    let a = spec_painted(spec_painted(grid, w, h, mask, r, x, y, v), w, h, mask, r, x, y, EMPTY_CELL);
    let b = spec_painted(grid, w, h, mask, r, x, y, EMPTY_CELL);
    assert forall|cy: int| 0 <= cy < h implies a[cy] == b[cy] by {
        assert(a[cy] =~= b[cy]);
    }
    assert(a =~= b);
}

/// A finished game is terminal: no tick, whatever its intent, changes the
/// state again; in particular the playfield is never mutated after the
/// tick that ended the run.
pub proof fn lemma_game_over_is_terminal(m: GameModel, intent: Option<Intent>)
    requires
        m.game_over,
    ensures
        spec_tick(m, intent) == m,
{
}

/// A quit intent — which is also how a closed or erroring input transport
/// is delivered — ends the run within that very tick and leaves the board
/// untouched; an unrecognized intent does the same.
pub proof fn lemma_quit_terminates(m: GameModel)
    requires
        !m.game_over,
    ensures
        spec_tick(m, Some(Intent::HardQuit)).game_over,
        spec_tick(m, Some(Intent::HardQuit)).field == m.field,
        spec_tick(m, Some(Intent::Unrecognized)).game_over,
        spec_tick(m, Some(Intent::Unrecognized)).field == m.field,
{
}

/// Two consecutive rotate requests with no intervening release produce
/// exactly one rotation change. The first is honored exactly when the
/// latch is clear and the next rotation state fits the settled cells, and
/// an honored request sets the latch; the second tick never changes the
/// rotation again, whether or not the first was honored.
pub proof fn lemma_rotation_latch(m: GameModel)
    requires
        m.wf(),
        !m.game_over,
    ensures
        spec_tick(spec_tick(m, Some(Intent::RotateRequest)), Some(Intent::RotateRequest)).rotation
            == spec_tick(m, Some(Intent::RotateRequest)).rotation,
        !m.rotate_latch && spec_fits_grid(
            m.mask(),
            m.rotation + 1,
            m.x,
            m.y,
            m.cleared_field(),
            m.width,
            m.height,
        ) ==> spec_tick(m, Some(Intent::RotateRequest)).rotation == (m.rotation + 1) % 4
            && spec_tick(m, Some(Intent::RotateRequest)).rotation != m.rotation,
{
    let mc = GameModel { field: m.cleared_field(), ..m };
    let m1 = spec_tick(m, Some(Intent::RotateRequest));
    if !m.rotate_latch && mc.candidate_fits(m.rotation + 1, m.x, m.y) {
        // The first request was honored and set the latch, so the second
        // is ignored.
        assert(m1.rotate_latch);
        assert((m.rotation + 1) % 4 != m.rotation);
    } else {
        // The first request was not honored. If the latch was set it
        // still is; otherwise the fit test failed, and the second tick
        // runs the same test against the same settled cells, because
        // re-stamping and re-erasing the unchanged footprint gives the
        // same cleared grid back.
        assert(m1.rotation == m.rotation && m1.x == m.x && m1.y == m.y && m1.piece == m.piece
            && m1.rotate_latch == m.rotate_latch);
        lemma_paint_then_clear(
            m.cleared_field(),
            m.width,
            m.height,
            m.mask(),
            m.rotation,
            m.x,
            m.y,
            m.piece as u8,
        );
        lemma_paint_then_clear(
            m.field,
            m.width,
            m.height,
            m.mask(),
            m.rotation,
            m.x,
            m.y,
            EMPTY_CELL,
        );
        assert(m1.cleared_field() == m.cleared_field());
    }
}

/// A running game: the playfield and the active piece's identity, pose,
/// rotation latch and termination flag. Owned by the game loop; the
/// rendering collaborator only reads it through the accessors.
pub struct GameState {
    field: Playfield,
    piece: u8,
    rotation: u8,
    x: i16,
    y: i16,
    rotate_latch: bool,
    game_over: bool,
}

impl View for GameState {
    type V = GameModel;

    closed spec fn view(&self) -> GameModel {
        GameModel {
            field: self.field@,
            width: self.field.spec_width(),
            height: self.field.spec_height(),
            piece: self.piece as int,
            rotation: self.rotation as int,
            x: self.x as int,
            y: self.y as int,
            rotate_latch: self.rotate_latch,
            game_over: self.game_over,
        }
    }
}

impl GameState {
    /// Starts a game: an all-empty grid of the given dimensions and the
    /// chosen catalog piece spawned at the origin, rotation 0, latch
    /// clear, not over.
    pub fn new(width: usize, height: usize, piece: u8) -> (s: GameState)
        requires
            0 < width <= 0x1000,
            0 < height <= 0x1000,
            piece < N_SHAPES,
        ensures
            s@.wf(),
            s@.width == width,
            s@.height == height,
            s@.piece == piece,
            s@.rotation == 0,
            s@.x == 0,
            s@.y == 0,
            !s@.rotate_latch,
            !s@.game_over,
            s@.board_empty(),
    {
        let field = Playfield::create(width, height);
        let s = GameState {
            field,
            piece,
            rotation: 0,
            x: 0,
            y: 0,
            rotate_latch: false,
            game_over: false,
        };
        proof {
            assert forall|cx: int, cy: int| 0 <= cx < s@.width && 0 <= cy < s@.height implies
                #[trigger] s@.field[cy][cx] == EMPTY_CELL by {
                assert(s.field.spec_cell(cx, cy) == EMPTY_CELL);
            }
        }
        s
    }

    /// Read-only view of the playfield, for rendering.
    pub fn field(&self) -> (f: &Playfield)
        ensures
            f@ == self@.field,
            f.spec_width() == self@.width,
            f.spec_height() == self@.height,
    {
        &self.field
    }

    /// The active piece's catalog index.
    pub fn piece(&self) -> (p: u8)
        ensures
            p == self@.piece,
    {
        self.piece
    }

    /// The active piece's rotation state.
    pub fn rotation(&self) -> (r: u8)
        ensures
            r == self@.rotation,
    {
        self.rotation
    }

    /// Column of the active piece's bounding box.
    pub fn pos_x(&self) -> (x: i16)
        ensures
            x == self@.x,
    {
        self.x
    }

    /// Row of the active piece's bounding box.
    pub fn pos_y(&self) -> (y: i16)
        ensures
            y == self@.y,
    {
        self.y
    }

    /// Whether the run has terminated.
    pub fn is_game_over(&self) -> (b: bool)
        ensures
            b == self@.game_over,
    {
        self.game_over
    }

    /// Whether the rotation latch is set.
    pub fn rotate_latched(&self) -> (b: bool)
        ensures
            b == self@.rotate_latch,
    {
        self.rotate_latch
    }

    /// Clears the rotation latch: the input collaborator calls this when
    /// the rotate key transitions to not-pressed.
    pub fn release_rotate(&mut self)
        ensures
            final(self)@ == spec_release(old(self)@),
    {
        self.rotate_latch = false;
        proof {
            assert(self@ =~~= spec_release(old(self)@));
        }
    }

    /// Runs one tick of the game loop on at most one pending intent; the
    /// absence of an intent leaves the pose unchanged and only refreshes
    /// the piece's footprint.
    pub fn tick(&mut self, intent: Option<Intent>)
        requires
            old(self)@.wf(),
        ensures
            final(self)@ == spec_tick(old(self)@, intent),
            final(self)@.wf(),
    {
        let ghost m0 = self@;
        if self.game_over {
            return;
        }
        match intent {
            Option::Some(Intent::HardQuit) | Option::Some(Intent::Unrecognized) => {
                self.game_over = true;
                proof {
                    assert(self@ =~~= spec_tick(m0, intent));
                }
                return;
            },
            _ => {},
        }
        proof {
            lemma_shapes_are_tetrominoes();
        }
        let shapes = get_shapes();
        let piece_ref = &shapes[self.piece as usize];
        // Erase the piece's previous footprint, so that the fit tests see
        // only settled cells and the overlay never goes stale.
        self.field.clear_footprint(piece_ref, self.rotation, self.x, self.y);
        let ghost mc = GameModel { field: m0.cleared_field(), ..m0 };
        proof {
            assert(self@ =~~= mc);
        }
        let w = self.field.width();
        let h = self.field.height();
        match intent {
            Option::None => {},
            Option::Some(Intent::MoveLeft) => {
                let nx = self.x - 1;
                if does_it_fit(self.piece, self.rotation, nx, self.y, &self.field) && -4 <= nx {
                    self.x = nx;
                }
            },
            Option::Some(Intent::MoveRight) => {
                let nx = self.x + 1;
                if does_it_fit(self.piece, self.rotation, nx, self.y, &self.field) && nx as i32
                    <= w as i32 + 4 {
                    self.x = nx;
                }
            },
            Option::Some(Intent::SoftDrop) => {
                let ny = self.y + 1;
                if does_it_fit(self.piece, self.rotation, self.x, ny, &self.field) && ny as i32
                    <= h as i32 + 4 {
                    self.y = ny;
                }
            },
            Option::Some(Intent::RotateRequest) => {
                if !self.rotate_latch && does_it_fit(
                    self.piece,
                    self.rotation + 1,
                    self.x,
                    self.y,
                    &self.field,
                ) {
                    // Rotate, but latch to stop wild spinning.
                    self.rotation = (self.rotation + 1) % 4;
                    self.rotate_latch = true;
                }
            },
            Option::Some(Intent::HardQuit) | Option::Some(Intent::Unrecognized) => {},
        }
        let ghost md = match intent {
            Option::None => mc,
            Option::Some(i) => spec_dispatch(mc, i),
        };
        proof {
            assert(self@ =~~= md);
        }
        // Re-stamp the piece at its (possibly new) pose for rendering.
        self.field.stamp_footprint(piece_ref, self.rotation, self.x, self.y, self.piece);
        proof {
            assert(self@ =~~= spec_tick(m0, intent));
        }
    }
}

} // verus!
