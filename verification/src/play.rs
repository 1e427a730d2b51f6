//! The state of a game and the rules that change it: the keys, gravity,
//! landing, and one whole frame.

use vstd::prelude::*;
use crate::chance::{piece_index, random_index, random_usize};
use crate::render::{
    blocks_of, bottom_is_below_position, bottom_of, bottom_stays_near, draw_mino, points, Drawing,
};
use crate::shapes::{cells_of, is_grid, is_shape, Game, Tetrimino, PIECES};
use crate::stage::{block, floor, right_edge, BLOCK_SIZE, FALL_FRAMES, STAGE_HEIGHT, STAGE_WIDTH, STAGE_X, STAGE_Y};

verus! {

/// What the player did, as far as the game cares.
#[derive(Clone, Copy, Debug, PartialEq, Eq, Structural)]
pub enum Input {
    /// The window was closed or the escape key pressed.
    Quit,
    Left,
    Right,
    Up,
    Down,
    /// Any other event.
    Other,
}

/// Which of the two sets of rules is played.
#[derive(Clone, Copy, Debug, PartialEq, Eq, Structural)]
pub enum Rules {
    /// Pieces land and stay, a new piece follows, and the down key drops
    /// the piece by one block.
    Stacking,
    /// One piece only: it comes to rest on the floor and nothing follows;
    /// the down key does nothing.
    Plain,
}

/// A piece that has landed, with the position at which it stopped.
pub struct StackMino {
    pub mino: Tetrimino,
    pub x: i32,
    pub y: i32,
}

/// A landed piece as a value of mathematics.
pub struct Settled {
    pub cells: Seq<Seq<u8>>,
    pub x: int,
    pub y: int,
}

impl View for StackMino {
    type V = Settled;

    open spec fn view(&self) -> Settled {
        Settled { cells: cells_of(&self.mino), x: self.x as int, y: self.y as int }
    }
}

/// The state of a game between two frames.
pub struct Play {
    pub rules: Rules,
    /// Index of the active piece in the catalog.
    pub index: usize,
    pub position_x: i32,
    pub position_y: i32,
    /// Frames since the last step of gravity.
    pub counter: i32,
    /// Counts the presses of the up key, from 0 to 4 and round again. The
    /// rules never read it.
    pub rotate_count: i32,
    pub is_rotate: bool,
    /// The landed pieces, oldest first.
    pub stack_minos: Vec<StackMino>,
}

/// The state of a game as a value of mathematics.
pub struct PlayState {
    pub rules: Rules,
    pub index: int,
    pub x: int,
    pub y: int,
    pub counter: int,
    pub rotate_count: int,
    pub is_rotate: bool,
    pub settled: Seq<Settled>,
}

impl View for Play {
    type V = PlayState;

    open spec fn view(&self) -> PlayState {
        PlayState {
            rules: self.rules,
            index: self.index as int,
            x: self.position_x as int,
            y: self.position_y as int,
            counter: self.counter as int,
            rotate_count: self.rotate_count as int,
            is_rotate: self.is_rotate,
            settled: Seq::new(self.stack_minos@.len(), |k: int| self.stack_minos@[k]@),
        }
    }
}

/// The state in which a game begins, and in which each new piece appears:
/// the piece at the top left corner of the stage, not turned.
pub open spec fn start(rules: Rules, index: int) -> PlayState {
    PlayState {
        rules,
        index,
        x: STAGE_X as int,
        y: STAGE_Y as int,
        counter: 0,
        rotate_count: 0,
        is_rotate: false,
        settled: Seq::empty(),
    }
}

/// The state after one key. Left and right move the piece by one block
/// while its position is inside the stage's sides; up turns it, or turns it
/// back; down, under the stacking rules, drops it by one block at once.
pub open spec fn pressed(s: PlayState, input: Input) -> PlayState {
    match input {
        Input::Right => if s.x < right_edge() {
            PlayState { x: s.x + block(), ..s }
        } else {
            s
        },
        Input::Left => if s.x > STAGE_X {
            PlayState { x: s.x - block(), ..s }
        } else {
            s
        },
        Input::Up => match s.rules {
            Rules::Stacking => PlayState {
                rotate_count: if s.rotate_count + 1 > 4 {
                    0
                } else {
                    s.rotate_count + 1
                },
                is_rotate: !s.is_rotate,
                ..s
            },
            Rules::Plain => PlayState { is_rotate: !s.is_rotate, ..s },
        },
        Input::Down => match s.rules {
            Rules::Stacking => PlayState { y: s.y + block(), ..s },
            Rules::Plain => s,
        },
        Input::Quit => s,
        Input::Other => s,
    }
}

/// The state after the first `n` inputs, and whether a quit was among
/// them. Inputs after a quit are not looked at.
pub open spec fn polled(s: PlayState, inputs: Seq<Input>, n: int) -> (PlayState, bool)
    decreases n,
{
    if n <= 0 {
        (s, false)
    } else {
        let before = polled(s, inputs, n - 1);
        if before.1 || inputs[n - 1] == Input::Quit {
            (before.0, true)
        } else {
            (pressed(before.0, inputs[n - 1]), false)
        }
    }
}

/// A piece with this bottom extent stands on the floor: the block below it
/// would reach past the stage's bottom edge.
pub open spec fn touches_floor(bottom_y: int) -> bool {
    bottom_y + block() >= floor()
}

/// The state after the gravity of one frame, for a piece with the given
/// bottom extent: the counter goes up by one, and once it is past the
/// threshold a piece that is not on the floor drops by one block and the
/// counter starts again.
pub open spec fn fallen(s: PlayState, bottom_y: int) -> PlayState {
    if s.counter + 1 > FALL_FRAMES && !touches_floor(bottom_y) {
        PlayState { y: s.y + block(), counter: 0, ..s }
    } else {
        PlayState { counter: s.counter + 1, ..s }
    }
}

/// The state after a landing: the piece stays where it is as the newest of
/// the landed pieces, and the piece with index `next` appears at the top
/// left corner of the stage.
pub open spec fn landed(s: PlayState, cells: Seq<Seq<u8>>, next: int) -> PlayState {
    PlayState {
        settled: s.settled.push(Settled { cells, x: s.x, y: s.y }),
        x: STAGE_X as int,
        y: STAGE_Y as int,
        index: next,
        ..s
    }
}

/// The bottom extent of the active piece.
pub open spec fn active_bottom(s: PlayState, catalog: Seq<Seq<Seq<u8>>>) -> int {
    bottom_of(catalog[s.index], s.x, s.y, s.is_rotate)
}

/// The corners of the blocks of the first `n` landed pieces, oldest piece
/// first. A landed piece is shown as it is in the catalog, not turned.
pub open spec fn settled_blocks(settled: Seq<Settled>, n: int) -> Seq<(int, int)>
    decreases n,
{
    if n <= 0 {
        Seq::empty()
    } else {
        settled_blocks(settled, n - 1) + blocks_of(
            settled[n - 1].cells,
            settled[n - 1].x,
            settled[n - 1].y,
            false,
        )
    }
}

/// All blocks on the stage: those of the landed pieces, then those of the
/// active piece.
pub open spec fn scene(s: PlayState, catalog: Seq<Seq<Seq<u8>>>) -> Seq<(int, int)> {
    settled_blocks(s.settled, s.settled.len() as int) + blocks_of(
        catalog[s.index],
        s.x,
        s.y,
        s.is_rotate,
    )
}

/// The frame ends the game: a quit is among its inputs.
pub open spec fn quits(s: PlayState, inputs: Seq<Input>) -> bool {
    polled(s, inputs, inputs.len() as int).1
}

/// The state that a frame shows: the one after its inputs.
pub open spec fn shown(s: PlayState, inputs: Seq<Input>) -> PlayState {
    polled(s, inputs, inputs.len() as int).0
}

/// The frame ends with a landing: the game goes on, the rules are the
/// stacking ones, and the piece as shown stands on the floor.
pub open spec fn lands(s: PlayState, catalog: Seq<Seq<Seq<u8>>>, inputs: Seq<Input>) -> bool {
    &&& !quits(s, inputs)
    &&& shown(s, inputs).rules == Rules::Stacking
    &&& touches_floor(active_bottom(shown(s, inputs), catalog))
}

/// The state after the inputs and the gravity of a frame. A frame with a
/// quit ends after its inputs; any other frame applies gravity to the piece
/// as shown.
pub open spec fn before_landing(
    s: PlayState,
    catalog: Seq<Seq<Seq<u8>>>,
    inputs: Seq<Input>,
) -> PlayState {
    let p = shown(s, inputs);
    if quits(s, inputs) {
        p
    } else {
        fallen(p, active_bottom(p, catalog))
    }
}

/// The state after a frame with these inputs, where `next` is the index of
/// the piece that follows a landing: the inputs, gravity, and then the
/// landing if there is one.
pub open spec fn after_frame(
    s: PlayState,
    catalog: Seq<Seq<Seq<u8>>>,
    inputs: Seq<Input>,
    next: int,
) -> PlayState {
    let f = before_landing(s, catalog, inputs);
    if lands(s, catalog, inputs) {
        landed(f, catalog[f.index], next)
    } else {
        f
    }
}

/// Once a quit has been met, later inputs change nothing.
pub proof fn quit_ends_polling(s: PlayState, inputs: Seq<Input>, k: int, n: int)
    requires
        0 <= k <= n,
        polled(s, inputs, k).1,
    ensures
        polled(s, inputs, n) == polled(s, inputs, k),
    decreases n,
{
    if k < n {
        quit_ends_polling(s, inputs, k, n - 1);
    }
}

impl Play {
    /// The piece's index is one of the catalog, the count of turns is
    /// between 0 and 4, and every landed piece is a grid that can be laid
    /// out where it stands.
    pub open spec fn wf(&self) -> bool {
        &&& self.index < PIECES
        &&& 0 <= self.rotate_count <= 4
        &&& forall|k: int|
            0 <= k < self.stack_minos@.len() ==> {
                let m = #[trigger] self.stack_minos@[k];
                &&& is_grid(cells_of(&m.mino))
                &&& m.x + 3 * block() <= i32::MAX
                &&& m.y + 3 * block() <= i32::MAX
            }
    }

    /// The numbers of a frame stay inside `i32` when the frame brings the
    /// down key `downs` times: the counter can go up by one, the piece can
    /// be laid out at its position, and it can drop once more after the
    /// keys.
    pub open spec fn room(&self, downs: int) -> bool {
        &&& self.counter < i32::MAX
        &&& self.position_x + 3 * block() <= i32::MAX
        &&& self.position_y + (downs + 4) * block() <= i32::MAX
    }

    /// A new game whose first piece is the one that `raw` selects.
    pub fn new(rules: Rules, raw: usize) -> (play: Play)
        ensures
            play@ == start(rules, raw as int % PIECES as int),
            play.wf(),
            play.room(0),
    {
        let play = Play {
            rules,
            index: piece_index(raw),
            position_x: STAGE_X,
            position_y: STAGE_Y,
            counter: 0,
            rotate_count: 0,
            is_rotate: false,
            stack_minos: Vec::new(),
        };
        assert(play@.settled =~= Seq::empty());
        play
    }

    /// A new game whose first piece is chosen by chance.
    pub fn begin(rules: Rules) -> (play: Play)
        ensures
            play.index < PIECES,
            play@ == start(rules, play.index as int),
            play.wf(),
            play.room(0),
    {
        let play = Play {
            rules,
            index: random_index(),
            position_x: STAGE_X,
            position_y: STAGE_Y,
            counter: 0,
            rotate_count: 0,
            is_rotate: false,
            stack_minos: Vec::new(),
        };
        assert(play@.settled =~= Seq::empty());
        play
    }

    /// Applies one key.
    pub fn press(&mut self, input: Input)
        requires
            old(self).wf(),
            input == Input::Down && old(self).rules == Rules::Stacking ==> old(self).position_y
                + block() <= i32::MAX,
        ensures
            final(self)@ == pressed(old(self)@, input),
            final(self).wf(),
    {
        match input {
            Input::Right => {
                if self.position_x < STAGE_X + STAGE_WIDTH as i32 {
                    self.position_x = self.position_x + BLOCK_SIZE as i32;
                }
            },
            Input::Left => {
                if self.position_x > STAGE_X {
                    self.position_x = self.position_x - BLOCK_SIZE as i32;
                }
            },
            Input::Up => {
                match self.rules {
                    Rules::Stacking => {
                        self.rotate_count = self.rotate_count + 1;
                        if self.rotate_count > 4 {
                            self.rotate_count = 0;
                        }
                    },
                    Rules::Plain => {},
                }
                self.is_rotate = !self.is_rotate;
            },
            Input::Down => {
                match self.rules {
                    Rules::Stacking => {
                        self.position_y = self.position_y + BLOCK_SIZE as i32;
                    },
                    Rules::Plain => {},
                }
            },
            Input::Quit => {},
            Input::Other => {},
        }
    }

    /// Applies the inputs of one frame in their order, up to the first
    /// quit, and says whether there was one.
    pub fn poll(&mut self, inputs: &Vec<Input>) -> (quit: bool)
        requires
            old(self).wf(),
            shown(old(self)@, inputs@).y <= i32::MAX,
        ensures
            final(self)@ == shown(old(self)@, inputs@),
            quit == quits(old(self)@, inputs@),
            final(self).wf(),
            final(self).position_x <= old(self).position_x || final(self).position_x
                < right_edge() + block(),
            final(self).position_y <= old(self).position_y + inputs@.len() * block(),
            final(self).counter == old(self).counter,
    {
        let mut k: usize = 0;
        while k < inputs.len()
            invariant
                k <= inputs@.len(),
                self.wf(),
                (self@, false) == polled(old(self)@, inputs@, k as int),
                self.position_x <= old(self).position_x || self.position_x < right_edge() + block(),
                self.position_y <= old(self).position_y + k * block(),
                shown(old(self)@, inputs@).y <= i32::MAX,
                self.counter == old(self).counter,
            decreases inputs@.len() - k,
        {
            proof {
                keys_never_raise(old(self)@, inputs@, k + 1, inputs@.len() as int);
            }
            let input: Input = inputs[k];
            match input {
                Input::Quit => {
                    proof {
                        quit_ends_polling(old(self)@, inputs@, k + 1, inputs@.len() as int);
                    }
                    return true;
                },
                _ => {
                    self.press(input);
                },
            }
            k += 1;
        }
        false
    }

    /// Lays out the stage: the blocks of every landed piece and of the
    /// active piece, and the bottom extent of the active piece.
    pub fn draw(&self, game: &Game) -> (drawing: Drawing)
        requires
            game.wf(),
            self.wf(),
            self.position_x + 3 * block() <= i32::MAX,
            self.position_y + 3 * block() <= i32::MAX,
        ensures
            points(drawing.blocks@) == scene(self@, game@),
            drawing.bottom_y == active_bottom(self@, game@),
    {
        let mut blocks: Vec<(i32, i32)> = Vec::new();
        let mut k: usize = 0;
        assert(points(blocks@) =~= settled_blocks(self@.settled, 0));
        while k < self.stack_minos.len()
            invariant
                k <= self.stack_minos@.len(),
                self.wf(),
                points(blocks@) == settled_blocks(self@.settled, k as int),
            decreases self.stack_minos@.len() - k,
        {
            let stack_mino: &StackMino = &self.stack_minos[k];
            let mut piece: Drawing = draw_mino(&stack_mino.mino, stack_mino.x, stack_mino.y, false);
            let ghost before = blocks@;
            let ghost added = piece.blocks@;
            blocks.append(&mut piece.blocks);
            assert(points(blocks@) =~= points(before) + points(added));
            k += 1;
        }
        assert(is_grid(game@[self.index as int]));
        let mut active: Drawing = draw_mino(
            &game.tetriminoes[self.index],
            self.position_x,
            self.position_y,
            self.is_rotate,
        );
        let ghost before = blocks@;
        let ghost added = active.blocks@;
        blocks.append(&mut active.blocks);
        assert(points(blocks@) =~= points(before) + points(added));
        Drawing { blocks, bottom_y: active.bottom_y }
    }

    /// Whether a piece with this bottom extent stands on the floor.
    pub fn on_floor(bottom_y: i32) -> (on: bool)
        requires
            bottom_y + block() <= i32::MAX,
        ensures
            on == touches_floor(bottom_y as int),
    {
        bottom_y + BLOCK_SIZE as i32 >= STAGE_Y + STAGE_HEIGHT as i32
    }

    /// The gravity of one frame, for a piece with the given bottom extent.
    pub fn fall(&mut self, bottom_y: i32)
        requires
            old(self).counter < i32::MAX,
            old(self).counter >= FALL_FRAMES ==> bottom_y + block() <= i32::MAX,
            old(self).counter >= FALL_FRAMES && !touches_floor(bottom_y as int)
                ==> old(self).position_y + block() <= i32::MAX,
        ensures
            final(self)@ == fallen(old(self)@, bottom_y as int),
            final(self).wf() == old(self).wf(),
    {
        self.counter = self.counter + 1;
        if self.counter > FALL_FRAMES {
            if STAGE_Y + STAGE_HEIGHT as i32 > bottom_y + BLOCK_SIZE as i32 {
                self.position_y = self.position_y + BLOCK_SIZE as i32;
                self.counter = 0;
            }
        }
    }

    /// The landing: `mino`, the active piece, stays at its position as the
    /// newest landed piece, and the piece that `raw` selects appears at the
    /// top left corner of the stage.
    pub fn settle(&mut self, mino: Tetrimino, raw: usize)
        requires
            old(self).wf(),
            is_grid(cells_of(&mino)),
            old(self).position_x + 3 * block() <= i32::MAX,
            old(self).position_y + 3 * block() <= i32::MAX,
        ensures
            final(self)@ == landed(old(self)@, cells_of(&mino), raw as int % PIECES as int),
            final(self).wf(),
    {
        let stack_mino = StackMino { mino, x: self.position_x, y: self.position_y };
        self.stack_minos.push(stack_mino);
        self.position_x = STAGE_X;
        self.position_y = STAGE_Y;
        self.index = piece_index(raw);
        assert(self@.settled =~= old(self)@.settled.push(stack_mino@));
    }

    /// Whether the numbers of a frame that brings the down key `downs`
    /// times stay inside `i32`.
    pub fn has_room(&self, downs: usize) -> (ok: bool)
        ensures
            ok == self.room(downs as int),
    {
        let side: i128 = BLOCK_SIZE as i128;
        assert(side == block());
        self.counter < i32::MAX && self.position_x as i128 + 3 * side <= i32::MAX as i128
            && self.position_y as i128 + (downs as i128 + 4) * side <= i32::MAX as i128
    }

    /// A frame up to the landing: the inputs, the layout of the stage as
    /// it is after them, and gravity. Says what to draw, unless the frame
    /// ends the game, and whether the piece has landed.
    fn advance(&mut self, game: &Game, inputs: &Vec<Input>) -> (step: (Option<Drawing>, bool))
        requires
            game.wf(),
            old(self).wf(),
            old(self).room(inputs@.len() as int),
        ensures
            final(self).wf(),
            frame_shows(old(self)@, game@, inputs@, step.0),
            step.1 == lands(old(self)@, game@, inputs@),
            final(self)@ == before_landing(old(self)@, game@, inputs@),
            step.1 ==> final(self).position_x + 3 * block() <= i32::MAX,
            step.1 ==> final(self).position_y + 3 * block() <= i32::MAX,
    {
        proof {
            keys_drop_at_most(self@, inputs@, inputs@.len() as int);
        }
        let quit: bool = self.poll(inputs);
        if quit {
            return (None, false);
        }
        let drawing: Drawing = self.draw(game);
        proof {
            bottom_stays_near(
                game@[self.index as int],
                self.position_x as int,
                self.position_y as int,
                self.is_rotate,
            );
        }
        let bottom_y: i32 = drawing.bottom_y;
        self.fall(bottom_y);
        let landing: bool = match self.rules {
            Rules::Stacking => Play::on_floor(bottom_y),
            Rules::Plain => false,
        };
        (Some(drawing), landing)
    }

    /// One frame: the inputs up to the first quit; then, unless the game
    /// ends, the layout of the stage, gravity, and the landing if the piece
    /// stands on the floor. The piece that follows a landing is chosen by
    /// chance. Returns what to draw, or nothing when the game ends.
    pub fn frame(&mut self, game: &Game, inputs: &Vec<Input>) -> (drawn: Option<Drawing>)
        requires
            game.wf(),
            old(self).wf(),
            old(self).room(inputs@.len() as int),
        ensures
            final(self).wf(),
            frame_shows(old(self)@, game@, inputs@, drawn),
            final(self)@ == after_frame(old(self)@, game@, inputs@, final(self)@.index),
    {
        let (drawn, landing) = self.advance(game, inputs);
        if landing {
            let mino: Tetrimino = game.tetrimino(self.index);
            let raw: usize = random_usize();
            self.settle(mino, raw);
        }
        drawn
    }

    /// One frame in which the piece that follows a landing is the one that
    /// `raw` selects.
    pub fn frame_with(&mut self, game: &Game, inputs: &Vec<Input>, raw: usize) -> (drawn: Option<
        Drawing,
    >)
        requires
            game.wf(),
            old(self).wf(),
            old(self).room(inputs@.len() as int),
        ensures
            final(self).wf(),
            frame_shows(old(self)@, game@, inputs@, drawn),
            final(self)@ == after_frame(
                old(self)@,
                game@,
                inputs@,
                raw as int % PIECES as int,
            ),
    {
        let (drawn, landing) = self.advance(game, inputs);
        if landing {
            let mino: Tetrimino = game.tetrimino(self.index);
            self.settle(mino, raw);
        }
        drawn
    }
}

/// What a frame hands back to be drawn: nothing if it ends the game, else
/// the blocks on the stage as it is after the frame's inputs, with the
/// bottom extent of the active piece.
pub open spec fn frame_shows(
    s: PlayState,
    catalog: Seq<Seq<Seq<u8>>>,
    inputs: Seq<Input>,
    drawn: Option<Drawing>,
) -> bool {
    match drawn {
        None => quits(s, inputs),
        Some(drawing) => {
            &&& !quits(s, inputs)
            &&& points(drawing.blocks@) == scene(shown(s, inputs), catalog)
            &&& drawing.bottom_y == active_bottom(shown(s, inputs), catalog)
        },
    }
}

/// No key takes the piece up: after more inputs it is as low or lower.
pub proof fn keys_never_raise(s: PlayState, inputs: Seq<Input>, k: int, n: int)
    requires
        k <= n,
    ensures
        polled(s, inputs, k).0.y <= polled(s, inputs, n).0.y,
    decreases n,
{
    if k < n && n > 0 {
        keys_never_raise(s, inputs, k, n - 1);
    }
}

/// Each input takes the piece down by one block at most.
pub proof fn keys_drop_at_most(s: PlayState, inputs: Seq<Input>, n: int)
    requires
        0 <= n,
    ensures
        polled(s, inputs, n).0.y <= s.y + n * block(),
    decreases n,
{
    if n > 0 {
        keys_drop_at_most(s, inputs, n - 1);
    }
}

/// The keys leave alone the rules, the piece's index, the counter of
/// frames and the landed pieces.
pub proof fn keys_move_the_piece_only(s: PlayState, inputs: Seq<Input>, n: int)
    ensures
        polled(s, inputs, n).0.rules == s.rules,
        polled(s, inputs, n).0.index == s.index,
        polled(s, inputs, n).0.counter == s.counter,
        polled(s, inputs, n).0.settled == s.settled,
    decreases n,
{
    if n > 0 {
        keys_move_the_piece_only(s, inputs, n - 1);
    }
}

/// With the piece's position at or left of the stage's left edge, the left
/// key moves nothing; at or right of the stage's right edge, the right key
/// moves nothing.
pub proof fn keys_stop_at_the_edges(s: PlayState)
    ensures
        s.x <= STAGE_X ==> pressed(s, Input::Left) == s,
        s.x >= right_edge() ==> pressed(s, Input::Right) == s,
        s.x > STAGE_X ==> pressed(s, Input::Left).x == s.x - block(),
        s.x < right_edge() ==> pressed(s, Input::Right).x == s.x + block(),
{
}

/// Once the counter of frames has reached the threshold, gravity drops a
/// piece whose bottom extent is more than one block above the floor by
/// exactly one block, and the counter starts again at zero. Nothing else
/// changes.
pub proof fn gravity_drops_one_block(s: PlayState, bottom_y: int)
    requires
        s.counter >= FALL_FRAMES,
        bottom_y < floor() - block(),
    ensures
        fallen(s, bottom_y) == (PlayState { y: s.y + block(), counter: 0, ..s }),
{
}

/// Below the threshold, or on the floor, gravity only counts the frame.
pub proof fn gravity_waits(s: PlayState, bottom_y: int)
    requires
        s.counter < FALL_FRAMES || bottom_y >= floor() - block(),
    ensures
        fallen(s, bottom_y) == (PlayState { counter: s.counter + 1, ..s }),
{
}

/// A frame that ends with a landing adds the active piece, at the place
/// where the frame showed it, as the one new entry at the end of the landed
/// pieces, and puts the next piece at the top left corner of the stage. A
/// frame without a landing leaves the landed pieces as they were.
pub proof fn landing_settles_once(
    s: PlayState,
    catalog: Seq<Seq<Seq<u8>>>,
    inputs: Seq<Input>,
    next: int,
)
    ensures
        lands(s, catalog, inputs) ==> {
            let p = shown(s, inputs);
            let a = after_frame(s, catalog, inputs, next);
            &&& a.settled == s.settled.push(Settled { cells: catalog[s.index], x: p.x, y: p.y })
            &&& a.settled.len() == s.settled.len() + 1
            &&& a.x == STAGE_X
            &&& a.y == STAGE_Y
            &&& a.index == next
        },
        !lands(s, catalog, inputs) ==> after_frame(s, catalog, inputs, next).settled == s.settled,
{
    keys_move_the_piece_only(s, inputs, inputs.len() as int);
}

/// The state after `n` frames without any input, where `next` is the
/// index of the piece that follows a landing.
pub open spec fn idle_frames(
    s: PlayState,
    catalog: Seq<Seq<Seq<u8>>>,
    n: nat,
    next: int,
) -> PlayState
    decreases n,
{
    if n == 0 {
        s
    } else {
        after_frame(idle_frames(s, catalog, (n - 1) as nat, next), catalog, Seq::empty(), next)
    }
}

/// While a piece that is clear of the floor is left alone, with the
/// counter of frames at zero, each of the first sixty frames only counts.
pub proof fn idle_frames_count(
    s: PlayState,
    catalog: Seq<Seq<Seq<u8>>>,
    n: nat,
    next: int,
)
    requires
        s.counter == 0,
        !touches_floor(active_bottom(s, catalog)),
        n <= FALL_FRAMES,
    ensures
        idle_frames(s, catalog, n, next) == (PlayState { counter: n as int, ..s }),
    decreases n,
{
    if n > 0 {
        idle_frames_count(s, catalog, (n - 1) as nat, next);
    }
}

/// A piece that is clear of the floor and left alone, with the counter of
/// frames at zero, is one block lower after sixty-one frames, and the
/// counter is at zero again. Nothing else has changed.
pub proof fn idle_piece_drops_after_the_threshold(
    s: PlayState,
    catalog: Seq<Seq<Seq<u8>>>,
    next: int,
)
    requires
        s.counter == 0,
        !touches_floor(active_bottom(s, catalog)),
    ensures
        idle_frames(s, catalog, (FALL_FRAMES + 1) as nat, next) == (PlayState {
            y: s.y + block(),
            counter: 0,
            ..s
        }),
{
    idle_frames_count(s, catalog, FALL_FRAMES as nat, next);
}

/// A new game left alone shows its first piece one block below the top of
/// the stage after sixty-one frames, whatever the piece.
pub proof fn first_drop_of_a_new_game(
    rules: Rules,
    index: int,
    catalog: Seq<Seq<Seq<u8>>>,
    next: int,
)
    ensures
        idle_frames(start(rules, index), catalog, (FALL_FRAMES + 1) as nat, next) == (PlayState {
            y: STAGE_Y + block(),
            ..start(rules, index)
        }),
{
    new_piece_is_clear(catalog[index], false);
    idle_piece_drops_after_the_threshold(start(rules, index), catalog, next);
}

/// Under the stacking rules a frame that does not end the game leaves the
/// active piece above the floor, however far the down key took it: either
/// it was clear of the floor, or it has landed and the next piece stands
/// at the top of the stage.
pub proof fn stacking_frame_ends_above_the_floor(
    s: PlayState,
    catalog: Seq<Seq<Seq<u8>>>,
    inputs: Seq<Input>,
    next: int,
)
    requires
        s.rules == Rules::Stacking,
        is_shape(catalog[s.index]),
        !quits(s, inputs),
    ensures
        after_frame(s, catalog, inputs, next).y < floor(),
{
    keys_move_the_piece_only(s, inputs, inputs.len() as int);
    let p = shown(s, inputs);
    bottom_is_below_position(catalog[p.index], p.x, p.y, p.is_rotate);
}

/// Under the plain rules a piece that is above the floor stays above it.
pub proof fn plain_frame_stays_above_the_floor(
    s: PlayState,
    catalog: Seq<Seq<Seq<u8>>>,
    inputs: Seq<Input>,
    next: int,
)
    requires
        s.rules == Rules::Plain,
        is_shape(catalog[s.index]),
        s.y < floor(),
    ensures
        after_frame(s, catalog, inputs, next).y < floor(),
        after_frame(s, catalog, inputs, next).settled == s.settled,
        after_frame(s, catalog, inputs, next).index == s.index,
{
    keys_move_the_piece_only(s, inputs, inputs.len() as int);
    plain_keys_keep_the_height(s, inputs, inputs.len() as int);
    let p = shown(s, inputs);
    bottom_is_below_position(catalog[p.index], p.x, p.y, p.is_rotate);
}

/// Under the plain rules no key changes the piece's height.
pub proof fn plain_keys_keep_the_height(s: PlayState, inputs: Seq<Input>, n: int)
    requires
        s.rules == Rules::Plain,
    ensures
        polled(s, inputs, n).0.y == s.y,
        polled(s, inputs, n).0.rotate_count == s.rotate_count,
    decreases n,
{
    if n > 0 {
        plain_keys_keep_the_height(s, inputs, n - 1);
        keys_move_the_piece_only(s, inputs, n - 1);
    }
}

/// A piece at the top left corner of the stage is clear of the floor,
/// whatever its cells and turned or not: the piece that follows a landing
/// does not land again by standing there.
pub proof fn new_piece_is_clear(cells: Seq<Seq<u8>>, is_rotate: bool)
    ensures
        !touches_floor(bottom_of(cells, STAGE_X as int, STAGE_Y as int, is_rotate)),
{
    bottom_stays_near(cells, STAGE_X as int, STAGE_Y as int, is_rotate);
}

} // verus!
