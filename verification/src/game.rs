use crate::block::Block;
use crate::player::initial_player_1;
use crate::player::initial_player_2;
use crate::player::Direction;
use crate::player::Player;
use crate::player::PlayerView;
use vstd::prelude::*;

verus! {

/// The move threshold: how much accumulated time, in milliseconds, a
/// player must wait before it advances by one block.
pub const PLAYER_SPEED: i64 = 100;

/// Which of the two players is meant, in intents and in the winner field.
#[derive(Eq, PartialEq, Copy, Clone, Debug, Structural)]
pub enum PlayerId {
    One,
    Two,
}

/// True iff `cell` lies on the wall ring of a `width` by `height` board:
/// the outermost row or column on any side.
pub open spec fn is_wall_collision(width: int, height: int, cell: (int, int)) -> bool {
    cell.0 == 0 || cell.0 >= width - 1 || cell.1 == 0 || cell.1 >= height - 1
}

/// True iff `cell` lies in the playable interior of the board, off the
/// wall ring.
pub open spec fn in_play_area(width: int, height: int, cell: (int, int)) -> bool {
    1 <= cell.0 <= width - 2 && 1 <= cell.1 <= height - 2
}

/// True iff a move of `mover` onto `candidate` would collide: with the
/// wall ring, with `mover`'s own trail, or with `other`'s trail. For a
/// forward move the candidate is the mover's next head position, so the
/// own-trail test is exactly the self-collision test. Everything is
/// evaluated against the trails as given, before any mutation.
pub open spec fn would_collide(
    width: int,
    height: int,
    mover: PlayerView,
    other: PlayerView,
    candidate: (int, int),
) -> bool {
    is_wall_collision(width, height, candidate) || mover.occupies(candidate) || other.occupies(
        candidate,
    )
}

/// True iff every cell of the player's trail lies in the playable
/// interior of the board.
pub open spec fn trail_in_play(width: int, height: int, p: PlayerView) -> bool {
    forall|i: int| 0 <= i < p.trail.len() ==> in_play_area(width, height, #[trigger] p.trail[i])
}

/// True iff a `width` by `height` board is large enough for a game: both
/// players' fixed initial trails lie in the playable interior, and the
/// two trails do not overlap.
pub open spec fn board_ok(width: int, height: int) -> bool {
    let one = initial_player_1();
    let two = initial_player_2(width, height);
    &&& trail_in_play(width, height, one)
    &&& trail_in_play(width, height, two)
    &&& forall|i: int, j: int|
        0 <= i < one.trail.len() && 0 <= j < two.trail.len() ==> #[trigger] one.trail[i]
            != #[trigger] two.trail[j]
}

/// The player state after one committed move: the trail grows headward by
/// one cell, a queued direction is promoted, and the move threshold is
/// subtracted from (not zeroed out of) the accumulated wait time.
pub open spec fn committed(p: PlayerView) -> PlayerView {
    p.after_move_forward().after_queue_advance().after_wait(-(PLAYER_SPEED as int))
}

/// The mathematical state of a [`Game`]: the board dimensions, both
/// players, the terminal state, and whether the collision-avoidance
/// heuristic steers player one.
#[verifier::ext_equal]
pub ghost struct GameView {
    pub width: int,
    pub height: int,
    pub player_one: PlayerView,
    pub player_two: PlayerView,
    pub winner: Option<PlayerId>,
    pub is_game_over: bool,
    pub ai_enabled: bool,
}

impl GameView {
    /// Game invariant: the board was validated at construction, both
    /// players' trails lie wholly in the playable interior, and the game
    /// is over exactly when a winner is recorded.
    pub open spec fn wf(self) -> bool {
        &&& 6 <= self.width <= u32::MAX
        &&& 6 <= self.height <= u32::MAX
        &&& board_ok(self.width, self.height)
        &&& self.player_one.wf()
        &&& self.player_two.wf()
        &&& trail_in_play(self.width, self.height, self.player_one)
        &&& trail_in_play(self.width, self.height, self.player_two)
        &&& (self.is_game_over <==> self.winner is Some)
    }

    /// A fresh game on a `width` by `height` board: both players in their
    /// initial states, no winner, not over, heuristic off.
    pub open spec fn initial(width: int, height: int) -> GameView {
        GameView {
            width,
            height,
            player_one: initial_player_1(),
            player_two: initial_player_2(width, height),
            winner: None,
            is_game_over: false,
            ai_enabled: false,
        }
    }

    /// The game after a restart: both players return to their initial
    /// states and the terminal state and the heuristic toggle are
    /// cleared; the board keeps its dimensions.
    pub open spec fn restarted(self) -> GameView {
        GameView::initial(self.width, self.height)
    }

    /// Both players after `time` more milliseconds have elapsed.
    pub open spec fn after_waits(self, time: int) -> GameView {
        GameView {
            player_one: self.player_one.after_wait(time),
            player_two: self.player_two.after_wait(time),
            ..self
        }
    }

    /// True iff player one's forward move would collide, evaluated
    /// against the current trails of both players.
    pub open spec fn player_one_blocked(self) -> bool {
        would_collide(
            self.width,
            self.height,
            self.player_one,
            self.player_two,
            self.player_one.next_head(),
        )
    }

    /// True iff player two's forward move would collide, evaluated
    /// against the current trails of both players.
    pub open spec fn player_two_blocked(self) -> bool {
        would_collide(
            self.width,
            self.height,
            self.player_two,
            self.player_one,
            self.player_two.next_head(),
        )
    }

    /// Player one after the collision-avoidance heuristic has tried to
    /// turn it away from an imminent collision: a clockwise quarter turn
    /// if the cell it leads to is free, else a counterclockwise one if
    /// that cell is free, else no request at all. A turn that helps is
    /// requested through the ordinary direction-change discipline, so it
    /// may still end up queued rather than applied.
    pub open spec fn ai_adjusted_player_one(self) -> PlayerView {
        let p = self.player_one;
        if !would_collide(self.width, self.height, p, self.player_two, p.clockwise_pos()) {
            p.after_turn(false)
        } else if !would_collide(
            self.width,
            self.height,
            p,
            self.player_two,
            p.counter_clockwise_pos(),
        ) {
            p.after_turn(true)
        } else {
            p
        }
    }

    /// The game after player one's evaluation within a tick. Nothing
    /// happens unless the game is still running and player one's
    /// accumulator has reached the move threshold. A safe forward move
    /// commits. A blocked one ends the game with player two as winner —
    /// unless the heuristic is enabled, in which case it first tries a
    /// turn and the (possibly turned) player is re-evaluated.
    pub open spec fn player_one_step(self) -> GameView {
        if self.is_game_over || self.player_one.time_waited < PLAYER_SPEED {
            self
        } else if !self.player_one_blocked() {
            GameView { player_one: committed(self.player_one), ..self }
        } else if self.ai_enabled {
            let adjusted = self.ai_adjusted_player_one();
            if would_collide(
                self.width,
                self.height,
                adjusted,
                self.player_two,
                adjusted.next_head(),
            ) {
                GameView {
                    player_one: adjusted,
                    winner: Some(PlayerId::Two),
                    is_game_over: true,
                    ..self
                }
            } else {
                GameView { player_one: committed(adjusted), ..self }
            }
        } else {
            GameView { winner: Some(PlayerId::Two), is_game_over: true, ..self }
        }
    }

    /// The game after player two's evaluation within a tick: as for
    /// player one, but with no heuristic, and against player one's trail
    /// as it stands after player one's own evaluation — the second player
    /// evaluated in a tick sees the first one's committed move.
    pub open spec fn player_two_step(self) -> GameView {
        if self.is_game_over || self.player_two.time_waited < PLAYER_SPEED {
            self
        } else if !self.player_two_blocked() {
            GameView { player_two: committed(self.player_two), ..self }
        } else {
            GameView { winner: Some(PlayerId::One), is_game_over: true, ..self }
        }
    }

    /// One tick of the simulation: both accumulators grow by the elapsed
    /// time, then player one is evaluated, then player two. Each
    /// evaluation is gated on the game still running, so a tick that ends
    /// the game for one player moves the other no further.
    pub open spec fn after_update(self, time: int) -> GameView {
        self.after_waits(time).player_one_step().player_two_step()
    }

    /// The game after a direction intent for `player`: routed to that
    /// player's direction-change request, except that player one ignores
    /// intents while the heuristic steers it.
    pub open spec fn after_direction_intent(self, player: PlayerId, dir: Direction) -> GameView {
        match player {
            PlayerId::One => {
                if self.ai_enabled {
                    self
                } else {
                    GameView {
                        player_one: self.player_one.with_direction_request(Some(dir)),
                        ..self
                    }
                }
            },
            PlayerId::Two => GameView {
                player_two: self.player_two.with_direction_request(Some(dir)),
                ..self
            },
        }
    }
}

/// Checks whether a `width` by `height` board is large enough for a game:
/// both players' fixed initial trails must lie in the playable interior
/// without overlapping each other. Undersized boards are a configuration
/// error; a driver validates its dimensions here before constructing a
/// [`Game`].
pub fn board_supports_players(width: u32, height: u32) -> (r: bool)
    ensures
        r == board_ok(width as int, height as int),
{
    let r = width >= 6 && height >= 6 && (width >= 9 || height >= 9);
    proof {
        let w = width as int;
        let h = height as int;
        let one = initial_player_1();
        let two = initial_player_2(w, h);
        if r {
            assert forall|i: int, j: int|
                0 <= i < one.trail.len() && 0 <= j < two.trail.len() implies #[trigger] one
                .trail[i] != #[trigger] two.trail[j] by {
                assert(one.trail[i].1 == 3);
                assert(one.trail[i].0 <= 4);
                assert(two.trail[j].0 == w - 4);
                assert(two.trail[j].1 >= h - 5);
            }
            assert(board_ok(w, h));
        }
        if board_ok(w, h) {
            assert(in_play_area(w, h, one.trail[0]));
            assert(in_play_area(w, h, two.trail[0]));
            assert(w >= 6 && h >= 6);
            if w <= 8 && h <= 8 {
                let i = 4 - (w - 4);
                let j = 3 - (h - 5);
                assert(one.trail[i] == two.trail[j]);
                assert(false);
            }
        }
    }
    r
}

/// Checks whether `block` lies on the wall ring of a `width` by `height`
/// board.
pub fn check_wall_collision(width: u32, height: u32, block: Block) -> (r: bool)
    requires
        width >= 1,
        height >= 1,
    ensures
        r == is_wall_collision(width as int, height as int, block@),
{
    block.x == 0 || block.x >= width - 1 || block.y == 0 || block.y >= height - 1
}

/// Checks whether a move of `mover` onto `candidate` would collide with
/// the wall ring, with `mover`'s own trail, or with `other`'s trail,
/// without mutating anything.
pub fn check_would_collide(
    width: u32,
    height: u32,
    mover: &Player,
    other: &Player,
    candidate: Block,
) -> (r: bool)
    requires
        width >= 1,
        height >= 1,
    ensures
        r == would_collide(width as int, height as int, mover@, other@, candidate@),
{
    check_wall_collision(width, height, candidate) || mover.trail_covers_location(candidate)
        || other.trail_covers_location(candidate)
}

/// Every cell adjacent to the head of a player whose trail lies in the
/// playable interior has coordinates that fit in the coordinate type.
proof fn lemma_adjacent_positions_in_range(width: int, height: int, p: PlayerView)
    requires
        p.wf(),
        trail_in_play(width, height, p),
        width <= u32::MAX,
        height <= u32::MAX,
    ensures
        0 <= p.next_head().0 <= u32::MAX,
        0 <= p.next_head().1 <= u32::MAX,
        0 <= p.clockwise_pos().0 <= u32::MAX,
        0 <= p.clockwise_pos().1 <= u32::MAX,
        0 <= p.counter_clockwise_pos().0 <= u32::MAX,
        0 <= p.counter_clockwise_pos().1 <= u32::MAX,
{
    assert(in_play_area(width, height, p.trail[0]));
}

/// A committed move keeps the mover's trail in the playable interior: the
/// move was only committed because its target cell is off the wall ring,
/// and every older cell was in the interior already.
proof fn lemma_commit_keeps_trail_in_play(width: int, height: int, p: PlayerView)
    requires
        p.wf(),
        trail_in_play(width, height, p),
        !is_wall_collision(width, height, p.next_head()),
    ensures
        committed(p).wf(),
        trail_in_play(width, height, committed(p)),
{
    let c = p.next_head();
    assert(in_play_area(width, height, p.trail[0]));
    assert(in_play_area(width, height, c));
    let q = committed(p);
    assert forall|i: int| 0 <= i < q.trail.len() implies in_play_area(
        width,
        height,
        #[trigger] q.trail[i],
    ) by {
        if i == 0 {
            assert(q.trail[0] == c);
        } else {
            assert(q.trail[i] == p.trail[i - 1]);
            assert(in_play_area(width, height, p.trail[i - 1]));
        }
    }
}

/// On every board large enough for a game, a fresh game places the two
/// heads at their fixed offsets from their nearest walls — player one four
/// blocks from the left wall and three from the top, player two three
/// blocks from the right wall and four from the bottom — and neither
/// player's initial trail touches the wall ring or the other trail.
pub proof fn lemma_new_places_players_apart(width: int, height: int)
    requires
        board_ok(width, height),
    ensures
        GameView::initial(width, height).player_one.head() == (4int, 3int),
        GameView::initial(width, height).player_two.head() == (width - 4, height - 5),
        // Player one's head sits 4 blocks from the left wall and 3 from
        // the top one; player two's sits 3 from the right wall and 4 from
        // the bottom one — offsets independent of the board size.
        GameView::initial(width, height).player_one.head().0 - 0 == 4,
        GameView::initial(width, height).player_one.head().1 - 0 == 3,
        (width - 1) - GameView::initial(width, height).player_two.head().0 == 3,
        (height - 1) - GameView::initial(width, height).player_two.head().1 == 4,
        trail_in_play(width, height, GameView::initial(width, height).player_one),
        trail_in_play(width, height, GameView::initial(width, height).player_two),
        forall|i: int, j: int|
            0 <= i < GameView::initial(width, height).player_one.trail.len() && 0 <= j
                < GameView::initial(width, height).player_two.trail.len()
                ==> #[trigger] GameView::initial(width, height).player_one.trail[i]
                != #[trigger] GameView::initial(width, height).player_two.trail[j],
{
}

/// A committed move subtracts exactly the move threshold from the wait
/// accumulator — it is not reset to zero, so any overshoot carries over to
/// the next tick.
pub proof fn lemma_commit_carries_overshoot(p: PlayerView)
    ensures
        committed(p).time_waited == p.time_waited - PLAYER_SPEED,
{
}

/// Over a whole tick: when the game is running, player one's accumulator
/// reaches the threshold, and its forward move is safe, the tick leaves
/// player one's accumulator at exactly its old value, plus the elapsed
/// time, minus the move threshold.
pub proof fn lemma_update_commit_time(g: GameView, time: int)
    requires
        !g.is_game_over,
        g.player_one.time_waited + time >= PLAYER_SPEED,
        !g.after_waits(time).player_one_blocked(),
    ensures
        g.after_update(time).player_one.time_waited == g.player_one.time_waited + time
            - PLAYER_SPEED,
{
}

/// A committed move grows the trail by exactly one cell: the new head is
/// the cell the player was moving onto, and every previously occupied
/// cell is still occupied, one index later. The trail never shrinks.
pub proof fn lemma_commit_grows_trail_by_one(p: PlayerView)
    ensures
        committed(p).trail.len() == p.trail.len() + 1,
        committed(p).trail[0] == p.next_head(),
        forall|i: int| 0 <= i < p.trail.len() ==> committed(p).trail[i + 1] == #[trigger] p.trail[i],
{
}

/// Once the game is over, ticks still accumulate time but move nothing:
/// only a restart changes anything else about the state.
pub proof fn lemma_game_over_freezes_play(g: GameView, time: int)
    requires
        g.is_game_over,
    ensures
        g.after_update(time) == g.after_waits(time),
        g.after_update(time).player_one.trail == g.player_one.trail,
        g.after_update(time).player_two.trail == g.player_two.trail,
        g.after_update(time).winner == g.winner,
{
}

/// Restarting is idempotent: a second restart, before anything else has
/// happened, reproduces exactly the same fresh starting state.
pub proof fn lemma_restart_idempotent(g: GameView)
    ensures
        g.restarted().restarted() == g.restarted(),
{
}

/// The whole game: the board dimensions in blocks, both players, the
/// terminal state (winner and game-over flag), and the toggle for the
/// collision-avoidance heuristic that can steer player one.
pub struct Game {
    width: u32,
    height: u32,
    player_one: Player,
    player_two: Player,
    winner: Option<PlayerId>,
    is_game_over: bool,
    ai_enabled: bool,
}

impl View for Game {
    type V = GameView;

    closed spec fn view(&self) -> GameView {
        GameView {
            width: self.width as int,
            height: self.height as int,
            player_one: self.player_one@,
            player_two: self.player_two@,
            winner: self.winner,
            is_game_over: self.is_game_over,
            ai_enabled: self.ai_enabled,
        }
    }
}

impl Game {
    /// Creates a new game on a `width` by `height` board, with both
    /// players in their fixed initial positions. The board must be large
    /// enough to hold both initial trails without overlap; see
    /// [`board_supports_players`].
    pub fn new(width: u32, height: u32) -> (g: Game)
        requires
            board_ok(width as int, height as int),
        ensures
            g@ == GameView::initial(width as int, height as int),
            g@.wf(),
    {
        proof {
            let w = width as int;
            let h = height as int;
            assert(in_play_area(w, h, initial_player_1().trail[0]));
            assert(in_play_area(w, h, initial_player_2(w, h).trail[0]));
        }
        Game {
            width,
            height,
            player_one: Player::player_1(),
            player_two: Player::player_2(width, height),
            winner: None,
            is_game_over: false,
            ai_enabled: false,
        }
    }

    /// The board width, in blocks.
    pub fn get_width(&self) -> (w: u32)
        ensures
            w == self@.width,
    {
        self.width
    }

    /// The board height, in blocks.
    pub fn get_height(&self) -> (h: u32)
        ensures
            h == self@.height,
    {
        self.height
    }

    /// True once a player has collided and the game has ended; only
    /// [`Game::restart`] (through [`Game::confirm`]) leaves this state.
    pub fn is_over(&self) -> (r: bool)
        ensures
            r == self@.is_game_over,
    {
        self.is_game_over
    }

    /// The winner, if the game is over; `None` while it is running.
    pub fn winner(&self) -> (w: Option<PlayerId>)
        ensures
            w == self@.winner,
    {
        self.winner
    }

    /// True while the collision-avoidance heuristic steers player one.
    pub fn ai_enabled(&self) -> (r: bool)
        ensures
            r == self@.ai_enabled,
    {
        self.ai_enabled
    }

    /// Read access to player one, for rendering and inspection.
    pub fn get_player_one(&self) -> (p: &Player)
        ensures
            p@ == self@.player_one,
    {
        &self.player_one
    }

    /// Read access to player two, for rendering and inspection.
    pub fn get_player_two(&self) -> (p: &Player)
        ensures
            p@ == self@.player_two,
    {
        &self.player_two
    }

    /// Checks whether `block` is out of the bounds of the game board,
    /// that is, on the wall ring.
    pub fn is_out_of_bounds(&self, block: Block) -> (r: bool)
        requires
            self@.width >= 1,
            self@.height >= 1,
        ensures
            r == is_wall_collision(self@.width, self@.height, block@),
    {
        check_wall_collision(self.width, self.height, block)
    }

    /// Flips the collision-avoidance heuristic for player one; player two
    /// is never affected.
    pub fn toggle_ai(&mut self)
        ensures
            final(self)@ == (GameView { ai_enabled: !old(self)@.ai_enabled, ..old(self)@ }),
    {
        self.ai_enabled = !self.ai_enabled;
    }

    /// Resets the game to a brand new one on the same board: fresh
    /// players, no winner, not over, heuristic off.
    pub fn restart(&mut self)
        requires
            old(self)@.wf(),
        ensures
            final(self)@ == old(self)@.restarted(),
            final(self)@.wf(),
    {
        proof {
            let w = self@.width;
            let h = self@.height;
            assert(in_play_area(w, h, initial_player_1().trail[0]));
            assert(in_play_area(w, h, initial_player_2(w, h).trail[0]));
        }
        self.player_one = Player::player_1();
        self.player_two = Player::player_2(self.width, self.height);
        self.winner = None;
        self.is_game_over = false;
        self.ai_enabled = false;
    }

    /// The "start over" intent: restarts the game iff it is over, and is
    /// a defined no-op while it is running.
    pub fn confirm(&mut self)
        requires
            old(self)@.wf(),
        ensures
            final(self)@ == if old(self)@.is_game_over {
                old(self)@.restarted()
            } else {
                old(self)@
            },
            final(self)@.wf(),
    {
        if self.is_game_over {
            self.restart();
        }
    }

    /// One tick of the simulation, fed `time_elapsed` more milliseconds by
    /// the driver. Both players accumulate the elapsed time; then each
    /// player in turn, player one first, is advanced by one block if its
    /// accumulator has reached the move threshold and the game is still
    /// running — but only after checking that the move is safe. An unsafe
    /// move ends the game with the other player as winner, except that
    /// player one, while the heuristic is enabled, first tries a quarter
    /// turn away from the collision. Committing a move subtracts the move
    /// threshold from the accumulator, preserving any overshoot.
    pub fn update(&mut self, time_elapsed: i64)
        requires
            old(self)@.wf(),
            time_elapsed >= 0,
            old(self)@.player_one.time_waited + time_elapsed <= i64::MAX,
            old(self)@.player_two.time_waited + time_elapsed <= i64::MAX,
        ensures
            final(self)@ == old(self)@.after_update(time_elapsed as int),
            final(self)@.wf(),
    {
        proof {
            self.player_one.lemma_time_waited_in_range();
            self.player_two.lemma_time_waited_in_range();
        }
        self.player_one.wait_time(time_elapsed);
        self.player_two.wait_time(time_elapsed);
        let ghost g = self@;
        proof {
            assert(g == old(self)@.after_waits(time_elapsed as int));
        }

        if !self.is_game_over && self.player_one.time_waited() >= PLAYER_SPEED {
            proof {
                lemma_adjacent_positions_in_range(g.width, g.height, g.player_one);
            }
            let next = self.player_one.next_head_position();
            if !check_would_collide(
                self.width,
                self.height,
                &self.player_one,
                &self.player_two,
                next,
            ) {
                self.player_one.move_forward();
                self.player_one.advance_direction_queue();
                self.player_one.wait_time(-PLAYER_SPEED);
                proof {
                    lemma_commit_keeps_trail_in_play(g.width, g.height, g.player_one);
                }
            } else if self.ai_enabled {
                let cw = self.player_one.position_on_turn();
                if !check_would_collide(
                    self.width,
                    self.height,
                    &self.player_one,
                    &self.player_two,
                    cw,
                ) {
                    self.player_one.turn(false);
                } else {
                    let ccw = self.player_one.position_on_cc();
                    if !check_would_collide(
                        self.width,
                        self.height,
                        &self.player_one,
                        &self.player_two,
                        ccw,
                    ) {
                        self.player_one.turn(true);
                    }
                }
                proof {
                    assert(self@.player_one == g.ai_adjusted_player_one());
                    assert(self@.player_one.trail == g.player_one.trail);
                    lemma_adjacent_positions_in_range(g.width, g.height, self@.player_one);
                }
                let next_after_turn = self.player_one.next_head_position();
                if !check_would_collide(
                    self.width,
                    self.height,
                    &self.player_one,
                    &self.player_two,
                    next_after_turn,
                ) {
                    proof {
                        lemma_commit_keeps_trail_in_play(g.width, g.height, self@.player_one);
                    }
                    self.player_one.move_forward();
                    self.player_one.advance_direction_queue();
                    self.player_one.wait_time(-PLAYER_SPEED);
                } else {
                    self.is_game_over = true;
                    self.winner = Some(PlayerId::Two);
                }
            } else {
                self.is_game_over = true;
                self.winner = Some(PlayerId::Two);
            }
        }
        let ghost g1 = self@;
        proof {
            assert(g1 == g.player_one_step());
        }

        if !self.is_game_over && self.player_two.time_waited() >= PLAYER_SPEED {
            proof {
                lemma_adjacent_positions_in_range(g1.width, g1.height, g1.player_two);
            }
            let next = self.player_two.next_head_position();
            if !check_would_collide(
                self.width,
                self.height,
                &self.player_two,
                &self.player_one,
                next,
            ) {
                self.player_two.move_forward();
                self.player_two.advance_direction_queue();
                self.player_two.wait_time(-PLAYER_SPEED);
                proof {
                    lemma_commit_keeps_trail_in_play(g1.width, g1.height, g1.player_two);
                }
            } else {
                self.is_game_over = true;
                self.winner = Some(PlayerId::One);
            }
        }
        proof {
            assert(self@ == g1.player_two_step());
        }
    }

    /// Routes a direction intent to the named player's direction-change
    /// request; intents for player one are ignored while the heuristic
    /// steers it.
    pub fn handle_direction_intent(&mut self, player: PlayerId, dir: Direction)
        requires
            old(self)@.wf(),
        ensures
            final(self)@ == old(self)@.after_direction_intent(player, dir),
            final(self)@.wf(),
    {
        match player {
            PlayerId::One => {
                if !self.ai_enabled {
                    self.player_one.update_direction(Some(dir));
                }
            },
            PlayerId::Two => {
                self.player_two.update_direction(Some(dir));
            },
        }
    }
}

} // verus!
