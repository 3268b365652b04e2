use crate::block::Block;
use crate::game::PLAYER_SPEED;
use vstd::prelude::*;

verus! {

/// One of the four directions a player can move in on the grid.
#[derive(Eq, PartialEq, Copy, Clone, Debug, Structural)]
pub enum Direction {
    Up,
    Down,
    Left,
    Right,
}

impl Direction {
    /// The direction opposite this one: the pairs are (Up, Down) and
    /// (Left, Right).
    pub open spec fn opposite_spec(self) -> Direction {
        match self {
            Direction::Up => Direction::Down,
            Direction::Down => Direction::Up,
            Direction::Left => Direction::Right,
            Direction::Right => Direction::Left,
        }
    }

    /// Returns the direction opposite the current one.
    #[verifier::when_used_as_spec(opposite_spec)]
    pub fn opposite_direction(self) -> (r: Direction)
        ensures
            r == self.opposite_spec(),
    {
        match self {
            Direction::Up => Direction::Down,
            Direction::Down => Direction::Up,
            Direction::Left => Direction::Right,
            Direction::Right => Direction::Left,
        }
    }

    /// The direction reached by a clockwise quarter turn.
    pub open spec fn clockwise_spec(self) -> Direction {
        match self {
            Direction::Right => Direction::Down,
            Direction::Down => Direction::Left,
            Direction::Left => Direction::Up,
            Direction::Up => Direction::Right,
        }
    }

    /// The direction reached by a counterclockwise quarter turn.
    pub open spec fn counter_clockwise_spec(self) -> Direction {
        match self {
            Direction::Right => Direction::Up,
            Direction::Up => Direction::Left,
            Direction::Left => Direction::Down,
            Direction::Down => Direction::Right,
        }
    }
}

/// Taking the opposite direction twice returns to the start, and no
/// direction is its own opposite.
pub proof fn lemma_opposite_involution(d: Direction)
    ensures
        d.opposite_spec().opposite_spec() == d,
        d != d.opposite_spec(),
{
}

/// The clockwise and counterclockwise quarter turns are inverses of each
/// other, and each turn is perpendicular to the starting direction.
pub proof fn lemma_quarter_turns_are_inverses(d: Direction)
    ensures
        d.clockwise_spec().counter_clockwise_spec() == d,
        d.counter_clockwise_spec().clockwise_spec() == d,
        d.clockwise_spec() != d,
        d.clockwise_spec() != d.opposite_spec(),
        d.counter_clockwise_spec() != d,
        d.counter_clockwise_spec() != d.opposite_spec(),
{
}

/// The cell reached by one step from `cell` in direction `d`.
pub open spec fn step_from(cell: (int, int), d: Direction) -> (int, int) {
    match d {
        Direction::Up => (cell.0, cell.1 - 1),
        Direction::Down => (cell.0, cell.1 + 1),
        Direction::Left => (cell.0 - 1, cell.1),
        Direction::Right => (cell.0 + 1, cell.1),
    }
}

/// The mathematical state of a [`Player`]: its direction of travel, the
/// queueing state for direction changes, the trail of occupied cells
/// (index 0 is the head, the most recently occupied cell), and the time,
/// in milliseconds, accumulated since its last committed move.
#[verifier::ext_equal]
pub ghost struct PlayerView {
    pub moving_direction: Direction,
    pub has_moved_in_direction: bool,
    pub backup_direction: Option<Direction>,
    pub trail: Seq<(int, int)>,
    pub time_waited: int,
}

impl PlayerView {
    /// A player always occupies at least one cell.
    pub open spec fn wf(self) -> bool {
        self.trail.len() >= 1
    }

    /// The head of the trail: the cell occupied most recently.
    pub open spec fn head(self) -> (int, int) {
        self.trail[0]
    }

    /// The cell the head would occupy after one forward step in the
    /// current moving direction.
    pub open spec fn next_head(self) -> (int, int) {
        step_from(self.head(), self.moving_direction)
    }

    /// The cell the head would occupy after a clockwise quarter turn
    /// followed by one forward step.
    pub open spec fn clockwise_pos(self) -> (int, int) {
        step_from(self.head(), self.moving_direction.clockwise_spec())
    }

    /// The cell the head would occupy after a counterclockwise quarter
    /// turn followed by one forward step.
    pub open spec fn counter_clockwise_pos(self) -> (int, int) {
        step_from(self.head(), self.moving_direction.counter_clockwise_spec())
    }

    /// True iff `cell` is anywhere in the trail, head or body.
    pub open spec fn occupies(self, cell: (int, int)) -> bool {
        self.trail.contains(cell)
    }

    /// True iff moving forward would run into the player's own trail.
    pub open spec fn would_self_collide(self) -> bool {
        self.occupies(self.next_head())
    }

    /// The player after a direction-change request. The request is a
    /// defined no-op when it is absent, repeats the current direction, or
    /// reverses it (an instant reversal would be an unavoidable self
    /// collision). An accepted request applies immediately if the player
    /// has moved since its direction last changed; otherwise it is queued
    /// in the backup slot, and only if that slot is free: the first
    /// queued request wins.
    pub open spec fn with_direction_request(self, dir: Option<Direction>) -> PlayerView {
        match dir {
            Option::None => self,
            Option::Some(d) => {
                if d == self.moving_direction || d == self.moving_direction.opposite_spec() {
                    self
                } else if self.has_moved_in_direction {
                    PlayerView { moving_direction: d, has_moved_in_direction: false, ..self }
                } else if self.backup_direction is None {
                    PlayerView { backup_direction: Some(d), ..self }
                } else {
                    self
                }
            },
        }
    }

    /// The player after one committed forward move: the next head cell is
    /// prepended to the trail (the trail never shrinks), and a queued
    /// direction, if any, is promoted to the moving direction.
    pub open spec fn after_move_forward(self) -> PlayerView {
        let grown = PlayerView {
            has_moved_in_direction: true,
            trail: seq![self.next_head()] + self.trail,
            ..self
        };
        match self.backup_direction {
            Option::Some(d) => PlayerView {
                moving_direction: d,
                backup_direction: None,
                ..grown
            },
            Option::None => grown,
        }
    }

    /// The player after draining the backup-direction slot: a queued
    /// direction becomes the moving direction and counts as not yet
    /// moved in.
    pub open spec fn after_queue_advance(self) -> PlayerView {
        match self.backup_direction {
            Option::Some(d) => PlayerView {
                moving_direction: d,
                backup_direction: None,
                has_moved_in_direction: false,
                ..self
            },
            Option::None => self,
        }
    }

    /// The player after `time` more milliseconds have elapsed. `time` may
    /// be negative: committing a move subtracts the move threshold rather
    /// than zeroing the accumulator, preserving any overshoot.
    pub open spec fn after_wait(self, time: int) -> PlayerView {
        PlayerView { time_waited: self.time_waited + time, ..self }
    }

    /// The player after requesting a quarter turn: counterclockwise when
    /// `cc` holds, clockwise otherwise. The request goes through the same
    /// apply-or-queue discipline as any other direction change.
    pub open spec fn after_turn(self, cc: bool) -> PlayerView {
        if cc {
            self.with_direction_request(Some(self.moving_direction.counter_clockwise_spec()))
        } else {
            self.with_direction_request(Some(self.moving_direction.clockwise_spec()))
        }
    }
}

/// Player one's fixed starting state: head at (4, 3), two trail cells
/// directly to its left, moving right, no time waited yet.
pub open spec fn initial_player_1() -> PlayerView {
    PlayerView {
        moving_direction: Direction::Right,
        has_moved_in_direction: false,
        backup_direction: None,
        trail: seq![(4int, 3int), (3int, 3int), (2int, 3int)],
        time_waited: 0,
    }
}

/// Player two's fixed starting state on a `width` by `height` board: head
/// four cells left of the right wall and five above the bottom wall, two
/// trail cells directly below the head, moving up. Its accumulator starts
/// at half the move threshold so the two players are never evaluated for
/// movement in the same tick early in the game.
pub open spec fn initial_player_2(width: int, height: int) -> PlayerView {
    PlayerView {
        moving_direction: Direction::Up,
        has_moved_in_direction: false,
        backup_direction: None,
        trail: seq![
            (width - 4, height - 5),
            (width - 4, height - 4),
            (width - 4, height - 3),
        ],
        time_waited: PLAYER_SPEED as int / 2,
    }
}

/// Waiting accumulates: two waits of `d1` and `d2` milliseconds leave the
/// player exactly as one wait of `d1 + d2` milliseconds does.
pub proof fn lemma_wait_additive(p: PlayerView, d1: int, d2: int)
    requires
        d1 >= 0,
        d2 >= 0,
    ensures
        p.after_wait(d1).after_wait(d2) == p.after_wait(d1 + d2),
{
}

/// A direction-change request that is absent, repeats the current moving
/// direction, or reverses it leaves the player entirely unchanged, from
/// every starting direction.
pub proof fn lemma_rejected_request_is_no_op(p: PlayerView, dir: Option<Direction>)
    requires
        dir is None || dir == Some(p.moving_direction) || dir == Some(
            p.moving_direction.opposite_spec(),
        ),
    ensures
        p.with_direction_request(dir) == p,
{
}

/// The direction-queueing discipline. From a player that has moved since
/// its last direction change and has nothing queued:
/// - a first legal request applies immediately;
/// - before the next move commits, a second distinct legal request is
///   queued rather than applied;
/// - any further request before that move commits leaves the player
///   unchanged — the first queued decision survives;
/// - once the move commits, the queued direction has been promoted and a
///   further distinct legal request again applies immediately.
pub proof fn lemma_direction_queue_discipline(
    p: PlayerView,
    first: Direction,
    second: Direction,
    third: Option<Direction>,
)
    requires
        p.has_moved_in_direction,
        p.backup_direction is None,
        first != p.moving_direction,
        first != p.moving_direction.opposite_spec(),
        second != first,
        second != first.opposite_spec(),
    ensures
        ({
            let applied = p.with_direction_request(Some(first));
            let queued = applied.with_direction_request(Some(second));
            let crowded = queued.with_direction_request(third);
            let moved = queued.after_move_forward().after_queue_advance();
            &&& applied.moving_direction == first
            &&& !applied.has_moved_in_direction
            &&& queued.moving_direction == first
            &&& queued.backup_direction == Some(second)
            &&& crowded == queued
            &&& moved.moving_direction == second
            &&& moved.has_moved_in_direction
        }),
{
}

/// One snake: a current moving direction, an optional queued direction
/// change, the trail of blocks it has occupied (front of the vector is
/// the head), and the time accumulated since its last committed move.
pub struct Player {
    moving_direction: Direction,
    has_moved_in_direction: bool,
    backup_direction: Option<Direction>,
    trail: Vec<Block>,
    time_waited: i64,
}

impl View for Player {
    type V = PlayerView;

    closed spec fn view(&self) -> PlayerView {
        PlayerView {
            moving_direction: self.moving_direction,
            has_moved_in_direction: self.has_moved_in_direction,
            backup_direction: self.backup_direction,
            trail: self.trail@.map_values(|b: Block| b@),
            time_waited: self.time_waited as int,
        }
    }
}

impl Player {
    /// Returns player one at the start of the game.
    pub fn player_1() -> (p: Player)
        ensures
            p@ == initial_player_1(),
    {
        let mut trail: Vec<Block> = Vec::new();
        trail.push(Block { x: 4, y: 3 });
        trail.push(Block { x: 3, y: 3 });
        trail.push(Block { x: 2, y: 3 });
        let p = Player {
            moving_direction: Direction::Right,
            has_moved_in_direction: false,
            backup_direction: None,
            trail,
            time_waited: 0,
        };
        proof {
            assert(p@.trail =~= initial_player_1().trail);
        }
        p
    }

    /// Returns player two at the start of the game, for a board of the
    /// given dimensions.
    pub fn player_2(game_width: u32, game_height: u32) -> (p: Player)
        requires
            game_width >= 4,
            game_height >= 5,
        ensures
            p@ == initial_player_2(game_width as int, game_height as int),
    {
        let mut trail: Vec<Block> = Vec::new();
        trail.push(Block { x: game_width - 4, y: game_height - 5 });
        trail.push(Block { x: game_width - 4, y: game_height - 4 });
        trail.push(Block { x: game_width - 4, y: game_height - 3 });
        let p = Player {
            moving_direction: Direction::Up,
            has_moved_in_direction: false,
            backup_direction: None,
            trail,
            time_waited: PLAYER_SPEED / 2,
        };
        proof {
            assert(p@.trail =~= initial_player_2(game_width as int, game_height as int).trail);
        }
        p
    }

    /// Increments the player's accumulated wait time by `time`
    /// milliseconds; `time` may be negative.
    pub fn wait_time(&mut self, time: i64)
        requires
            i64::MIN <= old(self)@.time_waited + time <= i64::MAX,
        ensures
            final(self)@ == old(self)@.after_wait(time as int),
    {
        self.time_waited = self.time_waited + time;
    }

    /// Returns the time, in milliseconds, waited since the player's last
    /// committed move.
    pub fn time_waited(&self) -> (t: i64)
        ensures
            t == self@.time_waited,
    {
        self.time_waited
    }

    /// If a backup direction is queued, makes it the moving direction,
    /// clears the queue slot, and marks the player as not yet moved in
    /// the new direction.
    pub fn advance_direction_queue(&mut self)
        ensures
            final(self)@ == old(self)@.after_queue_advance(),
    {
        if let Some(dir) = self.backup_direction {
            self.moving_direction = dir;
            self.backup_direction = None;
            self.has_moved_in_direction = false;
        }
    }

    /// Based on the head position and the current moving direction,
    /// returns the cell the head would be in after one forward step,
    /// without mutating the player.
    pub fn next_head_position(&self) -> (b: Block)
        requires
            self@.wf(),
            0 <= self@.next_head().0 <= u32::MAX,
            0 <= self@.next_head().1 <= u32::MAX,
        ensures
            b@ == self@.next_head(),
    {
        let head = self.trail[0];
        match self.moving_direction {
            Direction::Up => Block { x: head.x, y: head.y - 1 },
            Direction::Down => Block { x: head.x, y: head.y + 1 },
            Direction::Left => Block { x: head.x - 1, y: head.y },
            Direction::Right => Block { x: head.x + 1, y: head.y },
        }
    }

    /// Moves the player forward by one block: extends the trail headward
    /// in the moving direction, and promotes a queued direction change if
    /// one is present. The caller must already have checked that the move
    /// is safe; the trail grows unconditionally.
    pub fn move_forward(&mut self)
        requires
            old(self)@.wf(),
            0 <= old(self)@.next_head().0 <= u32::MAX,
            0 <= old(self)@.next_head().1 <= u32::MAX,
        ensures
            final(self)@ == old(self)@.after_move_forward(),
    {
        self.has_moved_in_direction = true;
        let next = self.next_head_position();
        self.trail.insert(0, next);
        if let Some(new_dir) = self.backup_direction {
            self.moving_direction = new_dir;
            self.backup_direction = None;
        }
        proof {
            assert(self@.trail =~= old(self)@.after_move_forward().trail);
        }
    }

    /// Requests a direction change: applied immediately, queued, or
    /// ignored, as [`PlayerView::with_direction_request`] describes.
    pub fn update_direction(&mut self, dir: Option<Direction>)
        ensures
            final(self)@ == old(self)@.with_direction_request(dir),
    {
        if let Some(direction) = dir {
            if direction != self.moving_direction
                && direction != self.moving_direction.opposite_direction()
            {
                if self.has_moved_in_direction {
                    self.moving_direction = direction;
                    self.has_moved_in_direction = false;
                } else if self.backup_direction.is_none() {
                    self.backup_direction = dir;
                }
            }
        }
    }

    /// Requests a quarter turn: counterclockwise when `cc` holds,
    /// clockwise otherwise.
    pub fn turn(&mut self, cc: bool)
        ensures
            final(self)@ == old(self)@.after_turn(cc),
    {
        if cc {
            self.update_direction(match self.moving_direction {
                Direction::Right => Some(Direction::Up),
                Direction::Left => Some(Direction::Down),
                Direction::Up => Some(Direction::Left),
                Direction::Down => Some(Direction::Right),
            });
        } else {
            self.update_direction(match self.moving_direction {
                Direction::Right => Some(Direction::Down),
                Direction::Left => Some(Direction::Up),
                Direction::Up => Some(Direction::Right),
                Direction::Down => Some(Direction::Left),
            });
        }
    }

    /// Returns the cell the head would be in after a clockwise quarter
    /// turn followed by one forward step, without mutating the player.
    pub fn position_on_turn(&self) -> (b: Block)
        requires
            self@.wf(),
            0 <= self@.clockwise_pos().0 <= u32::MAX,
            0 <= self@.clockwise_pos().1 <= u32::MAX,
        ensures
            b@ == self@.clockwise_pos(),
    {
        let head = self.trail[0];
        match self.moving_direction {
            Direction::Up => Block { x: head.x + 1, y: head.y },
            Direction::Down => Block { x: head.x - 1, y: head.y },
            Direction::Left => Block { x: head.x, y: head.y - 1 },
            Direction::Right => Block { x: head.x, y: head.y + 1 },
        }
    }

    /// Returns the cell the head would be in after a counterclockwise
    /// quarter turn followed by one forward step, without mutating the
    /// player.
    pub fn position_on_cc(&self) -> (b: Block)
        requires
            self@.wf(),
            0 <= self@.counter_clockwise_pos().0 <= u32::MAX,
            0 <= self@.counter_clockwise_pos().1 <= u32::MAX,
        ensures
            b@ == self@.counter_clockwise_pos(),
    {
        let head = self.trail[0];
        match self.moving_direction {
            Direction::Up => Block { x: head.x - 1, y: head.y },
            Direction::Down => Block { x: head.x + 1, y: head.y },
            Direction::Left => Block { x: head.x, y: head.y + 1 },
            Direction::Right => Block { x: head.x, y: head.y - 1 },
        }
    }

    /// Checks whether `location` is covered by the player's trail.
    pub fn trail_covers_location(&self, location: Block) -> (r: bool)
        ensures
            r == self@.occupies(location@),
    {
        let mut i: usize = 0;
        while i < self.trail.len()
            invariant
                i <= self.trail.len(),
                forall|j: int| 0 <= j < i ==> self@.trail[j] != location@,
            decreases self.trail.len() - i,
        {
            if self.trail[i] == location {
                assert(self@.trail[i as int] == location@);
                return true;
            }
            i = i + 1;
        }
        false
    }

    /// Checks whether the player would run into its own trail if it moved
    /// forward by one block in its current moving direction.
    pub fn imminent_self_collision(&self) -> (r: bool)
        requires
            self@.wf(),
            0 <= self@.next_head().0 <= u32::MAX,
            0 <= self@.next_head().1 <= u32::MAX,
        ensures
            r == self@.would_self_collide(),
    {
        let next = self.next_head_position();
        self.trail_covers_location(next)
    }

    /// The player's current moving direction.
    pub fn moving_direction(&self) -> (d: Direction)
        ensures
            d == self@.moving_direction,
    {
        self.moving_direction
    }

    /// True once the player has committed at least one forward move since
    /// its moving direction last changed.
    pub fn has_moved_in_direction(&self) -> (r: bool)
        ensures
            r == self@.has_moved_in_direction,
    {
        self.has_moved_in_direction
    }

    /// The queued direction change, if any.
    pub fn backup_direction(&self) -> (d: Option<Direction>)
        ensures
            d == self@.backup_direction,
    {
        self.backup_direction
    }

    /// The number of cells in the player's trail.
    pub fn trail_len(&self) -> (n: usize)
        ensures
            n == self@.trail.len(),
    {
        self.trail.len()
    }

    /// The cell at index `i` of the trail; index 0 is the head, the rest
    /// is body, oldest at the back. Gives a renderer read access to every
    /// occupied cell.
    pub fn trail_block(&self, i: usize) -> (b: Block)
        requires
            i < self@.trail.len(),
        ensures
            b@ == self@.trail[i as int],
    {
        self.trail[i]
    }

    /// The accumulated wait time is stored in a 64-bit signed integer, so
    /// its view is bounded by that type's range.
    pub proof fn lemma_time_waited_in_range(&self)
        ensures
            i64::MIN <= self@.time_waited <= i64::MAX,
    {
    }

    /// The head of the trail: the most recently occupied cell.
    pub fn head(&self) -> (b: Block)
        requires
            self@.wf(),
        ensures
            b@ == self@.head(),
    {
        self.trail[0]
    }
}

} // verus!
