//! The game-state engine: data model, well-formedness invariant, and the
//! state transitions of the snake simulation.

use vstd::prelude::*;
use vstd::set_lib::{lemma_int_range, lemma_len_subset, set_int_range};
use crate::rng;

verus! {

/// Number of grid columns; x coordinates range over `[0, GRID_X_SIZE)`.
pub const GRID_X_SIZE: i32 = 40;
/// Number of grid rows; y coordinates range over `[0, GRID_Y_SIZE)`.
pub const GRID_Y_SIZE: i32 = 30;
/// Body length at which the game is won.
pub const WIN_LENGTH: usize = 30;
/// Random draws tried for a fresh food cell before falling back to a
/// deterministic scan of the grid.
const FOOD_SAMPLE_ATTEMPTS: usize = 128;

/// Play status of a game session. `Failed` and `Won` are terminal.
#[derive(Copy, Clone, PartialEq, Eq, Structural, Debug)]
pub enum GameState {
    Playing,
    Paused,
    Failed,
    Won,
}

/// A movement direction of the snake.
#[derive(Copy, Clone, PartialEq, Eq, Structural, Debug)]
pub enum PlayerDirection {
    Up,
    Down,
    Left,
    Right,
}

/// A cell of the grid, as an (x, y) pair.
#[derive(Copy, Clone, PartialEq, Eq, Structural, Debug)]
pub struct Point(pub i32, pub i32);

/// The direction that undoes `d`; a snake may never reverse onto itself,
/// so `opposite` of the committed direction is rejected as a pending one.
pub open spec fn opposite(d: PlayerDirection) -> PlayerDirection {
    match d {
        PlayerDirection::Up => PlayerDirection::Down,
        PlayerDirection::Down => PlayerDirection::Up,
        PlayerDirection::Left => PlayerDirection::Right,
        PlayerDirection::Right => PlayerDirection::Left,
    }
}

/// Horizontal displacement of one step in direction `d`.
pub open spec fn step_x(d: PlayerDirection) -> int {
    match d {
        PlayerDirection::Left => -1,
        PlayerDirection::Right => 1,
        _ => 0,
    }
}

/// Vertical displacement of one step in direction `d`.
pub open spec fn step_y(d: PlayerDirection) -> int {
    match d {
        PlayerDirection::Up => -1,
        PlayerDirection::Down => 1,
        _ => 0,
    }
}

/// Whether `p` lies on the grid.
pub open spec fn in_bounds(p: Point) -> bool {
    &&& 0 <= p.0 < GRID_X_SIZE
    &&& 0 <= p.1 < GRID_Y_SIZE
}

/// Toroidal wrap of one coordinate: stepping past either edge of
/// `[0, size)` re-enters from the other edge.
pub open spec fn wrap_coord(v: int, size: int) -> int {
    if v == size {
        0
    } else if v == -1 {
        size - 1
    } else {
        v
    }
}

/// Component-wise toroidal wrap of a point that is at most one step
/// outside the grid.
pub open spec fn wrap_point(p: Point) -> Point {
    Point(
        wrap_coord(p.0 as int, GRID_X_SIZE as int) as i32,
        wrap_coord(p.1 as int, GRID_Y_SIZE as int) as i32,
    )
}

/// The cell the head moves to when stepping from `head` in direction `d`,
/// after toroidal wrapping.
pub open spec fn next_head_pos(head: Point, d: PlayerDirection) -> Point {
    wrap_point(Point((head.0 as int + step_x(d)) as i32, (head.1 as int + step_y(d)) as i32))
}

/// The whole mutable state of one game session.
#[verifier::ext_equal]
pub struct GameContext {
    /// The snake's body, head first; never empty.
    pub player_position: Vec<Point>,
    /// The direction committed at the last tick.
    pub player_direction: PlayerDirection,
    /// The direction requested since the last tick; committed by the next one.
    pub next_player_direction: PlayerDirection,
    /// The single food cell, always off the body.
    pub food: Point,
    /// Current play status.
    pub state: GameState,
}

/// Well-formedness of a game state: every constructor establishes it and
/// every transition preserves it.
pub open spec fn wf(g: GameContext) -> bool {
    &&& g.player_position@.len() >= 3
    &&& g.player_position@.len() <= WIN_LENGTH
    &&& (g.state == GameState::Playing || g.state == GameState::Paused)
        ==> g.player_position@.len() < WIN_LENGTH
    &&& forall|i: int, j: int|
        0 <= i < j < g.player_position@.len()
            ==> g.player_position@[i] != g.player_position@[j]
    &&& forall|i: int| 0 <= i < g.player_position@.len() ==> in_bounds(g.player_position@[i])
    &&& in_bounds(g.food)
    &&& !g.player_position@.contains(g.food)
    &&& g.next_player_direction != opposite(g.player_direction)
}

/// The cell the head will move to on the next tick: one step from the
/// current head in the pending direction, wrapped at the grid edges.
pub open spec fn head_target(g: GameContext) -> Point {
    next_head_pos(g.player_position@[0], g.next_player_direction)
}

/// The state after a direction command requesting `d`: the pending
/// direction becomes `d` unless `d` would reverse the committed direction,
/// in which case the command is ignored.
pub open spec fn steer(g: GameContext, d: PlayerDirection) -> GameContext {
    if d == opposite(g.player_direction) {
        g
    } else {
        GameContext { next_player_direction: d, ..g }
    }
}

/// The state after a pause toggle: `Playing` and `Paused` swap, the
/// terminal states absorb the command.
pub open spec fn toggled(g: GameContext) -> GameContext {
    GameContext {
        state: match g.state {
            GameState::Playing => GameState::Paused,
            GameState::Paused => GameState::Playing,
            s => s,
        },
        ..g
    }
}

/// The body after a growth step: the new head is pushed on and the tail
/// is kept.
pub open spec fn grown_body(body: Seq<Point>, h: Point) -> Seq<Point> {
    seq![h] + body
}

/// The body after a plain movement step: the new head is pushed on and
/// the tail cell is dropped.
pub open spec fn moved_body(body: Seq<Point>, h: Point) -> Seq<Point> {
    seq![h] + body.drop_last()
}

/// The tick transition relation. Deterministic except for the fresh food
/// cell drawn on a growth tick, of which it states bounds and disjointness
/// from the new body.
pub open spec fn tick_rel(pre: GameContext, post: GameContext) -> bool {
    if pre.state != GameState::Playing {
        post == pre
    } else {
        let h = head_target(pre);
        &&& post.player_direction == pre.next_player_direction
        &&& post.next_player_direction == pre.next_player_direction
        &&& if pre.player_position@.contains(h) {
            &&& post.state == GameState::Failed
            &&& post.player_position@ == pre.player_position@
            &&& post.food == pre.food
        } else if h == pre.food {
            &&& post.player_position@ == grown_body(pre.player_position@, h)
            &&& in_bounds(post.food)
            &&& !post.player_position@.contains(post.food)
            &&& post.state == (if post.player_position@.len() == WIN_LENGTH {
                GameState::Won
            } else {
                GameState::Playing
            })
        } else {
            &&& post.player_position@ == moved_body(pre.player_position@, h)
            &&& post.food == pre.food
            &&& post.state == GameState::Playing
        }
    }
}

/// Whether the body sequence `body` occupies the cell `p`.
fn body_contains(body: &Vec<Point>, p: Point) -> (r: bool)
    ensures
        r == body@.contains(p),
{
    let mut i: usize = 0;
    while i < body.len()
        invariant
            0 <= i <= body@.len(),
            forall|j: int| 0 <= j < i ==> body@[j] != p,
        decreases body@.len() - i,
    {
        if body[i] == p {
            assert(body@[i as int] == p);
            return true;
        }
        i += 1;
    }
    false
}

impl GameContext {
    /// Starts a session: a three-cell body facing right, paused, with the
    /// food placed on a cell off the body.
    pub fn new() -> (g: GameContext)
        ensures
            wf(g),
            g.player_position@ == seq![Point(3, 1), Point(2, 1), Point(1, 1)],
            g.player_direction == PlayerDirection::Right,
            g.next_player_direction == PlayerDirection::Right,
            g.state == GameState::Paused,
    {
        let mut body: Vec<Point> = Vec::new();
        body.push(Point(3, 1));
        body.push(Point(2, 1));
        body.push(Point(1, 1));
        proof {
            assert(body@ =~= seq![Point(3, 1), Point(2, 1), Point(1, 1)]);
        }
        let mut g = GameContext {
            player_position: body,
            player_direction: PlayerDirection::Right,
            next_player_direction: PlayerDirection::Right,
            state: GameState::Paused,
            food: Point(0, 0),
        };
        g.regenerate_food();
        g
    }

    /// Advances the simulation one step: commits the pending direction,
    /// moves the head one cell with toroidal wrap, and applies the
    /// collision, growth and win rules in that order. Does nothing unless
    /// the game is being played.
    pub fn next_tick(&mut self)
        requires
            wf(*old(self)),
        ensures
            tick_rel(*old(self), *final(self)),
            wf(*final(self)),
    {
        if self.state != GameState::Playing {
            return;
        }
        self.player_direction = self.next_player_direction;
        let head_position = self.player_position[0];
        let next_raw = match self.player_direction {
            PlayerDirection::Up => Point(head_position.0, head_position.1 - 1),
            PlayerDirection::Down => Point(head_position.0, head_position.1 + 1),
            PlayerDirection::Right => Point(head_position.0 + 1, head_position.1),
            PlayerDirection::Left => Point(head_position.0 - 1, head_position.1),
        };
        let next_head_position = self.position_wrapping(next_raw);
        let ghost b0 = old(self).player_position@;
        let ghost h = head_target(*old(self));
        if body_contains(&self.player_position, next_head_position) {
            self.state = GameState::Failed;
            return;
        }
        if next_head_position != self.food {
            self.player_position.pop();
        }
        self.player_position.insert(0, next_head_position);
        proof {
            if h == old(self).food {
                assert(self.player_position@ =~= grown_body(b0, h));
            } else {
                assert(self.player_position@ =~= moved_body(b0, h));
            }
        }
        if next_head_position == self.food {
            self.regenerate_food();
            if self.player_position.len() == WIN_LENGTH {
                self.state = GameState::Won;
            }
        }
    }

    /// Wraps a position that is at most one step outside the grid back
    /// onto it: a coordinate that has just passed an edge re-enters at
    /// the opposite edge.
    fn position_wrapping(&mut self, next_head_position: Point) -> (r: Point)
        requires
            -1 <= next_head_position.0 <= GRID_X_SIZE,
            -1 <= next_head_position.1 <= GRID_Y_SIZE,
            0 <= next_head_position.0 < GRID_X_SIZE || 0 <= next_head_position.1 < GRID_Y_SIZE,
        ensures
            *final(self) == *old(self),
            r == wrap_point(next_head_position),
    {
        if next_head_position.0 == GRID_X_SIZE {
            Point(0, next_head_position.1)
        } else if next_head_position.0 == -1 {
            Point(GRID_X_SIZE - 1, next_head_position.1)
        } else if next_head_position.1 == GRID_Y_SIZE {
            Point(next_head_position.0, 0)
        } else if next_head_position.1 == -1 {
            Point(next_head_position.0, GRID_Y_SIZE - 1)
        } else {
            next_head_position
        }
    }

    /// Requests an upward turn; ignored if the snake is committed downward.
    pub fn move_up(&mut self)
        ensures
            *final(self) == steer(*old(self), PlayerDirection::Up),
            wf(*old(self)) ==> wf(*final(self)),
    {
        if self.player_direction != PlayerDirection::Down {
            self.next_player_direction = PlayerDirection::Up;
        }
    }

    /// Requests a downward turn; ignored if the snake is committed upward.
    pub fn move_down(&mut self)
        ensures
            *final(self) == steer(*old(self), PlayerDirection::Down),
            wf(*old(self)) ==> wf(*final(self)),
    {
        if self.player_direction != PlayerDirection::Up {
            self.next_player_direction = PlayerDirection::Down;
        }
    }

    /// Requests a rightward turn; ignored if the snake is committed leftward.
    pub fn move_right(&mut self)
        ensures
            *final(self) == steer(*old(self), PlayerDirection::Right),
            wf(*old(self)) ==> wf(*final(self)),
    {
        if self.player_direction != PlayerDirection::Left {
            self.next_player_direction = PlayerDirection::Right;
        }
    }

    /// Requests a leftward turn; ignored if the snake is committed rightward.
    pub fn move_left(&mut self)
        ensures
            *final(self) == steer(*old(self), PlayerDirection::Left),
            wf(*old(self)) ==> wf(*final(self)),
    {
        if self.player_direction != PlayerDirection::Right {
            self.next_player_direction = PlayerDirection::Left;
        }
    }

    /// Toggles between `Playing` and `Paused`; `Failed` and `Won` absorb
    /// the command.
    pub fn toggle_pause(&mut self)
        ensures
            *final(self) == toggled(*old(self)),
            wf(*old(self)) ==> wf(*final(self)),
    {
        self.state = match self.state {
            GameState::Playing => GameState::Paused,
            GameState::Paused => GameState::Playing,
            state => state,
        }
    }

    /// Draws a fresh food cell off the body: a few random samples first,
    /// then a deterministic scan of the grid, which must succeed because
    /// the body leaves at least one cell free.
    pub fn regenerate_food(&mut self)
        requires
            old(self).player_position@.len() < GRID_X_SIZE as int * GRID_Y_SIZE as int,
        ensures
            final(self).player_position@ == old(self).player_position@,
            final(self).player_direction == old(self).player_direction,
            final(self).next_player_direction == old(self).next_player_direction,
            final(self).state == old(self).state,
            in_bounds(final(self).food),
            !final(self).player_position@.contains(final(self).food),
    {
        let mut new_food = rng::random_point();
        let mut found = !body_contains(&self.player_position, new_food);
        let mut attempts: usize = 0;
        while !found && attempts < FOOD_SAMPLE_ATTEMPTS
            invariant
                *self == *old(self),
                in_bounds(new_food),
                found ==> !self.player_position@.contains(new_food),
                attempts <= FOOD_SAMPLE_ATTEMPTS,
            decreases FOOD_SAMPLE_ATTEMPTS - attempts,
        {
            new_food = rng::random_point();
            found = !body_contains(&self.player_position, new_food);
            attempts += 1;
        }
        if !found {
            new_food = first_free_cell(&self.player_position);
        }
        self.food = new_food;
    }
}

/// The first grid cell, in row-major order, that the body does not occupy.
/// A body shorter than the number of grid cells must leave one free.
fn first_free_cell(body: &Vec<Point>) -> (p: Point)
    requires
        body@.len() < GRID_X_SIZE as int * GRID_Y_SIZE as int,
    ensures
        in_bounds(p),
        !body@.contains(p),
{
    let ghost mut seen: Set<int> = Set::empty();
    let mut x: i32 = 0;
    while x < GRID_X_SIZE
        invariant
            0 <= x <= GRID_X_SIZE,
            body@.len() < GRID_X_SIZE as int * GRID_Y_SIZE as int,
            seen.finite(),
            seen.len() == x as int * GRID_Y_SIZE as int,
            forall|j: int| seen.contains(j) ==> 0 <= j < body@.len(),
            forall|j: int| seen.contains(j)
                ==> in_bounds(#[trigger] body@[j]) && body@[j].0 < x,
        decreases GRID_X_SIZE - x,
    {
        let mut y: i32 = 0;
        while y < GRID_Y_SIZE
            invariant
                0 <= x < GRID_X_SIZE,
                0 <= y <= GRID_Y_SIZE,
                body@.len() < GRID_X_SIZE as int * GRID_Y_SIZE as int,
                seen.finite(),
                seen.len() == x as int * GRID_Y_SIZE as int + y as int,
                forall|j: int| seen.contains(j) ==> 0 <= j < body@.len(),
                forall|j: int| seen.contains(j)
                    ==> in_bounds(#[trigger] body@[j])
                        && (body@[j].0 < x || (body@[j].0 == x && body@[j].1 < y)),
            decreases GRID_Y_SIZE - y,
        {
            if !body_contains(body, Point(x, y)) {
                return Point(x, y);
            }
            proof {
                let j = choose|j: int| 0 <= j < body@.len() && body@[j] == Point(x, y);
                assert(!seen.contains(j));
                seen = seen.insert(j);
                lemma_seen_bounded(seen, body@.len() as int);
            }
            y += 1;
        }
        x += 1;
    }
    proof {
        lemma_seen_bounded(seen, body@.len() as int);
        assert(false);
    }
    Point(0, 0)
}

/// A finite set of indices into a sequence of length `n` has at most `n`
/// elements.
proof fn lemma_seen_bounded(seen: Set<int>, n: int)
    requires
        seen.finite(),
        n >= 0,
        forall|j: int| seen.contains(j) ==> 0 <= j < n,
    ensures
        seen.len() <= n,
{
    lemma_int_range(0, n);
    lemma_len_subset(seen, set_int_range(0, n));
}

} // verus!
