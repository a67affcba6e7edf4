//! Global guarantees of the engine, stated and proved over the spec-level
//! transition relations.

use vstd::prelude::*;
use crate::game::{
    GameContext, GameState, PlayerDirection, Point, wf, in_bounds, opposite, head_target,
    next_head_pos, steer, toggled, tick_rel, GRID_X_SIZE, GRID_Y_SIZE, WIN_LENGTH,
};

verus! {

/// Body cells of a well-formed game that has not failed are pairwise
/// distinct and all lie on the grid.
pub proof fn lemma_body_cells(g: GameContext)
    requires
        wf(g),
        g.state != GameState::Failed,
    ensures
        forall|i: int, j: int|
            0 <= i < j < g.player_position@.len()
                ==> g.player_position@[i] != g.player_position@[j],
        forall|i: int| 0 <= i < g.player_position@.len() ==> in_bounds(g.player_position@[i]),
{
}

/// While the game is being played or is paused, the food never lies on
/// the body.
pub proof fn lemma_food_off_body(g: GameContext)
    requires
        wf(g),
        g.state == GameState::Playing || g.state == GameState::Paused,
    ensures
        forall|i: int| 0 <= i < g.player_position@.len() ==> g.player_position@[i] != g.food,
{
    assert forall|i: int| 0 <= i < g.player_position@.len() implies g.player_position@[i]
        != g.food by {
        if g.player_position@[i] == g.food {
            assert(g.player_position@.contains(g.food));
        }
    }
}

/// Stepping off an edge of the grid wraps the head to the opposite edge;
/// a tick that does not fail places exactly this cell at the front of the
/// body.
pub proof fn lemma_wrap_around(head: Point)
    requires
        in_bounds(head),
    ensures
        head.0 == GRID_X_SIZE - 1 ==> next_head_pos(head, PlayerDirection::Right) == Point(
            0,
            head.1,
        ),
        head.0 == 0 ==> next_head_pos(head, PlayerDirection::Left) == Point(
            (GRID_X_SIZE - 1) as i32,
            head.1,
        ),
        head.1 == GRID_Y_SIZE - 1 ==> next_head_pos(head, PlayerDirection::Down) == Point(
            head.0,
            0,
        ),
        head.1 == 0 ==> next_head_pos(head, PlayerDirection::Up) == Point(
            head.0,
            (GRID_Y_SIZE - 1) as i32,
        ),
{
}

/// A command that would reverse the committed direction is discarded: with
/// the snake committed rightward, a left command leaves the state as it
/// was, and the following tick still does not turn the snake left. A
/// perpendicular command is honored and committed by the following tick.
pub proof fn lemma_reversal_guard(g: GameContext, after_left: GameContext, after_up: GameContext)
    requires
        wf(g),
        g.player_direction == PlayerDirection::Right,
        g.state == GameState::Playing,
        tick_rel(steer(g, PlayerDirection::Left), after_left),
        tick_rel(steer(g, PlayerDirection::Up), after_up),
    ensures
        steer(g, PlayerDirection::Left) == g,
        after_left.player_direction != PlayerDirection::Left,
        after_up.player_direction == PlayerDirection::Up,
{
}

/// A tick whose target cell holds the food grows the body by one and
/// draws fresh food off the new body. Such a tick can never collide,
/// because the food never lies on the body.
pub proof fn lemma_growth(g: GameContext, t: GameContext)
    requires
        wf(g),
        g.state == GameState::Playing,
        head_target(g) == g.food,
        tick_rel(g, t),
    ensures
        t.player_position@.len() == g.player_position@.len() + 1,
        t.player_position@[0] == g.food,
        in_bounds(t.food),
        !t.player_position@.contains(t.food),
{
}

/// A tick whose target cell is free and holds no food keeps the body
/// length: the tail cell is dropped, the target becomes the head, and the
/// food stays where it was.
pub proof fn lemma_non_growth(g: GameContext, t: GameContext)
    requires
        wf(g),
        g.state == GameState::Playing,
        head_target(g) != g.food,
        !g.player_position@.contains(head_target(g)),
        tick_rel(g, t),
    ensures
        t.player_position@.len() == g.player_position@.len(),
        t.player_position@ == seq![head_target(g)] + g.player_position@.drop_last(),
        t.food == g.food,
{
}

/// A tick whose target cell lies on the current body fails the game and
/// changes neither the body nor the food.
pub proof fn lemma_collision(g: GameContext, t: GameContext)
    requires
        wf(g),
        g.state == GameState::Playing,
        g.player_position@.contains(head_target(g)),
        tick_rel(g, t),
    ensures
        t.state == GameState::Failed,
        t.player_position@ == g.player_position@,
        t.food == g.food,
{
}

/// Growth that brings the body to the winning length wins the game on
/// that same tick, after the food has been regenerated off the body.
pub proof fn lemma_win(g: GameContext, t: GameContext)
    requires
        wf(g),
        g.state == GameState::Playing,
        head_target(g) == g.food,
        g.player_position@.len() + 1 == WIN_LENGTH,
        tick_rel(g, t),
    ensures
        t.state == GameState::Won,
        !t.player_position@.contains(t.food),
{
}

/// The pause toggle leaves the terminal states alone: a failed or won
/// game stays failed or won.
pub proof fn lemma_pause_absorbing(g: GameContext)
    requires
        g.state == GameState::Failed || g.state == GameState::Won,
    ensures
        toggled(g) == g,
{
}

} // verus!
