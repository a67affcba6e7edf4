use snake::game::{GameContext, GameState, PlayerDirection, Point, GRID_X_SIZE, GRID_Y_SIZE};

fn ctx(body: Vec<Point>, direction: PlayerDirection, food: Point) -> GameContext {
    GameContext {
        player_position: body,
        player_direction: direction,
        next_player_direction: direction,
        food,
        state: GameState::Playing,
    }
}

fn on_grid(p: Point) -> bool {
    0 <= p.0 && p.0 < GRID_X_SIZE && 0 <= p.1 && p.1 < GRID_Y_SIZE
}

#[test]
fn new_starts_paused_with_three_cells() {
    let g = GameContext::new();
    assert_eq!(g.player_position, vec![Point(3, 1), Point(2, 1), Point(1, 1)]);
    assert_eq!(g.player_direction, PlayerDirection::Right);
    assert_eq!(g.next_player_direction, PlayerDirection::Right);
    assert_eq!(g.state, GameState::Paused);
    assert!(on_grid(g.food));
    assert!(!g.player_position.contains(&g.food));
}

#[test]
fn tick_eats_food_and_grows() {
    let mut g = ctx(
        vec![Point(3, 1), Point(2, 1), Point(1, 1)],
        PlayerDirection::Right,
        Point(4, 1),
    );
    g.next_tick();
    assert_eq!(
        g.player_position,
        vec![Point(4, 1), Point(3, 1), Point(2, 1), Point(1, 1)]
    );
    assert_eq!(g.state, GameState::Playing);
    assert!(on_grid(g.food));
    assert!(!g.player_position.contains(&g.food));
}

#[test]
fn tick_moves_without_growth() {
    let mut g = ctx(
        vec![Point(3, 1), Point(2, 1), Point(1, 1)],
        PlayerDirection::Right,
        Point(20, 20),
    );
    g.next_tick();
    assert_eq!(g.player_position, vec![Point(4, 1), Point(3, 1), Point(2, 1)]);
    assert_eq!(g.food, Point(20, 20));
    assert_eq!(g.state, GameState::Playing);
}

#[test]
fn tick_wraps_right_edge() {
    let mut g = ctx(
        vec![Point(39, 1), Point(38, 1), Point(37, 1)],
        PlayerDirection::Right,
        Point(20, 20),
    );
    g.next_tick();
    assert_eq!(g.player_position[0], Point(0, 1));
    assert_eq!(g.state, GameState::Playing);
}

#[test]
fn tick_wraps_left_edge() {
    let mut g = ctx(
        vec![Point(0, 5), Point(1, 5), Point(2, 5)],
        PlayerDirection::Left,
        Point(20, 20),
    );
    g.next_tick();
    assert_eq!(g.player_position[0], Point(39, 5));
    assert_eq!(g.state, GameState::Playing);
}

#[test]
fn tick_wraps_bottom_edge() {
    let mut g = ctx(
        vec![Point(5, 29), Point(5, 28), Point(5, 27)],
        PlayerDirection::Down,
        Point(20, 20),
    );
    g.next_tick();
    assert_eq!(g.player_position[0], Point(5, 0));
    assert_eq!(g.state, GameState::Playing);
}

#[test]
fn tick_wraps_top_edge() {
    let mut g = ctx(
        vec![Point(5, 0), Point(5, 1), Point(5, 2)],
        PlayerDirection::Up,
        Point(20, 20),
    );
    g.next_tick();
    assert_eq!(g.player_position[0], Point(5, 29));
    assert_eq!(g.state, GameState::Playing);
}

#[test]
fn reversal_command_is_discarded() {
    let mut g = ctx(
        vec![Point(3, 1), Point(2, 1), Point(1, 1)],
        PlayerDirection::Right,
        Point(20, 20),
    );
    g.move_left();
    assert_eq!(g.next_player_direction, PlayerDirection::Right);
    g.next_tick();
    assert_eq!(g.player_direction, PlayerDirection::Right);
    assert_eq!(g.player_position[0], Point(4, 1));
}

#[test]
fn perpendicular_command_is_committed() {
    let mut g = ctx(
        vec![Point(3, 1), Point(2, 1), Point(1, 1)],
        PlayerDirection::Right,
        Point(20, 20),
    );
    g.move_up();
    assert_eq!(g.next_player_direction, PlayerDirection::Up);
    g.next_tick();
    assert_eq!(g.player_direction, PlayerDirection::Up);
    assert_eq!(g.player_position[0], Point(3, 0));
}

#[test]
fn direction_guards_each_axis() {
    let mut up = ctx(
        vec![Point(3, 3), Point(3, 4), Point(3, 5)],
        PlayerDirection::Up,
        Point(20, 20),
    );
    up.move_down();
    assert_eq!(up.next_player_direction, PlayerDirection::Up);
    up.move_left();
    assert_eq!(up.next_player_direction, PlayerDirection::Left);

    let mut down = ctx(
        vec![Point(3, 5), Point(3, 4), Point(3, 3)],
        PlayerDirection::Down,
        Point(20, 20),
    );
    down.move_up();
    assert_eq!(down.next_player_direction, PlayerDirection::Down);
    down.move_right();
    assert_eq!(down.next_player_direction, PlayerDirection::Right);

    let mut left = ctx(
        vec![Point(3, 3), Point(4, 3), Point(5, 3)],
        PlayerDirection::Left,
        Point(20, 20),
    );
    left.move_right();
    assert_eq!(left.next_player_direction, PlayerDirection::Left);
    left.move_down();
    assert_eq!(left.next_player_direction, PlayerDirection::Down);
}

#[test]
fn tick_self_collision_fails() {
    let body = vec![Point(3, 1), Point(3, 2), Point(4, 2), Point(4, 1)];
    let mut g = ctx(body.clone(), PlayerDirection::Right, Point(20, 20));
    g.next_tick();
    assert_eq!(g.state, GameState::Failed);
    assert_eq!(g.player_position, body);
    assert_eq!(g.food, Point(20, 20));
}

#[test]
fn tick_collides_with_vacating_tail() {
    // The collision check runs before the tail is dropped, so moving onto
    // the cell the tail is about to vacate still fails the game.
    let body = vec![Point(2, 1), Point(2, 2), Point(1, 2), Point(1, 1)];
    let mut g = ctx(body.clone(), PlayerDirection::Left, Point(20, 20));
    g.next_tick();
    assert_eq!(g.state, GameState::Failed);
    assert_eq!(g.player_position, body);
}

#[test]
fn tick_win_at_threshold() {
    let mut body = Vec::new();
    for x in (1..=29).rev() {
        body.push(Point(x, 5));
    }
    assert_eq!(body.len(), 29);
    let mut g = ctx(body, PlayerDirection::Right, Point(30, 5));
    g.next_tick();
    assert_eq!(g.player_position.len(), 30);
    assert_eq!(g.player_position[0], Point(30, 5));
    assert_eq!(g.state, GameState::Won);
    assert!(on_grid(g.food));
    assert!(!g.player_position.contains(&g.food));
}

#[test]
fn pause_toggles_between_playing_and_paused() {
    let mut g = GameContext::new();
    assert_eq!(g.state, GameState::Paused);
    g.toggle_pause();
    assert_eq!(g.state, GameState::Playing);
    g.toggle_pause();
    assert_eq!(g.state, GameState::Paused);
}

#[test]
fn pause_leaves_failed_and_won() {
    let mut failed = ctx(
        vec![Point(3, 1), Point(2, 1), Point(1, 1)],
        PlayerDirection::Right,
        Point(20, 20),
    );
    failed.state = GameState::Failed;
    failed.toggle_pause();
    assert_eq!(failed.state, GameState::Failed);

    let mut won = ctx(
        vec![Point(3, 1), Point(2, 1), Point(1, 1)],
        PlayerDirection::Right,
        Point(20, 20),
    );
    won.state = GameState::Won;
    won.toggle_pause();
    assert_eq!(won.state, GameState::Won);
}

#[test]
fn tick_is_a_noop_unless_playing() {
    for state in [GameState::Paused, GameState::Failed, GameState::Won] {
        let mut g = ctx(
            vec![Point(3, 1), Point(2, 1), Point(1, 1)],
            PlayerDirection::Right,
            Point(4, 1),
        );
        g.state = state;
        g.next_tick();
        assert_eq!(g.player_position, vec![Point(3, 1), Point(2, 1), Point(1, 1)]);
        assert_eq!(g.food, Point(4, 1));
        assert_eq!(g.state, state);
    }
}

#[test]
fn regenerated_food_lands_on_a_free_cell() {
    let mut g = ctx(
        vec![Point(3, 1), Point(2, 1), Point(1, 1)],
        PlayerDirection::Right,
        Point(20, 20),
    );
    for _ in 0..200 {
        g.regenerate_food();
        assert!(on_grid(g.food));
        assert!(!g.player_position.contains(&g.food));
    }
}
