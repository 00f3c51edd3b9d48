use snake_game::game::Game;
use snake_game::point::Point;
use snake_game::snake::Direction;

fn body_of(game: &Game) -> Vec<Point> {
    game.snake().body_points()
}

fn apple_of(game: &Game) -> Point {
    *game.apple().position()
}

#[test]
fn fresh_game_matches_initial_position() {
    let g = Game::new(17, 15);
    assert_eq!(
        body_of(&g),
        vec![Point::new(3, 7), Point::new(2, 7), Point::new(1, 7)]
    );
    assert_eq!(apple_of(&g), Point::new(12, 7));
    assert_eq!(g.snake().direction(), Direction::Right);
    assert!(g.is_running());
    assert!(g.is_active());
    assert_eq!(g.score(), 0);
    assert_eq!(g.width(), 17);
    assert_eq!(g.height(), 15);
}

#[test]
fn one_step_moves_the_snake_right() {
    let mut g = Game::new(17, 15);
    g.step();
    assert_eq!(
        body_of(&g),
        vec![Point::new(4, 7), Point::new(3, 7), Point::new(2, 7)]
    );
    assert_eq!(g.snake().len(), 3);
    assert!(g.is_running());
}

#[test]
fn eating_the_apple_grows_and_respawns() {
    let mut g = Game::new(17, 15);
    // Nine steps bring the head onto the apple at (12, 7).
    for _ in 0..9 {
        g.step();
    }
    assert_eq!(*g.snake().head(), Point::new(12, 7));
    assert!(g.snake().is_growing());
    assert!(!body_of(&g).contains(&apple_of(&g)));
    // The pending growth lands on the next step.
    g.step();
    assert_eq!(g.snake().len(), 4);
    assert_eq!(g.score(), 1);
    assert!(!body_of(&g).contains(&apple_of(&g)));
    assert!(g.is_running());
}

#[test]
fn hitting_the_wall_quits_without_moving() {
    let mut g = Game::new(17, 15);
    // Thirteen steps bring the head to the right edge, x = 16.
    for _ in 0..13 {
        g.step();
    }
    assert_eq!(*g.snake().head(), Point::new(16, 7));
    assert!(g.is_running());
    let before = body_of(&g);
    g.step();
    assert!(!g.is_running());
    assert!(!g.is_active());
    assert_eq!(body_of(&g), before);
}

#[test]
fn turn_intent_applies_on_the_next_step() {
    let mut g = Game::new(17, 15);
    g.set_direction(Direction::Up);
    g.step();
    assert_eq!(*g.snake().head(), Point::new(3, 8));
    assert_eq!(g.snake().direction(), Direction::Up);
}

#[test]
fn reversal_intent_is_ignored_at_step_time() {
    let mut g = Game::new(17, 15);
    g.set_direction(Direction::Left);
    g.step();
    // The reversal request was dropped; the snake kept moving right.
    assert_eq!(*g.snake().head(), Point::new(4, 7));
    assert_eq!(g.snake().direction(), Direction::Right);
}

#[test]
fn quit_is_terminal() {
    let mut g = Game::new(17, 15);
    g.quit();
    assert!(!g.is_running());
    g.step();
    assert!(!g.is_running());
}

#[test]
fn reset_restores_the_initial_position() {
    let mut g = Game::new(17, 15);
    for _ in 0..5 {
        g.step();
    }
    g.quit();
    g.reset();
    assert!(g.is_running());
    assert_eq!(
        body_of(&g),
        vec![Point::new(3, 7), Point::new(2, 7), Point::new(1, 7)]
    );
    assert_eq!(apple_of(&g), Point::new(12, 7));
    assert_eq!(g.score(), 0);
}

#[test]
fn observation_reports_apple_then_head() {
    let g = Game::new(17, 15);
    assert_eq!(g.observation(), (12, 7, 3, 7));
}

#[test]
fn actions_lists_all_directions_in_order() {
    let g = Game::new(17, 15);
    assert_eq!(
        g.actions(),
        vec![
            Direction::Up,
            Direction::Right,
            Direction::Down,
            Direction::Left
        ]
    );
}

#[test]
fn random_action_is_a_direction() {
    let g = Game::new(17, 15);
    let actions = g.actions();
    for _ in 0..50 {
        let a = g.random_action();
        assert!(actions.contains(&a));
    }
}

#[test]
fn reading_state_does_not_mutate() {
    let mut g = Game::new(17, 15);
    for _ in 0..3 {
        g.step();
    }
    let body = body_of(&g);
    let apple = apple_of(&g);
    let obs = g.observation();
    let running = g.is_running();
    let score = g.score();
    // Read everything again, in a different order.
    assert_eq!(g.score(), score);
    assert_eq!(g.is_running(), running);
    assert_eq!(g.observation(), obs);
    assert_eq!(apple_of(&g), apple);
    assert_eq!(body_of(&g), body);
    assert_eq!(g.snake().len(), body.len());
}

#[test]
fn small_grid_match_ends_at_the_wall() {
    // On a 6x1 strip the snake eats at (4,0) on its first step; the grid
    // still has room, so the match goes on and the apple moves off the
    // body. The match can only end by the wall or by filling the strip.
    let mut g = Game::new(6, 1);
    assert_eq!(apple_of(&g), Point::new(4, 0));
    g.step();
    assert_eq!(*g.snake().head(), Point::new(4, 0));
    assert!(g.snake().is_growing());
    assert!(!body_of(&g).contains(&apple_of(&g)));
    g.step();
    assert_eq!(g.snake().len(), 4);
    g.step();
    assert!(!g.is_running());
}
