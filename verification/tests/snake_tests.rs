use std::collections::VecDeque;

use snake_game::point::Point;
use snake_game::snake::{Direction, Snake};

fn body_of(snake: &Snake) -> Vec<Point> {
    snake.body_points()
}

#[test]
fn new_builds_tail_behind_head_right() {
    let s = Snake::new(Point::new(3, 7), 2, Direction::Right);
    assert_eq!(
        body_of(&s),
        vec![Point::new(3, 7), Point::new(2, 7), Point::new(1, 7)]
    );
    assert_eq!(s.len(), 3);
    assert_eq!(*s.head(), Point::new(3, 7));
    assert_eq!(s.direction(), Direction::Right);
    assert!(!s.is_dead());
}

#[test]
fn new_builds_tail_behind_head_other_directions() {
    let up = Snake::new(Point::new(5, 5), 2, Direction::Up);
    assert_eq!(
        body_of(&up),
        vec![Point::new(5, 5), Point::new(5, 4), Point::new(5, 3)]
    );
    let down = Snake::new(Point::new(5, 5), 2, Direction::Down);
    assert_eq!(
        body_of(&down),
        vec![Point::new(5, 5), Point::new(5, 6), Point::new(5, 7)]
    );
    let left = Snake::new(Point::new(5, 5), 2, Direction::Left);
    assert_eq!(
        body_of(&left),
        vec![Point::new(5, 5), Point::new(6, 5), Point::new(7, 5)]
    );
}

#[test]
fn turn_non_reversal_takes_effect() {
    let mut s = Snake::new(Point::new(3, 7), 2, Direction::Right);
    s.turn(Direction::Up);
    assert_eq!(s.direction(), Direction::Up);
    s.turn(Direction::Left);
    assert_eq!(s.direction(), Direction::Left);
    s.turn(Direction::Left);
    assert_eq!(s.direction(), Direction::Left);
}

#[test]
fn turn_reversal_is_ignored() {
    let mut s = Snake::new(Point::new(3, 7), 2, Direction::Right);
    s.turn(Direction::Left);
    assert_eq!(s.direction(), Direction::Right);
    let mut u = Snake::new(Point::new(3, 7), 2, Direction::Up);
    u.turn(Direction::Down);
    assert_eq!(u.direction(), Direction::Up);
}

#[test]
fn step_moves_head_and_keeps_length() {
    let mut s = Snake::new(Point::new(3, 7), 2, Direction::Right);
    s.step();
    assert_eq!(
        body_of(&s),
        vec![Point::new(4, 7), Point::new(3, 7), Point::new(2, 7)]
    );
    assert_eq!(s.len(), 3);
    s.turn(Direction::Up);
    s.step();
    assert_eq!(
        body_of(&s),
        vec![Point::new(4, 8), Point::new(4, 7), Point::new(3, 7)]
    );
    assert_eq!(s.len(), 3);
}

#[test]
fn grow_adds_one_segment_on_next_step_only() {
    let mut s = Snake::new(Point::new(3, 7), 2, Direction::Right);
    s.grow();
    assert!(s.is_growing());
    s.step();
    assert_eq!(s.len(), 4);
    assert!(!s.is_growing());
    assert_eq!(
        body_of(&s),
        vec![
            Point::new(4, 7),
            Point::new(3, 7),
            Point::new(2, 7),
            Point::new(1, 7)
        ]
    );
    s.step();
    assert_eq!(s.len(), 4);
}

#[test]
fn straight_snake_never_dies() {
    let mut s = Snake::new(Point::new(0, 0), 10, Direction::Right);
    for _ in 0..20 {
        s.step();
        assert!(!s.is_dead());
    }
    assert_eq!(s.len(), 11);
    assert_eq!(*s.head(), Point::new(20, 0));
}

#[test]
fn tight_loop_snake_dies() {
    // Length 5, turning down, left, then up: the head would land on the
    // fourth segment, which is not the tail-end, so the snake dies in place.
    let mut s = Snake::new(Point::new(0, 0), 4, Direction::Right);
    s.turn(Direction::Down);
    s.step();
    s.turn(Direction::Left);
    s.step();
    let before = body_of(&s);
    assert_eq!(
        before,
        vec![
            Point::new(-1, -1),
            Point::new(0, -1),
            Point::new(0, 0),
            Point::new(-1, 0),
            Point::new(-2, 0)
        ]
    );
    s.turn(Direction::Up);
    s.step();
    assert!(s.is_dead());
    assert_eq!(body_of(&s), before);
    assert_eq!(s.len(), 5);
}

#[test]
fn tail_chase_survives() {
    // Length 4 in a tight square: the head aims at the tail-end, which is
    // vacated on the same step, so no collision is detected.
    let mut s = Snake::new(Point::new(0, 0), 3, Direction::Right);
    s.turn(Direction::Down);
    s.step();
    s.turn(Direction::Left);
    s.step();
    s.turn(Direction::Up);
    s.step();
    assert!(!s.is_dead());
    assert_eq!(
        body_of(&s),
        vec![
            Point::new(-1, 0),
            Point::new(-1, -1),
            Point::new(0, -1),
            Point::new(0, 0)
        ]
    );
}

#[test]
fn growing_snake_dies_on_tail_cell() {
    // Same square as the tail chase, but with growth pending: the tail-end
    // stays put this step, so running into it is a real collision.
    let mut s = Snake::new(Point::new(0, 0), 3, Direction::Right);
    s.turn(Direction::Down);
    s.step();
    s.turn(Direction::Left);
    s.step();
    s.grow();
    s.turn(Direction::Up);
    let before = body_of(&s);
    s.step();
    assert!(s.is_dead());
    assert_eq!(body_of(&s), before);
}

#[test]
fn from_index_decodes_ordinals() {
    assert_eq!(Direction::from_index(0), Direction::Up);
    assert_eq!(Direction::from_index(1), Direction::Right);
    assert_eq!(Direction::from_index(2), Direction::Down);
    assert_eq!(Direction::from_index(3), Direction::Left);
}

#[test]
fn opposites_pair_up() {
    assert_eq!(Direction::Up.opposite(), Direction::Down);
    assert_eq!(Direction::Down.opposite(), Direction::Up);
    assert_eq!(Direction::Right.opposite(), Direction::Left);
    assert_eq!(Direction::Left.opposite(), Direction::Right);
}

#[test]
fn default_direction_is_right() {
    assert_eq!(Direction::default(), Direction::Right);
}

#[test]
fn body_view_matches_body_points() {
    let s = Snake::new(Point::new(2, 2), 2, Direction::Up);
    let deque: &VecDeque<Point> = s.body();
    let points = s.body_points();
    assert_eq!(deque.len(), points.len());
    for (i, p) in points.iter().enumerate() {
        assert_eq!(deque[i], *p);
    }
}
