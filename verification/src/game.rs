use vstd::prelude::*;

use crate::apple::Apple;
use crate::point::{in_grid, Point};
use crate::snake::{Direction, Snake, SnakeView};

verus! {

/// Lifecycle of one match. `Quit` is terminal: nothing transitions out of
/// it.
#[derive(Clone, Copy, PartialEq, Eq, Structural, Debug, Default)]
pub enum GameState {
    #[default]
    Running,
    Quit,
}

/// The mathematical model of a [`Game`].
#[verifier::ext_equal]
pub struct GameView {
    pub width: int,
    pub height: int,
    pub apple: Point,
    pub snake: SnakeView,
    pub direction: Direction,
    pub state: GameState,
}

impl GameView {
    /// Grid dimensions a match can be played on: wide enough for the fixed
    /// initial placement, and small enough that coordinates fit `isize` and
    /// the cell count fits `usize`.
    pub open spec fn grid_ok(self) -> bool {
        &&& 6 <= self.width <= isize::MAX
        &&& 1 <= self.height <= isize::MAX
        &&& self.width * self.height <= usize::MAX
    }

    /// Whether a step from `p` along `d` would leave the arena.
    pub open spec fn facing_bound(self, p: Point, d: Direction) -> bool {
        match d {
            Direction::Up => p.y == self.height - 1,
            Direction::Right => p.x == self.width - 1,
            Direction::Down => p.y == 0,
            Direction::Left => p.x == 0,
        }
    }

    pub open spec fn body_in_grid(self) -> bool {
        forall|j: int|
            0 <= j < self.snake.body.len() ==> in_grid(
                #[trigger] self.snake.body[j],
                self.width,
                self.height,
            )
    }

    /// Invariant of every reachable match state: the snake is well formed
    /// and on the grid, the apple is on the grid, and while the match runs
    /// the apple is off the snake and the snake is alive.
    pub open spec fn wf(self) -> bool {
        &&& self.grid_ok()
        &&& self.snake.wf()
        &&& self.snake.body.len() >= 3
        &&& self.body_in_grid()
        &&& in_grid(self.apple, self.width, self.height)
        &&& (self.state == GameState::Running ==> !self.snake.body.contains(self.apple))
        &&& (self.state == GameState::Running ==> !self.snake.is_dead)
    }

    /// Column of the initial apple: three quarters of the way across,
    /// written so that the arithmetic cannot overflow.
    pub open spec fn initial_apple_x(width: int) -> int {
        width - (width + 3) / 4
    }

    /// A freshly created match: the snake starts at head `(3, height / 2)`
    /// facing `Right` with two tail segments, and the apple further right
    /// on the same row.
    pub open spec fn initial(width: int, height: int) -> GameView {
        GameView {
            width,
            height,
            apple: Point {
                x: GameView::initial_apple_x(width) as isize,
                y: (height / 2) as isize,
            },
            snake: SnakeView {
                body: seq![
                    Point { x: 3, y: (height / 2) as isize },
                    Point { x: 2, y: (height / 2) as isize },
                    Point { x: 1, y: (height / 2) as isize },
                ],
                direction: Direction::Right,
                is_growing: false,
                is_dead: false,
            },
            direction: Direction::Right,
            state: GameState::Running,
        }
    }

    /// How one simulation step relates a match state to its successor; the
    /// order of rules is the one [`Game::step`] documents. The respawned
    /// apple is random, so the eaten case pins every field but the new
    /// apple, of which it says exactly what respawning guarantees.
    pub open spec fn step_rel(pre: GameView, post: GameView) -> bool {
        let s1 = pre.snake.turned(pre.direction);
        let s2 = s1.stepped();
        let s3 = s2.grown();
        &&& post.width == pre.width
        &&& post.height == pre.height
        &&& post.direction == pre.direction
        &&& if pre.facing_bound(s1.head(), s1.direction) {
            post.snake == s1 && post.state == GameState::Quit && post.apple == pre.apple
        } else if s2.is_dead {
            post.snake == s2 && post.state == GameState::Quit && post.apple == pre.apple
        } else if s2.head() == pre.apple {
            post.snake == s3 && (if s2.body.len() + 2 <= pre.width * pre.height {
                post.state == pre.state && in_grid(post.apple, pre.width, pre.height)
                    && !s3.body.contains(post.apple)
            } else {
                post.state == GameState::Quit && post.apple == pre.apple
            })
        } else {
            post.snake == s2 && post.state == pre.state && post.apple == pre.apple
        }
    }
}

/// Law: `Quit` is terminal — no simulation step leads out of it. Only
/// [`Game::reset`] starts a fresh match.
pub proof fn lemma_quit_is_terminal(pre: GameView, post: GameView)
    requires
        GameView::step_rel(pre, post),
        pre.state == GameState::Quit,
    ensures
        post.state == GameState::Quit,
{
}

/// One match: a snake, an apple, the latest turn intent not yet applied,
/// and the running/quit state, on a fixed grid.
#[derive(Debug)]
pub struct Game {
    width: usize,
    height: usize,
    apple: Apple,
    snake: Snake,
    direction: Direction,
    state: GameState,
}

impl View for Game {
    type V = GameView;

    closed spec fn view(&self) -> GameView {
        GameView {
            width: self.width as int,
            height: self.height as int,
            apple: self.apple@,
            snake: self.snake@,
            direction: self.direction,
            state: self.state,
        }
    }
}

impl Game {
    /// Starts a match on a `width` by `height` grid, in the fixed initial
    /// position of [`GameView::initial`].
    pub fn new(width: usize, height: usize) -> (r: Game)
        requires
            6 <= width <= isize::MAX,
            1 <= height <= isize::MAX,
            width * height <= usize::MAX,
        ensures
            r@ == GameView::initial(width as int, height as int),
            r@.wf(),
    {
        let mid = (height / 2) as isize;
        let apple_x = width - (width + 3) / 4;
        let apple = Apple::from(Point::new(apple_x as isize, mid));
        let snake = Snake::new(Point::new(3, mid), 2, Direction::default());
        let r = Game {
            width,
            height,
            apple,
            snake,
            direction: Direction::default(),
            state: GameState::Running,
        };
        proof {
            let init = GameView::initial(width as int, height as int);
            assert(r@.snake.body =~= init.snake.body);
            assert(r@ =~= init);
            assert(4 <= init.apple.x < width);
            assert(!init.snake.body.contains(init.apple));
        }
        r
    }

    pub fn width(&self) -> (r: usize)
        ensures
            r == self@.width,
    {
        self.width
    }

    pub fn height(&self) -> (r: usize)
        ensures
            r == self@.height,
    {
        self.height
    }

    /// The snake, for reading; drawing reads it through this.
    pub fn snake(&self) -> (r: &Snake)
        ensures
            r@ == self@.snake,
    {
        &self.snake
    }

    /// The apple, for reading.
    pub fn apple(&self) -> (r: &Apple)
        ensures
            r@ == self@.apple,
    {
        &self.apple
    }

    pub fn is_running(&self) -> (r: bool)
        ensures
            r == (self@.state == GameState::Running),
    {
        match self.state {
            GameState::Running => true,
            GameState::Quit => false,
        }
    }

    /// Environment-style alias of [`Game::is_running`].
    pub fn is_active(&self) -> (r: bool)
        ensures
            r == (self@.state == GameState::Running),
    {
        self.is_running()
    }

    /// Growth since the start of the match.
    pub fn score(&self) -> (r: usize)
        requires
            self@.snake.body.len() >= 3,
        ensures
            r == self@.snake.body.len() - 3,
    {
        self.snake.len() - 3
    }

    /// Records a turn intent; it is applied on the next step, where the
    /// reversal guard still has the last word.
    pub fn set_direction(&mut self, direction: Direction)
        ensures
            final(self)@ == (GameView { direction, ..old(self)@ }),
            old(self)@.wf() ==> final(self)@.wf(),
    {
        self.direction = direction;
    }

    /// Ends the match.
    pub fn quit(&mut self)
        ensures
            final(self)@ == (GameView { state: GameState::Quit, ..old(self)@ }),
            old(self)@.wf() ==> final(self)@.wf(),
    {
        self.state = GameState::Quit;
    }

    /// Puts the match back in its initial position on the same grid.
    pub fn reset(&mut self)
        requires
            old(self)@.grid_ok(),
        ensures
            final(self)@ == GameView::initial(old(self)@.width, old(self)@.height),
            final(self)@.wf(),
    {
        *self = Game::new(self.width, self.height);
    }

    /// The numeric observation a training harness reads: apple position,
    /// then head position.
    pub fn observation(&self) -> (r: (isize, isize, isize, isize))
        requires
            self@.snake.body.len() >= 1,
        ensures
            r == (self@.apple.x, self@.apple.y, self@.snake.head().x, self@.snake.head().y),
    {
        let apple = self.apple.position();
        let head = self.snake.head();
        (apple.x, apple.y, head.x, head.y)
    }

    /// Every direction, in ordinal order: the action set of the match seen
    /// as an environment.
    pub fn actions(&self) -> (r: Vec<Direction>)
        ensures
            r@ == seq![Direction::Up, Direction::Right, Direction::Down, Direction::Left],
    {
        let r = vec![Direction::Up, Direction::Right, Direction::Down, Direction::Left];
        proof {
            assert(r@ =~= seq![Direction::Up, Direction::Right, Direction::Down, Direction::Left]);
        }
        r
    }

    /// A uniformly random direction; nothing more can be promised of a
    /// random draw.
    pub fn random_action(&self) -> Direction {
        let idx = crate::rng::random_usize_in(0, 4);
        Direction::from_index(idx as isize)
    }

    /// Whether a step from `point` along `direction` would leave the arena.
    fn is_facing_bound(&self, point: &Point, direction: Direction) -> (r: bool)
        requires
            self@.grid_ok(),
        ensures
            r == self@.facing_bound(*point, direction),
    {
        match direction {
            Direction::Up => point.y == (self.height as isize) - 1,
            Direction::Right => point.x == (self.width as isize) - 1,
            Direction::Down => point.y == 0,
            Direction::Left => point.x == 0,
        }
    }

    /// Replaces the apple by a respawned one that avoids the snake's body.
    fn spawn_apple(&mut self)
        requires
            old(self)@.grid_ok(),
            old(self)@.snake.wf(),
            old(self)@.snake.body.len() + 2 <= old(self)@.width * old(self)@.height,
        ensures
            final(self)@.width == old(self)@.width,
            final(self)@.height == old(self)@.height,
            final(self)@.snake == old(self)@.snake,
            final(self)@.direction == old(self)@.direction,
            final(self)@.state == old(self)@.state,
            in_grid(final(self)@.apple, old(self)@.width, old(self)@.height),
            !old(self)@.snake.body.contains(final(self)@.apple),
    {
        let apple = Apple::new(self.snake.body(), self.width, self.height);
        self.apple = apple;
    }

    /// One simulation step, in this order: apply the pending turn; end the
    /// match if the head faces the arena bound; advance the snake; end the
    /// match if it died of a self-collision; if it reached the apple, set
    /// the growth flag and respawn the apple off the body — unless fewer
    /// than two cells would stay free, which ends the match as a win.
    pub fn step(&mut self)
        requires
            old(self)@.wf(),
        ensures
            final(self)@.wf(),
            GameView::step_rel(old(self)@, final(self)@),
    {
        let ghost pre = old(self)@;
        let pending = self.direction;
        self.snake.turn(pending);
        let ghost s1 = self.snake@;

        let head = *self.snake.head();
        let dir = self.snake.direction();
        if self.is_facing_bound(&head, dir) {
            self.state = GameState::Quit;
            return ;
        }

        proof {
            assert(in_grid(s1.body[0], pre.width, pre.height));
            assert(s1.can_move());
        }
        self.snake.step();
        let ghost s2 = self.snake@;
        proof {
            assert(in_grid(s1.next_head(), pre.width, pre.height));
            assert forall|j: int| 0 <= j < s2.body.len() implies in_grid(
                #[trigger] s2.body[j],
                pre.width,
                pre.height,
            ) by {
                if !s1.hits_self() && j > 0 {
                    assert(s2.body[j] == s1.body[j - 1]);
                }
            }
        }

        if self.snake.is_dead() {
            self.state = GameState::Quit;
            return ;
        }

        let eaten = *self.snake.head() == *self.apple.position();
        if eaten {
            self.snake.grow();
            let total = self.width * self.height;
            proof {
                assert(total >= 6) by (nonlinear_arith)
                    requires
                        total == pre.width * pre.height,
                        pre.width >= 6,
                        pre.height >= 1,
                ;
            }
            if self.snake.len() <= total - 2 {
                self.spawn_apple();
            } else {
                self.state = GameState::Quit;
            }
        } else {
            proof {
                if pre.state == GameState::Running {
                    assert forall|j: int|
                        0 <= j < s2.body.len() implies #[trigger] s2.body[j] != pre.apple by {
                        if j == 0 {
                            assert(s2.body[0] == s2.head());
                        } else {
                            assert(s2.body[j] == s1.body[j - 1]);
                            assert(pre.snake.body.contains(pre.snake.body[j - 1]));
                        }
                    }
                    assert(!s2.body.contains(pre.apple));
                }
            }
        }
    }
}

} // verus!
