use std::collections::VecDeque;

use vstd::prelude::*;

use crate::point::Point;

verus! {

/// One of the four facing directions. `Up` means increasing `y`, `Right`
/// means increasing `x`.
#[derive(Clone, Copy, PartialEq, Eq, Structural, Debug)]
pub enum Direction {
    Up,
    Right,
    Down,
    Left,
}

impl Direction {
    /// The direction pointing the opposite way.
    pub open spec fn spec_opposite(self) -> Direction {
        match self {
            Direction::Up => Direction::Down,
            Direction::Right => Direction::Left,
            Direction::Down => Direction::Up,
            Direction::Left => Direction::Right,
        }
    }

    #[verifier::when_used_as_spec(spec_opposite)]
    pub fn opposite(self) -> (r: Direction)
        ensures
            r == self.spec_opposite(),
    {
        match self {
            Direction::Up => Direction::Down,
            Direction::Right => Direction::Left,
            Direction::Down => Direction::Up,
            Direction::Left => Direction::Right,
        }
    }

    /// Position of this direction in the fixed order `Up`, `Right`, `Down`,
    /// `Left`; the order actions are numbered in.
    pub open spec fn ordinal(self) -> int {
        match self {
            Direction::Up => 0,
            Direction::Right => 1,
            Direction::Down => 2,
            Direction::Left => 3,
        }
    }

    /// Decodes a direction from its ordinal.
    pub fn from_index(value: isize) -> (r: Direction)
        requires
            0 <= value < 4,
        ensures
            r.ordinal() == value,
    {
        if value == 0 {
            Direction::Up
        } else if value == 1 {
            Direction::Right
        } else if value == 2 {
            Direction::Down
        } else {
            Direction::Left
        }
    }
}

impl Default for Direction {
    /// A snake faces `Right` unless told otherwise.
    fn default() -> (r: Self)
        ensures
            r == Direction::Right,
    {
        Direction::Right
    }
}

/// The mathematical model of a [`Snake`]: the body as a sequence of cells,
/// head first, plus the facing direction and the two flags.
#[verifier::ext_equal]
pub struct SnakeView {
    pub body: Seq<Point>,
    pub direction: Direction,
    pub is_growing: bool,
    pub is_dead: bool,
}

impl SnakeView {
    /// A snake's body is never empty and never passes through a cell twice.
    pub open spec fn wf(self) -> bool {
        &&& self.body.len() >= 1
        &&& self.body.no_duplicates()
    }

    pub open spec fn head(self) -> Point {
        self.body[0]
    }

    /// The cell the head moves into on the next step: one unit along the
    /// facing direction.
    pub open spec fn next_head(self) -> Point {
        match self.direction {
            Direction::Up => Point { x: self.head().x, y: (self.head().y + 1) as isize },
            Direction::Right => Point { x: (self.head().x + 1) as isize, y: self.head().y },
            Direction::Down => Point { x: self.head().x, y: (self.head().y - 1) as isize },
            Direction::Left => Point { x: (self.head().x - 1) as isize, y: self.head().y },
        }
    }

    /// The next head coordinate stays representable, so a step cannot wrap
    /// around the integer range.
    pub open spec fn can_move(self) -> bool {
        match self.direction {
            Direction::Up => self.head().y < isize::MAX,
            Direction::Right => self.head().x < isize::MAX,
            Direction::Down => self.head().y > isize::MIN,
            Direction::Left => self.head().x > isize::MIN,
        }
    }

    /// How many leading body segments the new head is checked against.
    /// The tail-end is about to be vacated this step and is therefore
    /// excluded — unless the snake is growing, in which case the tail-end
    /// stays put and running into it is a real collision.
    pub open spec fn collision_limit(self) -> int {
        if self.is_growing {
            self.body.len() as int
        } else {
            self.body.len() - 1
        }
    }

    /// Whether the next step would land the head on the snake's own body.
    pub open spec fn hits_self(self) -> bool {
        exists|j: int| 0 <= j < self.collision_limit() && self.body[j] == self.next_head()
    }

    /// The snake after a turn request: a request for the exact opposite of
    /// the current direction is ignored, anything else is taken.
    pub open spec fn turned(self, requested: Direction) -> SnakeView {
        if requested == self.direction.spec_opposite() {
            self
        } else {
            SnakeView { direction: requested, ..self }
        }
    }

    /// The snake after its growth flag is set.
    pub open spec fn grown(self) -> SnakeView {
        SnakeView { is_growing: true, ..self }
    }

    /// The snake after one step: on a self-collision it is marked dead and
    /// left in place; otherwise the new head is pushed in front and the
    /// tail-end is dropped, except that a pending growth keeps the tail-end
    /// and consumes the flag.
    pub open spec fn stepped(self) -> SnakeView {
        if self.hits_self() {
            SnakeView { is_dead: true, ..self }
        } else if self.is_growing {
            SnakeView { body: seq![self.next_head()] + self.body, is_growing: false, ..self }
        } else {
            SnakeView { body: (seq![self.next_head()] + self.body).drop_last(), ..self }
        }
    }

    /// The whole body lies in a straight line trailing the head, against the
    /// facing direction — the shape [`Snake::new`] builds.
    pub open spec fn is_straight(self) -> bool {
        match self.direction {
            Direction::Up => forall|i: int|
                0 <= i < self.body.len() ==> #[trigger] self.body[i] == Point {
                    x: self.head().x,
                    y: (self.head().y - i) as isize,
                } && self.head().y - i >= isize::MIN,
            Direction::Right => forall|i: int|
                0 <= i < self.body.len() ==> #[trigger] self.body[i] == Point {
                    x: (self.head().x - i) as isize,
                    y: self.head().y,
                } && self.head().x - i >= isize::MIN,
            Direction::Down => forall|i: int|
                0 <= i < self.body.len() ==> #[trigger] self.body[i] == Point {
                    x: self.head().x,
                    y: (self.head().y + i) as isize,
                } && self.head().y + i <= isize::MAX,
            Direction::Left => forall|i: int|
                0 <= i < self.body.len() ==> #[trigger] self.body[i] == Point {
                    x: (self.head().x + i) as isize,
                    y: self.head().y,
                } && self.head().x + i <= isize::MAX,
        }
    }
}

/// A snake: an ordered body of grid cells (front is the head), a facing
/// direction, a one-shot growth flag, and a terminal death flag.
#[derive(Debug, Clone)]
pub struct Snake {
    body: VecDeque<Point>,
    direction: Direction,
    is_growing: bool,
    is_dead: bool,
}

impl View for Snake {
    type V = SnakeView;

    closed spec fn view(&self) -> SnakeView {
        SnakeView {
            body: self.body@,
            direction: self.direction,
            is_growing: self.is_growing,
            is_dead: self.is_dead,
        }
    }
}

impl Snake {
    /// Builds a snake of `tail_length + 1` cells: the head, and each further
    /// segment one unit further behind it, against `direction`. Grid bounds
    /// are the caller's responsibility; the coordinate range is not.
    pub fn new(head: Point, tail_length: usize, direction: Direction) -> (r: Snake)
        requires
            tail_length <= isize::MAX,
            match direction {
                Direction::Up => head.y - tail_length >= isize::MIN,
                Direction::Right => head.x - tail_length >= isize::MIN,
                Direction::Down => head.y + tail_length <= isize::MAX,
                Direction::Left => head.x + tail_length <= isize::MAX,
            },
        ensures
            r@.wf(),
            r@.body.len() == tail_length + 1,
            r@.head() == head,
            r@.direction == direction,
            !r@.is_growing,
            !r@.is_dead,
            r@.is_straight(),
    {
        let mut body: VecDeque<Point> = VecDeque::with_capacity(tail_length + 1);
        body.push_front(head);

        let mut i: usize = 1;
        while i <= tail_length
            invariant
                1 <= i <= tail_length + 1,
                tail_length <= isize::MAX,
                match direction {
                    Direction::Up => head.y - tail_length >= isize::MIN,
                    Direction::Right => head.x - tail_length >= isize::MIN,
                    Direction::Down => head.y + tail_length <= isize::MAX,
                    Direction::Left => head.x + tail_length <= isize::MAX,
                },
                body@.len() == i,
                body@[0] == head,
                forall|j: int|
                    0 <= j < i ==> #[trigger] body@[j] == (match direction {
                        Direction::Up => Point { x: head.x, y: (head.y - j) as isize },
                        Direction::Right => Point { x: (head.x - j) as isize, y: head.y },
                        Direction::Down => Point { x: head.x, y: (head.y + j) as isize },
                        Direction::Left => Point { x: (head.x + j) as isize, y: head.y },
                    }),
            decreases tail_length + 1 - i,
        {
            let offset = i as isize;
            let point = match direction {
                Direction::Up => Point::new(head.x, head.y - offset),
                Direction::Right => Point::new(head.x - offset, head.y),
                Direction::Down => Point::new(head.x, head.y + offset),
                Direction::Left => Point::new(head.x + offset, head.y),
            };
            body.push_back(point);
            i += 1;
        }

        proof {
            assert forall|p: int, q: int|
                0 <= p < body@.len() && 0 <= q < body@.len() && p != q implies body@[p]
                != body@[q] by {
                match direction {
                    Direction::Up => assert(body@[p].y != body@[q].y),
                    Direction::Right => assert(body@[p].x != body@[q].x),
                    Direction::Down => assert(body@[p].y != body@[q].y),
                    Direction::Left => assert(body@[p].x != body@[q].x),
                }
            }
            assert(body@.no_duplicates());
        }

        Snake { body, direction, is_growing: false, is_dead: false }
    }

    /// The front of the body.
    pub fn head(&self) -> (r: &Point)
        requires
            self@.body.len() >= 1,
        ensures
            *r == self@.head(),
    {
        &self.body[0]
    }

    /// The full body, head first.
    pub fn body(&self) -> (r: &VecDeque<Point>)
        ensures
            r@ == self@.body,
    {
        &self.body
    }

    /// The body as a vector, head first.
    pub fn body_points(&self) -> (v: Vec<Point>)
        ensures
            v@ == self@.body,
    {
        let mut v: Vec<Point> = Vec::new();
        let mut i: usize = 0;
        while i < self.body.len()
            invariant
                0 <= i <= self@.body.len(),
                v@ == self@.body.subrange(0, i as int),
            decreases self@.body.len() - i,
        {
            v.push(self.body[i]);
            proof {
                assert(v@ =~= self@.body.subrange(0, i + 1));
            }
            i += 1;
        }
        proof {
            assert(v@ =~= self@.body);
        }
        v
    }

    /// Number of body segments.
    pub fn len(&self) -> (r: usize)
        ensures
            r == self@.body.len(),
    {
        self.body.len()
    }

    pub fn direction(&self) -> (r: Direction)
        ensures
            r == self@.direction,
    {
        self.direction
    }

    pub fn is_dead(&self) -> (r: bool)
        ensures
            r == self@.is_dead,
    {
        self.is_dead
    }

    /// Sets the one-shot growth flag; it takes effect on the next step.
    pub fn grow(&mut self)
        ensures
            final(self)@ == old(self)@.grown(),
    {
        self.is_growing = true;
    }

    pub fn is_growing(&self) -> (r: bool)
        ensures
            r == self@.is_growing,
    {
        self.is_growing
    }

    /// Changes the facing direction, unless the request is the exact
    /// opposite of the current direction: reversing would drive the head
    /// straight into the neck, so such a request is silently ignored.
    pub fn turn(&mut self, requested: Direction)
        ensures
            final(self)@ == old(self)@.turned(requested),
            requested != old(self)@.direction.spec_opposite() ==> final(self)@.direction
                == requested,
            requested == old(self)@.direction.spec_opposite() ==> final(self)@.direction == old(
                self,
            )@.direction,
            final(self)@.body == old(self)@.body,
    {
        if !(requested == self.direction.opposite()) {
            self.direction = requested;
        }
    }

    /// Advances the snake one cell along its facing direction, per
    /// [`SnakeView::stepped`]: a self-collision only marks the snake dead;
    /// otherwise the body moves, growing by one cell exactly when the growth
    /// flag was pending.
    pub fn step(&mut self)
        requires
            old(self)@.wf(),
            old(self)@.can_move(),
        ensures
            final(self)@ == old(self)@.stepped(),
            final(self)@.wf(),
            final(self)@.body.len() >= 1,
            old(self)@.hits_self() ==> final(self)@.body.len() == old(self)@.body.len(),
            !old(self)@.hits_self() && old(self)@.is_growing ==> final(self)@.body.len() == old(
                self,
            )@.body.len() + 1,
            !old(self)@.hits_self() && !old(self)@.is_growing ==> final(self)@.body.len() == old(
                self,
            )@.body.len(),
    {
        let head = *self.head();
        let new_head = match self.direction {
            Direction::Up => Point::new(head.x, head.y + 1),
            Direction::Right => Point::new(head.x + 1, head.y),
            Direction::Down => Point::new(head.x, head.y - 1),
            Direction::Left => Point::new(head.x - 1, head.y),
        };
        assert(new_head == self@.next_head());

        let limit = if self.is_growing {
            self.body.len()
        } else {
            self.body.len() - 1
        };
        let mut hit = false;
        let mut j: usize = 0;
        while j < limit
            invariant
                0 <= j <= limit,
                limit == self@.collision_limit(),
                limit <= self@.body.len(),
                new_head == self@.next_head(),
                hit == exists|k: int| 0 <= k < j && self@.body[k] == self@.next_head(),
            decreases limit - j,
        {
            if self.body[j] == new_head {
                hit = true;
            }
            j += 1;
        }
        assert(hit == self@.hits_self());

        if hit {
            self.is_dead = true;
            return ;
        }

        self.body.push_front(new_head);
        if self.is_growing {
            self.is_growing = false;
        } else {
            self.body.pop_back();
            proof {
                assert(self@.body =~= (seq![old(self)@.next_head()]
                    + old(self)@.body).drop_last());
            }
        }

        proof {
            assert(final(self)@ =~= old(self)@.stepped());
            lemma_fresh_head_keeps_no_duplicates(old(self)@, final(self)@);
        }
    }
}

/// After a collision-free step the body still has no duplicate cells: the
/// retained old segments were distinct, and the new head was checked against
/// every one of them that stays.
proof fn lemma_fresh_head_keeps_no_duplicates(pre: SnakeView, post: SnakeView)
    requires
        pre.wf(),
        !pre.hits_self(),
        post == pre.stepped(),
    ensures
        post.body.no_duplicates(),
{
    assert forall|p: int, q: int|
        0 <= p < post.body.len() && 0 <= q < post.body.len() && p != q implies post.body[p]
        != post.body[q] by {
        if p != 0 && q != 0 {
            assert(pre.body[p - 1] != pre.body[q - 1]);
        }
    }
}

/// Law: a snake long enough to loop back whose next head cell is its own
/// second segment is marked dead by the step, and its body does not move.
pub proof fn lemma_step_into_second_segment_dies(s: SnakeView)
    requires
        s.wf(),
        s.body.len() >= 4,
        s.next_head() == s.body[1],
    ensures
        s.stepped().is_dead,
        s.stepped().body == s.body,
{
    assert(0 <= 1 < s.collision_limit());
    assert(s.hits_self());
}

/// Law: a straight snake never collides with itself on a step, however long
/// it is: every body cell lies strictly behind the head, while the next head
/// cell lies strictly ahead of it.
pub proof fn lemma_straight_snake_survives(s: SnakeView)
    requires
        s.wf(),
        s.is_straight(),
        s.can_move(),
        !s.is_dead,
    ensures
        !s.hits_self(),
        !s.stepped().is_dead,
{
    assert forall|j: int| 0 <= j < s.collision_limit() implies s.body[j] != s.next_head() by {
        match s.direction {
            Direction::Up => {
                assert(s.body[j].y <= s.head().y < s.next_head().y);
            },
            Direction::Right => {
                assert(s.body[j].x <= s.head().x < s.next_head().x);
            },
            Direction::Down => {
                assert(s.body[j].y >= s.head().y > s.next_head().y);
            },
            Direction::Left => {
                assert(s.body[j].x >= s.head().x > s.next_head().x);
            },
        }
    }
}

} // verus!
