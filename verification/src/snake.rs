use vstd::prelude::*;

use crate::ring_buffer::RingBuffer;
use rand::Rng;

verus! {

/// A cell of the grid.
#[derive(Debug, Clone, Copy)]
pub struct Coord {
    pub x: usize,
    pub y: usize,
}

impl PartialEq for Coord {
    fn eq(&self, other: &Coord) -> (r: bool) {
        self.x == other.x && self.y == other.y
    }
}

impl vstd::std_specs::cmp::PartialEqSpecImpl for Coord {
    open spec fn obeys_eq_spec() -> bool {
        true
    }

    open spec fn eq_spec(&self, other: &Coord) -> bool {
        self.x == other.x && self.y == other.y
    }
}

/// A direction the snake can be steered in; also the discrete action space
/// of the learning agent.
#[derive(Debug, Copy, Clone, Eq, PartialEq, Structural)]
pub enum Direction {
    Left,
    Right,
    Up,
    Down,
}

#[derive(Debug, Eq, PartialEq, Clone, Structural)]
pub enum GameState {
    Running,
    GameOver,
}

/// What one step of the game reports back to the caller.
#[derive(Debug, Eq, PartialEq, Clone, Structural)]
pub enum TickResult {
    Moved,
    GameOver,
    Apple,
}

/// Relies on rand's `Rng::gen_range` over `0..n`: the sample lies in that
/// half-open range, which is non-empty because `n > 0`.
#[verifier::external_body]
fn random_below(n: usize) -> (r: usize)
    requires
        0 < n,
    ensures
        r < n,
{
    rand::thread_rng().gen_range(0..n)
}

/// The snake game: a grid of `width` by `height` cells, a snake whose body
/// occupies the cells held by `snake_path`, and one apple.
#[derive(Debug, Clone)]
pub struct Snake {
    pub width: usize,
    pub height: usize,
    pub apple: Coord,
    pub snake_path: RingBuffer<Coord>,
    pub last_direction: Direction,
    pub state: GameState,
}

impl Snake {
    /// The body buffer is well formed and permanently full (every push
    /// evicts the oldest segment), the apple lies on the grid, and every
    /// body cell is horizontally on the grid and vertically at most one
    /// row beyond it (the freshly spawned tail may start there).
    pub open spec fn wf(self) -> bool {
        &&& self.snake_path.wf()
        &&& self.snake_path.buffer.len() == self.snake_path.size
        &&& self.apple.x < self.width
        &&& self.apple.y < self.height
        &&& forall|i: int|
            0 <= i < self.snake_path.buffer.len() ==> (#[trigger] self.snake_path.buffer[i]).x
                < self.width && self.snake_path.buffer[i].y <= self.height
        &&& self.height < usize::MAX
    }

    /// The cell the snake's head occupies.
    pub open spec fn head(self) -> Coord {
        self.snake_path.spec_first().unwrap()
    }

    /// Whether moving the head along `direction` would leave the grid
    /// through its top or left edge, where the coordinates run out.
    pub open spec fn spec_blocked(self, direction: Direction) -> bool {
        ||| direction == Direction::Up && self.head().y == 0
        ||| direction == Direction::Left && self.head().x == 0
    }

    /// The cell the head moves to (meaningful when not blocked).
    pub open spec fn spec_next_head(self, direction: Direction) -> Coord {
        let h = self.head();
        match direction {
            Direction::Up => Coord { x: h.x, y: (h.y - 1) as usize },
            Direction::Down => Coord { x: h.x, y: (h.y + 1) as usize },
            Direction::Left => Coord { x: (h.x - 1) as usize, y: h.y },
            Direction::Right => Coord { x: (h.x + 1) as usize, y: h.y },
        }
    }

    /// Whether the move runs off the right or bottom edge of the grid.
    pub open spec fn spec_leaves_grid(self, direction: Direction) -> bool {
        ||| self.spec_next_head(direction).x >= self.width
        ||| self.spec_next_head(direction).y >= self.height
    }

    /// Whether the move runs into the snake's own body.
    pub open spec fn spec_collides(self, direction: Direction) -> bool {
        self.snake_path.spec_contains(self.spec_next_head(direction))
    }

    /// Whether the move lands on the apple.
    pub open spec fn spec_eats_apple(self, direction: Direction) -> bool {
        self.spec_next_head(direction) == self.apple
    }

    /// The body cells after an apple is eaten: the tail cell is tripled
    /// (three segments of growth), then the head advances, overwriting the
    /// slot at the write cursor.
    pub open spec fn spec_grown_path(self, direction: Direction) -> Seq<Coord> {
        let e = self.snake_path.end as int;
        let t = self.snake_path.buffer[e];
        self.snake_path.buffer@.insert(e, t).insert(e, t).insert(e, t).update(
            e,
            self.spec_next_head(direction),
        )
    }

    /// One if the cell carries a segment of the snake's body.
    pub open spec fn spec_body_flag(self, c: Coord) -> u8 {
        if self.snake_path.spec_contains(c) {
            1u8
        } else {
            0u8
        }
    }

    /// One if the cell carries the apple.
    pub open spec fn spec_apple_flag(self, c: Coord) -> u8 {
        if c == self.apple {
            1u8
        } else {
            0u8
        }
    }

    /// One if the cell carries the snake's head.
    pub open spec fn spec_head_flag(self, c: Coord) -> u8 {
        if c == self.head() {
            1u8
        } else {
            0u8
        }
    }

    /// The grid flattened row by row into three flags per cell: body,
    /// apple, head.
    pub open spec fn spec_observation(self) -> Seq<u8> {
        Seq::new(
            (3 * self.width * self.height) as nat,
            |i: int|
                {
                    let cell = i / 3;
                    let c = Coord {
                        x: (cell % (self.width as int)) as usize,
                        y: (cell / (self.width as int)) as usize,
                    };
                    if i % 3 == 0 {
                        self.spec_body_flag(c)
                    } else if i % 3 == 1 {
                        self.spec_apple_flag(c)
                    } else {
                        self.spec_head_flag(c)
                    }
                },
        )
    }

    pub fn new(width: usize, height: usize) -> (s: Self)
        requires
            1 <= width,
            2 <= height,
            2 <= width || 4 <= height,
            height < usize::MAX,
            width * height <= usize::MAX,
        ensures
            s.wf(),
            s.width == width,
            s.height == height,
            s.state == GameState::Running,
            s.last_direction == Direction::Down,
            s.snake_path.size == 3,
            s.snake_path.start == 1,
            s.snake_path.end == 0,
            s.snake_path.buffer@ == seq![
                (Coord { x: width / 2, y: (height / 2 - 1) as usize }),
                (Coord { x: width / 2, y: height / 2 }),
                (Coord { x: width / 2, y: (height / 2 + 1) as usize }),
            ],
            !s.snake_path.spec_contains(s.apple),
    {
        let half_width = width / 2;
        let half_height = height / 2;

        proof {
            assert(width / 2 < width && 1 <= height / 2 && height / 2 + 1 <= height)
                by (nonlinear_arith)
                requires
                    1 <= width,
                    2 <= height,
            ;
        }

        let mut snake_path = RingBuffer::new(width * height, 3);
        snake_path.push(Coord { x: half_width, y: half_height - 1 });
        snake_path.push(Coord { x: half_width, y: half_height });
        snake_path.push(Coord { x: half_width, y: half_height + 1 });

        proof {
            assert(snake_path.buffer@ =~= seq![
                (Coord { x: width / 2, y: (height / 2 - 1) as usize }),
                (Coord { x: width / 2, y: height / 2 }),
                (Coord { x: width / 2, y: (height / 2 + 1) as usize }),
            ]);
        }

        proof {
            // The origin cell misses the initial body: its segments sit at
            // column `width / 2`, which is positive on a grid at least two
            // wide, and at rows `height / 2 - 1` and below, which are
            // positive on a grid at least four tall.
            let origin = Coord { x: 0, y: 0 };
            assert(2 <= width ==> 1 <= width / 2) by (nonlinear_arith);
            assert(4 <= height ==> 2 <= height / 2) by (nonlinear_arith);
            assert(origin.x < width && origin.y < height && !snake_path.spec_contains(origin));
        }
        let apple = Self::new_apple(&snake_path, width, height);

        Self {
            width,
            height,
            apple,
            snake_path,
            last_direction: Direction::Down,
            state: GameState::Running,
        }
    }

    /// Picks a cell uniformly at random among the grid cells that miss the
    /// snake's body.
    fn new_apple(snake_path: &RingBuffer<Coord>, width: usize, height: usize) -> (apple: Coord)
        requires
            0 < width,
            0 < height,
            exists|c: Coord| c.x < width && c.y < height && !snake_path.spec_contains(c),
        ensures
            apple.x < width,
            apple.y < height,
            !snake_path.spec_contains(apple),
    {
        let mut free_cells: Vec<Coord> = Vec::new();

        let mut y: usize = 0;
        while y < height
            invariant
                y <= height,
                forall|j: int|
                    0 <= j < free_cells.len() ==> (#[trigger] free_cells[j]).x < width
                        && free_cells[j].y < height && !snake_path.spec_contains(free_cells[j]),
                forall|c: Coord|
                    c.x < width && c.y < y && !snake_path.spec_contains(c)
                        ==> free_cells@.contains(c),
            decreases height - y,
        {
            let mut x: usize = 0;
            while x < width
                invariant
                    x <= width,
                    y < height,
                    forall|j: int|
                        0 <= j < free_cells.len() ==> (#[trigger] free_cells[j]).x < width
                            && free_cells[j].y < height && !snake_path.spec_contains(
                            free_cells[j],
                        ),
                    forall|c: Coord|
                        c.x < width && c.y < y && !snake_path.spec_contains(c)
                            ==> free_cells@.contains(c),
                    forall|c: Coord|
                        c.x < x && c.y == y && !snake_path.spec_contains(c)
                            ==> free_cells@.contains(c),
                decreases width - x,
            {
                let cell = Coord { x, y };
                if !snake_path.contains(&cell) {
                    let ghost before = free_cells@;
                    free_cells.push(cell);
                    proof {
                        assert(free_cells@[before.len() as int] == cell);
                        assert forall|c: Coord| before.contains(c) implies free_cells@.contains(
                            c,
                        ) by {
                            let i = choose|i: int| 0 <= i < before.len() && before[i] == c;
                            assert(free_cells@[i] == c);
                        }
                    }
                }
                x += 1;
            }
            y += 1;
        }

        proof {
            let c = choose|c: Coord|
                c.x < width && c.y < height && !snake_path.spec_contains(c);
            assert(free_cells@.contains(c));
        }
        let idx = random_below(free_cells.len());
        free_cells[idx]
    }

    pub fn tick(&mut self, direction: Direction) -> (r: TickResult)
        requires
            old(self).wf(),
            old(self).snake_path.size <= usize::MAX - 3,
        ensures
            final(self).wf(),
            final(self).width == old(self).width,
            final(self).height == old(self).height,
            (if old(self).spec_blocked(direction) {
                &&& r == TickResult::GameOver
                &&& final(self).state == GameState::GameOver
                &&& final(self).snake_path == old(self).snake_path
                &&& final(self).apple == old(self).apple
                &&& final(self).last_direction == old(self).last_direction
            } else if old(self).spec_leaves_grid(direction) || old(self).spec_collides(
                direction,
            ) {
                &&& r == TickResult::GameOver
                &&& final(self).state == GameState::GameOver
                &&& final(self).snake_path == old(self).snake_path
                &&& final(self).apple == old(self).apple
                &&& final(self).last_direction == direction
            } else if old(self).spec_eats_apple(direction) {
                &&& r == TickResult::Apple
                &&& final(self).state == old(self).state
                &&& final(self).last_direction == direction
                &&& final(self).apple.x < old(self).width
                &&& final(self).apple.y < old(self).height
                &&& !old(self).snake_path.spec_contains(final(self).apple)
                &&& final(self).snake_path.size == old(self).snake_path.size + 3
                &&& final(self).snake_path.buffer@ == old(self).spec_grown_path(direction)
                &&& final(self).snake_path.end == old(self).snake_path.end + 1
                &&& final(self).snake_path.start == (if old(self).snake_path.end + 1 == old(
                    self,
                ).snake_path.start {
                    old(self).snake_path.start + 1
                } else {
                    old(self).snake_path.start as int
                })
            } else {
                &&& r == TickResult::Moved
                &&& final(self).state == old(self).state
                &&& final(self).last_direction == direction
                &&& final(self).apple == old(self).apple
                &&& final(self).snake_path.size == old(self).snake_path.size
                &&& final(self).snake_path.buffer@ == old(self).snake_path.buffer@.update(
                    old(self).snake_path.end as int,
                    old(self).spec_next_head(direction),
                )
                &&& final(self).snake_path.end == old(self).snake_path.end_after_push()
                &&& final(self).snake_path.start == old(self).snake_path.start_after_push()
            }),
    {
        let mut result = TickResult::Moved;

        let head = *self.snake_path.first().unwrap();

        if direction == Direction::Up && head.y == 0 || direction == Direction::Left && head.x
            == 0 {
            self.state = GameState::GameOver;
            return TickResult::GameOver;
        }

        let next_coord = match direction {
            Direction::Up => Coord { x: head.x, y: head.y - 1 },
            Direction::Down => Coord { x: head.x, y: head.y + 1 },
            Direction::Left => Coord { x: head.x - 1, y: head.y },
            Direction::Right => Coord { x: head.x + 1, y: head.y },
        };

        self.last_direction = direction;

        if next_coord.x >= self.width || next_coord.y >= self.height {
            self.state = GameState::GameOver;
            return TickResult::GameOver;
        }

        if self.snake_path.contains(&next_coord) {
            self.state = GameState::GameOver;
            return TickResult::GameOver;
        }

        if next_coord == self.apple {
            proof {
                // The cell the head is about to enter misses the body, so a
                // fresh apple has somewhere to go.
                assert(next_coord.x < self.width && next_coord.y < self.height
                    && !self.snake_path.spec_contains(next_coord));
            }
            self.apple = Self::new_apple(&self.snake_path, self.width, self.height);

            let tail1 = *self.snake_path.last().unwrap();
            self.snake_path.extend(tail1);
            let tail2 = *self.snake_path.last().unwrap();
            self.snake_path.extend(tail2);
            let tail3 = *self.snake_path.last().unwrap();
            self.snake_path.extend(tail3);

            result = TickResult::Apple;
        }

        self.snake_path.push(next_coord);

        result
    }

    /// Flattens the grid into the observation the network is fed: for each
    /// cell, in row-major order, a body flag, an apple flag and a head flag.
    pub fn to_vec(&self) -> (v: Vec<u8>)
        requires
            self.wf(),
            3 * self.width * self.height <= usize::MAX,
        ensures
            v@ == self.spec_observation(),
    {
        proof {
            let w = self.width as int;
            let h = self.height as int;
            assert(w * h <= 3 * w * h && w * h * 3 == 3 * w * h) by (nonlinear_arith)
                requires
                    0 <= w,
                    0 <= h,
            ;
        }
        let mut v: Vec<u8> = Vec::with_capacity(self.width * self.height * 3);
        let head = *self.snake_path.first().unwrap();

        let mut y: usize = 0;
        while y < self.height
            invariant
                self.wf(),
                3 * self.width * self.height <= usize::MAX,
                y <= self.height,
                head == self.head(),
                v@.len() == 3 * (y * self.width),
                forall|i: int| 0 <= i < v@.len() ==> v@[i] == self.spec_observation()[i],
            decreases self.height - y,
        {
            let mut x: usize = 0;
            while x < self.width
                invariant
                    self.wf(),
                    3 * self.width * self.height <= usize::MAX,
                    y < self.height,
                    x <= self.width,
                    head == self.head(),
                    v@.len() == 3 * (y * self.width + x),
                    forall|i: int| 0 <= i < v@.len() ==> v@[i] == self.spec_observation()[i],
                decreases self.width - x,
            {
                let cell = Coord { x, y };

                if self.snake_path.contains(&cell) {
                    v.push(1);
                } else {
                    v.push(0);
                }

                if cell == self.apple {
                    v.push(1);
                } else {
                    v.push(0);
                }

                if cell == head {
                    v.push(1);
                } else {
                    v.push(0);
                }

                proof {
                    let w = self.width as int;
                    let h = self.height as int;
                    let cell_index = y * w + x;
                    let base = 3 * cell_index;
                    assert(0 <= y * w + x && y * w + x < w * h && 3 * (y * w + x) + 2 < 3 * w
                        * h) by (nonlinear_arith)
                        requires
                            0 <= x,
                            x < w,
                            0 <= y,
                            y < h,
                    ;
                    vstd::arithmetic::div_mod::lemma_fundamental_div_mod_converse(
                        base,
                        3,
                        cell_index,
                        0,
                    );
                    vstd::arithmetic::div_mod::lemma_fundamental_div_mod_converse(
                        base + 1,
                        3,
                        cell_index,
                        1,
                    );
                    vstd::arithmetic::div_mod::lemma_fundamental_div_mod_converse(
                        base + 2,
                        3,
                        cell_index,
                        2,
                    );
                    vstd::arithmetic::div_mod::lemma_fundamental_div_mod_converse(
                        cell_index,
                        w,
                        y as int,
                        x as int,
                    );
                }
                x += 1;
            }
            proof {
                assert(3 * (y * self.width + self.width) == 3 * ((y + 1) * self.width))
                    by (nonlinear_arith);
            }
            y += 1;
        }

        proof {
            assert(3 * (self.height * self.width) == 3 * self.width * self.height)
                by (nonlinear_arith);
            assert(v@ =~= self.spec_observation());
        }
        v
    }
}

} // verus!
