use std::collections::VecDeque;
use vstd::prelude::*;

use crate::geometry::{on_board, Direction, Point};
use crate::lemmas::{lemma_drop_last_distinct, lemma_push_front_distinct};
use crate::random::random_below;

verus! {

/// The abstract state of a game.
pub struct GameView {
    /// The body, head first and tail last.
    pub snake: Seq<Point>,
    pub dir: Direction,
    pub food: Point,
    pub width: int,
    pub height: int,
    /// Set once the snake has run into a wall or into itself.
    pub terminated: bool,
    pub score: int,
}

/// Some cell of a `width` by `height` board is not covered by `body`.
pub open spec fn has_free_cell(body: Seq<Point>, width: int, height: int) -> bool {
    exists|p: Point| p.within(width, height) && !body.contains(p)
}

/// Every point of `s` lies on a board of `width` by `height` cells.
pub open spec fn all_within(s: Seq<Point>, width: int, height: int) -> bool {
    forall|i: int| 0 <= i < s.len() ==> (#[trigger] s[i]).within(width, height)
}

impl GameView {
    pub open spec fn head(self) -> Point {
        self.snake[0]
    }

    /// Every segment of the body lies on a board of the given size.
    pub open spec fn body_within(self, width: int, height: int) -> bool {
        all_within(self.snake, width, height)
    }

    /// The body and the food both lie on a board of the given size.
    pub open spec fn fits(self, width: int, height: int) -> bool {
        self.body_within(width, height) && self.food.within(width, height)
    }

    /// What holds of every state the game can be in.
    ///
    /// The body is never empty and the score stays below its length; while the
    /// game is running the body and the food lie on the board and no two
    /// segments share a cell.
    pub open spec fn wf(self) -> bool {
        &&& self.snake.len() > 0
        &&& 0 <= self.score < self.snake.len()
        &&& 0 <= self.width <= u16::MAX
        &&& 0 <= self.height <= u16::MAX
        &&& !self.terminated ==> {
            &&& self.fits(self.width, self.height)
            &&& self.snake.no_duplicates()
        }
    }

    /// The state of a new game on a board of the given size.
    pub open spec fn fresh(width: u16, height: u16) -> GameView {
        GameView {
            snake: seq![Point { x: width / 2, y: height / 2 }],
            dir: Direction::Right,
            food: Point { x: width / 3, y: height / 3 },
            width: width as int,
            height: height as int,
            terminated: false,
            score: 0,
        }
    }

    /// The integer coordinates of the cell the head moves into next.
    pub open spec fn next_cell(self) -> (int, int) {
        self.head().neighbour(self.dir)
    }

    /// The next move leaves the board.
    pub open spec fn hits_wall(self) -> bool {
        !on_board(self.next_cell(), self.width, self.height)
    }

    /// The cell the head moves into next, when that cell is on the board.
    pub open spec fn next_head(self) -> Point {
        Point { x: self.next_cell().0 as u16, y: self.next_cell().1 as u16 }
    }

    /// The next move runs into the body.
    pub open spec fn hits_self(self) -> bool {
        !self.hits_wall() && self.snake.contains(self.next_head())
    }

    /// The next step moves the head onto the food.
    pub open spec fn eats(self) -> bool {
        &&& !self.terminated
        &&& !self.hits_wall()
        &&& !self.hits_self()
        &&& self.next_head() == self.food
    }

    /// `next` is a state that one step can lead to from this one.
    ///
    /// A finished game stays as it is. A move into a wall or into the body
    /// ends the game and changes nothing else. Otherwise the head moves on;
    /// on the food the body grows by one, the score rises by one and the food
    /// moves to some free cell (when no cell is free the game ends with the
    /// food left where it was); elsewhere the tail follows.
    pub open spec fn steps_to(self, next: GameView) -> bool {
        if self.terminated {
            next == self
        } else if self.hits_wall() || self.hits_self() {
            next == (GameView { terminated: true, ..self })
        } else {
            let grown = seq![self.next_head()] + self.snake;
            if self.next_head() == self.food {
                &&& next.snake == grown
                &&& next.score == self.score + 1
                &&& next.dir == self.dir
                &&& next.width == self.width
                &&& next.height == self.height
                &&& if has_free_cell(grown, self.width, self.height) {
                    &&& !next.terminated
                    &&& next.food.within(self.width, self.height)
                    &&& !grown.contains(next.food)
                } else {
                    &&& next.terminated
                    &&& next.food == self.food
                }
            } else {
                next == (GameView { snake: grown.drop_last(), ..self })
            }
        }
    }

    /// The state after the board takes a new size: the body and food stay
    /// where they are, and the game ends when either no longer fits.
    pub open spec fn resized(self, width: int, height: int) -> GameView {
        GameView {
            width,
            height,
            terminated: self.terminated || !self.fits(width, height),
            ..self
        }
    }

    /// What the board shows at `p`.
    pub open spec fn cell(self, p: Point) -> Cell {
        if p == self.head() {
            Cell::Head
        } else if self.snake.contains(p) {
            Cell::Body
        } else if p == self.food {
            Cell::Food
        } else {
            Cell::Empty
        }
    }

    /// The direction after asking to turn towards `d`: a single segment may
    /// turn anywhere, a longer body may not reverse onto itself.
    pub open spec fn turned(self, d: Direction) -> Direction {
        if self.snake.len() == 1 {
            d
        } else if d == self.dir.spec_opposite() {
            self.dir
        } else {
            d
        }
    }
}

/// What a cell of the board shows.
#[derive(Clone, Copy, Debug, PartialEq, Eq, Structural)]
pub enum Cell {
    Head,
    Body,
    Food,
    Empty,
}

/// How many random cells are tried before the food goes to the first free
/// cell in row-major order.
pub const FOOD_DRAWS: u32 = 64;

/// A game of snake on a board of `width` by `height` cells.
pub struct Game {
    snake: VecDeque<Point>,
    dir: Direction,
    food: Point,
    width: u16,
    height: u16,
    terminated: bool,
    score: usize,
}

impl View for Game {
    type V = GameView;

    closed spec fn view(&self) -> GameView {
        GameView {
            snake: self.snake@,
            dir: self.dir,
            food: self.food,
            width: self.width as int,
            height: self.height as int,
            terminated: self.terminated,
            score: self.score as int,
        }
    }
}

impl Game {
    /// The game's state is one that play can reach (see `GameView::wf`).
    pub open spec fn wf(&self) -> bool {
        self@.wf()
    }

    /// Starts a game: one segment in the middle of the board, heading right,
    /// with the food a third of the way across and down.
    pub fn new(width: u16, height: u16) -> (g: Game)
        requires
            width >= 1,
            height >= 1,
        ensures
            g.wf(),
            g@ == GameView::fresh(width, height),
    {
        let mut snake = VecDeque::new();
        snake.push_back(Point { x: width / 2, y: height / 2 });
        let g = Game {
            snake,
            dir: Direction::Right,
            food: Point { x: width / 3, y: height / 3 },
            width,
            height,
            terminated: false,
            score: 0,
        };
        assert(g@.snake =~= seq![Point { x: width / 2, y: height / 2 }]);
        g
    }

    /// Rebuilds a running game with score zero from its body (head first),
    /// direction and food. Returns `None` unless the body is non-empty, lies
    /// on the board without two segments sharing a cell, and the food lies on
    /// the board.
    pub fn from_parts(width: u16, height: u16, body: Vec<Point>, dir: Direction, food: Point) -> (r:
        Option<Game>)
        ensures
            r is Some <==> {
                &&& body@.len() > 0
                &&& all_within(body@, width as int, height as int)
                &&& food.within(width as int, height as int)
                &&& body@.no_duplicates()
            },
            r matches Some(g) ==> g.wf() && g@ == (GameView {
                snake: body@,
                dir,
                food,
                width: width as int,
                height: height as int,
                terminated: false,
                score: 0,
            }),
    {
        if body.len() == 0 || food.x >= width || food.y >= height {
            return None;
        }
        let mut snake: VecDeque<Point> = VecDeque::new();
        let mut i: usize = 0;
        while i < body.len()
            invariant
                i <= body@.len(),
                snake@ == body@.subrange(0, i as int),
                forall|j: int| 0 <= j < i ==> (#[trigger] body@[j]).within(width as int, height as int),
                body@.subrange(0, i as int).no_duplicates(),
            decreases body@.len() - i,
        {
            let p = body[i];
            if p.x >= width || p.y >= height {
                assert(!body@[i as int].within(width as int, height as int));
                return None;
            }
            let mut k: usize = 0;
            while k < i
                invariant
                    i < body@.len(),
                    k <= i,
                    p == body@[i as int],
                    forall|j: int| 0 <= j < k ==> body@[j] != p,
                decreases i - k,
            {
                if body[k] == p {
                    assert(!body@.no_duplicates()) by {
                        assert(body@[k as int] == body@[i as int]);
                    }
                    return None;
                }
                k = k + 1;
            }
            snake.push_back(p);
            proof {
                let s = body@.subrange(0, i + 1);
                assert(s =~= body@.subrange(0, i as int).push(p));
                assert forall|a: int, b: int| 0 <= a < s.len() && 0 <= b < s.len() && a != b implies s[a]
                    != s[b] by {
                    assert(s[a] == body@[a] && s[b] == body@[b]);
                }
            }
            i = i + 1;
        }
        assert(body@.subrange(0, body@.len() as int) =~= body@);
        let g = Game { snake, dir, food, width, height, terminated: false, score: 0 };
        Some(g)
    }

    /// Takes a new board size. The body and food keep their cells; when
    /// either no longer fits, the game ends.
    pub fn resize(&mut self, width: u16, height: u16)
        requires
            old(self).wf(),
        ensures
            final(self).wf(),
            final(self)@ == old(self)@.resized(width as int, height as int),
    {
        let fits = self.fits(width, height);
        self.width = width;
        self.height = height;
        if !fits {
            self.terminated = true;
        }
    }

    /// Whether the body and the food lie on a board of the given size.
    pub fn fits(&self, width: u16, height: u16) -> (r: bool)
        ensures
            r == self@.fits(width as int, height as int),
    {
        if self.food.x >= width || self.food.y >= height {
            return false;
        }
        let n = self.snake.len();
        let mut i: usize = 0;
        while i < n
            invariant
                n == self@.snake.len(),
                i <= n,
                forall|j: int| 0 <= j < i ==> (#[trigger] self@.snake[j]).within(width as int, height as int),
            decreases n - i,
        {
            let p = self.snake[i];
            if p.x >= width || p.y >= height {
                return false;
            }
            i = i + 1;
        }
        true
    }

    /// What the board shows at `p`: the head, another segment, the food, or
    /// nothing.
    pub fn cell_at(&self, p: Point) -> (c: Cell)
        requires
            self.wf(),
        ensures
            c == self@.cell(p),
    {
        if self.snake[0] == p {
            Cell::Head
        } else if self.occupies(p) {
            Cell::Body
        } else if self.food == p {
            Cell::Food
        } else {
            Cell::Empty
        }
    }

    /// Whether some segment of the body covers `p`.
    pub fn occupies(&self, p: Point) -> (r: bool)
        ensures
            r == self@.snake.contains(p),
    {
        let n = self.snake.len();
        let mut i: usize = 0;
        while i < n
            invariant
                n == self@.snake.len(),
                i <= n,
                forall|j: int| 0 <= j < i ==> self@.snake[j] != p,
            decreases n - i,
        {
            if self.snake[i] == p {
                return true;
            }
            i = i + 1;
        }
        false
    }

    /// Puts the food on `p` when `p` is a free cell of the board; otherwise
    /// leaves the game unchanged. Returns whether the food was placed.
    pub fn try_place_food(&mut self, p: Point) -> (placed: bool)
        requires
            old(self).wf(),
        ensures
            final(self).wf(),
            placed == (p.within(old(self)@.width, old(self)@.height) && !old(self)@.snake.contains(p)),
            placed ==> final(self)@ == (GameView { food: p, ..old(self)@ }),
            !placed ==> final(self)@ == old(self)@,
    {
        if p.x < self.width && p.y < self.height && !self.occupies(p) {
            self.food = p;
            true
        } else {
            false
        }
    }

    /// The first free cell of the board in row-major order, if there is one.
    fn first_free_cell(&self) -> (r: Option<Point>)
        ensures
            r is None ==> !has_free_cell(self@.snake, self@.width, self@.height),
            r matches Some(p) ==> p.within(self@.width, self@.height) && !self@.snake.contains(p),
    {
        let mut y: u16 = 0;
        while y < self.height
            invariant
                forall|q: Point|
                    q.within(self@.width, self@.height) && q.y < y ==> #[trigger] self@.snake.contains(q),
            decreases self.height - y,
        {
            let mut x: u16 = 0;
            while x < self.width
                invariant
                    y < self.height,
                    forall|q: Point|
                        q.within(self@.width, self@.height) && (q.y < y || (q.y == y && q.x < x))
                            ==> #[trigger] self@.snake.contains(q),
                decreases self.width - x,
            {
                let p = Point { x, y };
                if !self.occupies(p) {
                    return Some(p);
                }
                x = x + 1;
            }
            y = y + 1;
        }
        assert(!has_free_cell(self@.snake, self@.width, self@.height)) by {
            assert forall|q: Point| q.within(self@.width, self@.height) implies self@.snake.contains(q) by {
                assert(q.y < y);
            }
        }
        None
    }

    /// Moves the food to a free cell: a few random draws first, then the first
    /// free cell in row-major order. Returns false, leaving the game as it
    /// was, when the body covers the whole board.
    fn spawn_food(&mut self) -> (placed: bool)
        requires
            old(self).wf(),
            !old(self)@.terminated,
        ensures
            final(self).wf(),
            placed == has_free_cell(old(self)@.snake, old(self)@.width, old(self)@.height),
            placed ==> final(self)@ == (GameView { food: final(self)@.food, ..old(self)@ }),
            placed ==> !old(self)@.snake.contains(final(self)@.food),
            !placed ==> final(self)@ == old(self)@,
    {
        let ghost start = self@;
        let mut tries: u32 = 0;
        while tries < FOOD_DRAWS
            invariant
                self.wf(),
                self@ == start,
                start == old(self)@,
                self.width > 0,
                self.height > 0,
            decreases FOOD_DRAWS - tries,
        {
            let x = random_below(self.width);
            let y = random_below(self.height);
            if self.try_place_food(Point { x, y }) {
                assert(Point { x, y }.within(start.width, start.height));
                assert(has_free_cell(start.snake, start.width, start.height));
                return true;
            }
            tries = tries + 1;
        }
        match self.first_free_cell() {
            Some(p) => {
                self.food = p;
                true
            },
            None => false,
        }
    }

    /// Advances the game by one tick.
    ///
    /// Nothing happens once the game is over. A move off the board or into
    /// the body ends the game before the body changes. Otherwise the head
    /// moves one cell on; on the food the snake grows, the score rises by one
    /// and new food appears on a free cell.
    pub fn step(&mut self)
        requires
            old(self).wf(),
        ensures
            final(self).wf(),
            old(self)@.steps_to(final(self)@),
    {
        if self.terminated {
            return;
        }
        let head = self.snake[0];
        proof {
            assert(self@.snake[0].within(self@.width, self@.height));
        }
        let next = match self.dir {
            Direction::Up => {
                if head.y == 0 {
                    self.terminated = true;
                    return;
                }
                Point { x: head.x, y: head.y - 1 }
            },
            Direction::Down => {
                if head.y + 1 >= self.height {
                    self.terminated = true;
                    return;
                }
                Point { x: head.x, y: head.y + 1 }
            },
            Direction::Left => {
                if head.x == 0 {
                    self.terminated = true;
                    return;
                }
                Point { x: head.x - 1, y: head.y }
            },
            Direction::Right => {
                if head.x + 1 >= self.width {
                    self.terminated = true;
                    return;
                }
                Point { x: head.x + 1, y: head.y }
            },
        };
        assert(next == self@.next_head());
        if self.occupies(next) {
            self.terminated = true;
            return;
        }
        let ghost before = self@;
        let ghost grown = seq![next] + before.snake;
        self.snake.push_front(next);
        proof {
            lemma_push_front_distinct(before.snake, next);
        }
        assert(self@.body_within(self@.width, self@.height)) by {
            assert forall|i: int| 0 <= i < grown.len() implies (#[trigger] grown[i]).within(
                before.width,
                before.height,
            ) by {
                if i > 0 {
                    assert(grown[i] == before.snake[i - 1]);
                }
            }
        }
        if next == self.food {
            assert(self.snake.len() == grown.len());
            self.score = self.score + 1;
            if !self.spawn_food() {
                self.terminated = true;
            }
        } else {
            self.snake.pop_back();
            let ghost moved = self@.snake;
            assert(moved =~= grown.drop_last());
            proof {
                lemma_drop_last_distinct(grown);
            }
            assert(self@.body_within(self@.width, self@.height)) by {
                assert forall|i: int| 0 <= i < moved.len() implies (#[trigger] moved[i]).within(
                    before.width,
                    before.height,
                ) by {
                    assert(moved[i] == grown[i]);
                }
            }
        }
    }

    /// Asks the snake to turn. A body of one segment may take any direction;
    /// a longer one ignores the direction straight back. The new direction
    /// takes effect at the next step.
    pub fn change_dir(&mut self, dir: Direction)
        requires
            old(self).wf(),
        ensures
            final(self).wf(),
            final(self)@ == (GameView { dir: old(self)@.turned(dir), ..old(self)@ }),
            old(self)@.snake.len() == 1 ==> final(self)@.dir == dir,
            old(self)@.snake.len() > 1 && dir == old(self)@.dir.spec_opposite()
                ==> final(self)@.dir == old(self)@.dir,
            dir != old(self)@.dir.spec_opposite() ==> final(self)@.dir == dir,
    {
        if self.snake.len() == 1 {
            self.dir = dir;
            return;
        }
        if dir != self.dir.opposite() {
            self.dir = dir;
        }
    }
    pub fn width(&self) -> (r: u16)
        ensures
            r == self@.width,
    {
        self.width
    }

    pub fn height(&self) -> (r: u16)
        ensures
            r == self@.height,
    {
        self.height
    }

    pub fn dir(&self) -> (r: Direction)
        ensures
            r == self@.dir,
    {
        self.dir
    }

    pub fn food(&self) -> (r: Point)
        ensures
            r == self@.food,
    {
        self.food
    }

    pub fn score(&self) -> (r: usize)
        ensures
            r == self@.score,
    {
        self.score
    }

    pub fn is_terminated(&self) -> (r: bool)
        ensures
            r == self@.terminated,
    {
        self.terminated
    }

    pub fn head(&self) -> (r: Point)
        requires
            self.wf(),
        ensures
            r == self@.head(),
    {
        self.snake[0]
    }

    /// The body, head first.
    pub fn snake(&self) -> (r: Vec<Point>)
        ensures
            r@ == self@.snake,
    {
        let mut r: Vec<Point> = Vec::new();
        let n = self.snake.len();
        let mut i: usize = 0;
        while i < n
            invariant
                n == self@.snake.len(),
                i <= n,
                r@ == self@.snake.subrange(0, i as int),
            decreases n - i,
        {
            r.push(self.snake[i]);
            assert(r@ =~= self@.snake.subrange(0, i + 1));
            i = i + 1;
        }
        assert(r@ =~= self@.snake);
        r
    }
}

} // verus!
