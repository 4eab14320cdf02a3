//! The executable world: the state of one game and the operations on it.

use vstd::prelude::*;
use crate::grid::{lemma_coordinates, lemma_torus_next, row_of, Direction, SnakeCell};
use crate::model::{
    cell_is_free, initial_body, initial_world, status_text, valid_configuration,
    GameStatus, WorldView, HAZARD_CADENCE, INITIAL_LENGTH,
};

verus! {

/// Why a world could not be built.
#[derive(Clone, Copy, PartialEq, Eq, Debug, Structural)]
pub enum WorldError {
    /// The grid is too large to address, or the spawn cell lies outside it or
    /// leaves no room for the initial body.
    InvalidConfiguration,
}

/// The snake: its cells, head first, and the direction it travels in.
struct Snake {
    body: Vec<SnakeCell>,
    direction: Direction,
}

impl Snake {
    /// A snake of `size` cells, its head at `spawn_index` and each further
    /// segment one index lower, travelling right.
    fn new(spawn_index: usize, size: usize) -> (snake: Snake)
        requires
            spawn_index + 1 >= size,
        ensures
            snake.body@ == initial_body(spawn_index, size),
            snake.direction == Direction::Right,
    {
        let mut body: Vec<SnakeCell> = Vec::new();
        let mut i: usize = 0;
        while i < size
            invariant
                i <= size,
                spawn_index + 1 >= size,
                body@ == initial_body(spawn_index, i),
            decreases size - i,
        {
            body.push(SnakeCell(spawn_index - i));
            i += 1;
            assert(body@ =~= initial_body(spawn_index, i));
        }
        Snake { body, direction: Direction::Right }
    }
}

/// Whether `cell` is one of the segments of `body` from position `from` on.
fn holds_from(body: &Vec<SnakeCell>, from: usize, cell: SnakeCell) -> (found: bool)
    ensures
        found == exists|i: int| from <= i < body@.len() && #[trigger] body@[i] == cell,
{
    let mut i: usize = from;
    while i < body.len()
        invariant
            from <= i,
            forall|j: int| from <= j < i && j < body@.len() ==> #[trigger] body@[j] != cell,
        decreases body.len() - i,
    {
        if body[i] == cell {
            return true;
        }
        i += 1;
    }
    false
}

/// One game: the grid, the snake, the reward and hazard cells, the score
/// and the status.
pub struct World {
    width: usize,
    size: usize,
    snake: Snake,
    next_cell: Option<SnakeCell>,
    reward_cell: Option<usize>,
    poop_iterations: usize,
    iterations: usize,
    poop_cell: Option<usize>,
    status: Option<GameStatus>,
    points: isize,
}

impl View for World {
    type V = WorldView;

    closed spec fn view(&self) -> WorldView {
        WorldView {
            width: self.width as int,
            size: self.size as int,
            body: self.snake.body@,
            direction: self.snake.direction,
            next_cell: self.next_cell,
            reward_cell: self.reward_cell,
            poop_cell: self.poop_cell,
            poop_iterations: self.poop_iterations as int,
            iterations: self.iterations as int,
            status: self.status,
            points: self.points as int,
        }
    }
}

impl World {
    /// The invariant that `new` establishes and every operation keeps.
    pub open spec fn wf(&self) -> bool {
        self@.valid()
    }

    /// A world on a grid of side `width` with a snake of three cells whose
    /// head is at `snake_spawn_index`: not started, no points, no hazard, and
    /// the reward still to be placed by `offer_reward_cell`. A configuration
    /// that is not valid is refused.
    pub fn new(width: usize, snake_spawn_index: usize) -> (made: Result<World, WorldError>)
        ensures
            match made {
                Ok(world) => valid_configuration(width, snake_spawn_index) && world.wf()
                    && world@ == initial_world(width, snake_spawn_index),
                Err(error) => !valid_configuration(width, snake_spawn_index)
                    && error == WorldError::InvalidConfiguration,
            },
    {
        let size = match width.checked_mul(width) {
            Some(size) => size,
            None => {
                return Err(WorldError::InvalidConfiguration);
            },
        };
        if snake_spawn_index >= size || snake_spawn_index < INITIAL_LENGTH - 1 {
            return Err(WorldError::InvalidConfiguration);
        }
        let snake = Snake::new(snake_spawn_index, INITIAL_LENGTH);
        assert(width >= 2) by (nonlinear_arith)
            requires
                width * width >= 3,
        ;
        assert forall|i: int| 0 <= i < snake.body@.len() implies (#[trigger] snake.body@[i]).0
            < size by {
            assert(snake.body@[i] == SnakeCell((snake_spawn_index - i) as usize));
        }
        Ok(
            World {
                width,
                size,
                reward_cell: None,
                poop_cell: None,
                poop_iterations: HAZARD_CADENCE,
                snake,
                iterations: 0,
                next_cell: None,
                status: None,
                points: 0,
            },
        )
    }

    /// The score.
    pub fn get_points(&self) -> (points: isize)
        ensures
            points == self@.points,
    {
        self.points
    }

    /// The side length of the grid.
    pub fn get_width(&self) -> (width: usize)
        ensures
            width == self@.width,
    {
        self.width
    }

    /// The index of the head cell; `None` for a snake without cells.
    pub fn get_snake_head_index(&self) -> (head: Option<usize>)
        ensures
            head == self@.head_index(),
    {
        if self.get_snake_length() > 0 {
            Some(self.snake.body[0].0)
        } else {
            None
        }
    }

    /// Asks the snake to turn to `direction`. The request is ignored unless
    /// the game is being played, and ignored when the turn would lead the
    /// head straight back into the second segment. An accepted turn commits
    /// the head cell of the next tick.
    pub fn set_snake_direction(&mut self, direction: Direction)
        requires
            old(self).wf(),
        ensures
            final(self).wf(),
            final(self)@ == old(self)@.turn(direction),
            old(self)@.reverses(direction) ==> final(self)@ == old(self)@,
    {
        match self.status {
            Some(GameStatus::Played) => {},
            _ => {
                return ;
            },
        }
        if self.get_snake_length() == 0 {
            return ;
        }
        let next_cell = self.generate_next_snake_cell(&direction);
        if self.get_snake_length() > 1 && Some(self.snake.body[1]) == next_cell {
            return ;
        }
        proof {
            lemma_torus_next(self.width as int, self.snake.body@[0].0 as int, direction);
        }
        self.next_cell = next_cell;
        self.snake.direction = direction;
    }

    /// The number of cells of the snake.
    pub fn get_snake_length(&self) -> (length: usize)
        ensures
            length == self@.body.len(),
    {
        self.snake.body.len()
    }

    /// The indices of the cells of the snake, head first.
    pub fn get_snake_cells(&self) -> (cells: Vec<usize>)
        ensures
            cells@.len() == self@.body.len(),
            forall|i: int| 0 <= i < cells@.len() ==> cells@[i] == (#[trigger] self@.body[i]).0,
    {
        let mut cells: Vec<usize> = Vec::new();
        let mut i: usize = 0;
        while i < self.snake.body.len()
            invariant
                i <= self.snake.body@.len(),
                cells@.len() == i,
                forall|j: int| 0 <= j < i ==> cells@[j] == (#[trigger] self.snake.body@[j]).0,
            decreases self.snake.body@.len() - i,
        {
            cells.push(self.snake.body[i].0);
            i += 1;
        }
        cells
    }

    /// The reward cell, if one is placed.
    pub fn get_reward_cell(&self) -> (cell: Option<usize>)
        ensures
            cell == self@.reward_cell,
    {
        self.reward_cell
    }

    /// The hazard cell, if one has appeared.
    pub fn get_poop_cell(&self) -> (cell: Option<usize>)
        ensures
            cell == self@.poop_cell,
    {
        self.poop_cell
    }

    /// The status of the game; `None` until it is started.
    pub fn get_game_status(&self) -> (status: Option<GameStatus>)
        ensures
            status == self@.status,
    {
        self.status
    }

    /// The status of the game in words.
    pub fn get_game_status_text(&self) -> (text: String)
        ensures
            text@ == status_text(self@.status),
    {
        match self.status {
            Some(GameStatus::Won) => "You have won!".to_owned(),
            Some(GameStatus::Lost) => "You have lost!".to_owned(),
            Some(GameStatus::Played) => "Playing".to_owned(),
            None => "No status".to_owned(),
        }
    }

    /// Starts a game that was not started yet; a started game stays as it is.
    pub fn start_game(&mut self)
        ensures
            final(self)@ == old(self)@.started(),
            old(self).wf() ==> final(self).wf(),
    {
        if self.status.is_none() {
            self.status = Some(GameStatus::Played);
        }
    }

    /// Whether the world waits for a reward cell to be offered.
    pub fn needs_reward(&self) -> (wanted: bool)
        ensures
            wanted == self@.reward_wanted(),
    {
        let won = match self.status {
            Some(GameStatus::Won) => true,
            _ => false,
        };
        self.reward_cell.is_none() && !won
    }

    /// Offers `draw` as the new reward cell. It is accepted, and becomes the
    /// reward cell, when the world waits for one and `draw` is a cell of the
    /// grid that the snake does not occupy; else nothing changes.
    pub fn offer_reward_cell(&mut self, draw: usize) -> (accepted: bool)
        requires
            old(self).wf(),
        ensures
            final(self).wf(),
            final(self)@ == old(self)@.offered(draw),
            accepted == (old(self)@.reward_wanted() && cell_is_free(
                old(self)@.size,
                old(self)@.body,
                draw,
            )),
            accepted ==> final(self)@.reward_cell == Some(draw) && !final(self)@.body.contains(
                SnakeCell(draw),
            ),
    {
        if !self.needs_reward() {
            return false;
        }
        match World::generate_reward_cell(self.size, &self.snake.body, draw) {
            Some(cell) => {
                self.reward_cell = Some(cell);
                true
            },
            None => false,
        }
    }

    /// Advances the game by one tick; does nothing unless the game is being
    /// played. The snake moves one cell, a snake that bites itself loses, a
    /// head on the reward cell takes the reward, and a head on the hazard
    /// cell or a full cadence of ticks ends in a hazard event.
    pub fn step(&mut self)
        requires
            old(self).wf(),
        ensures
            final(self).wf(),
            final(self)@ == old(self)@.stepped(),
    {
        match self.status {
            Some(GameStatus::Played) => {
                self.advance();
                if self.get_snake_length() == 0 || holds_from(
                    &self.snake.body,
                    1,
                    self.snake.body[0],
                ) {
                    self.status = Some(GameStatus::Lost);
                }
                self.take_reward();
                self.settle_hazard();
            },
            _ => {},
        }
    }

    /// Moves the snake by one cell: every segment takes the place of the one
    /// before it, and the head enters the committed cell, which is consumed,
    /// or else the neighbour in the current direction.
    fn advance(&mut self)
        requires
            old(self).wf(),
        ensures
            final(self).wf(),
            final(self)@ == old(self)@.moved(),
    {
        let ghost start = self@;
        let snake_length = self.get_snake_length();
        let mut i: usize = snake_length;
        assert(start.valid());
        while i > 1
            invariant
                i <= snake_length,
                snake_length > 0 ==> i >= 1,
                start.body.len() == snake_length,
                self.snake.body@.len() == snake_length,
                self@ == (WorldView { body: self.snake.body@, ..start }),
                forall|j: int| 0 <= j < i ==> self.snake.body@[j] == start.body[j],
                forall|j: int| i <= j < snake_length ==> self.snake.body@[j] == start.body[j - 1],
            decreases i,
        {
            i -= 1;
            let ahead = self.snake.body[i - 1];
            self.snake.body.set(i, ahead);
        }
        if snake_length > 0 {
            proof {
                lemma_torus_next(start.width, start.body[0].0 as int, start.direction);
                assert forall|j: int| 0 <= j < snake_length implies (
                #[trigger] self.snake.body@[j]).0 < start.size by {
                    if j >= i {
                        assert(start.body[j - 1].0 < start.size);
                    } else {
                        assert(start.body[j].0 < start.size);
                    }
                }
            }
            match self.next_cell {
                Some(cell) => {
                    self.snake.body.set(0, cell);
                    self.next_cell = None;
                },
                None => {
                    let next_cell = self.generate_next_snake_cell(&self.snake.direction);
                    if let Some(cell) = next_cell {
                        self.snake.body.set(0, cell);
                    }
                },
            }
            assert(self.snake.body@ =~= start.moved().body);
            assert(self@ == start.moved());
        } else {
            assert(self.snake.body@ =~= start.body);
        }
    }

    /// Lets a head that stands on the reward cell take the reward: a point
    /// and one more segment while the snake leaves a cell free, the win when
    /// it does not.
    fn take_reward(&mut self)
        requires
            old(self).wf(),
        ensures
            final(self).wf(),
            final(self)@ == old(self)@.rewarded(),
    {
        if let Some(reward) = self.reward_cell {
            let snake_length = self.get_snake_length();
            if snake_length > 0 && self.snake.body[0].0 == reward {
                if snake_length < self.size {
                    if self.points < isize::MAX {
                        self.points += 1;
                    }
                    self.reward_cell = None;
                    let head = self.snake.body[0];
                    self.snake.body.push(head);
                } else {
                    self.reward_cell = None;
                    self.status = Some(GameStatus::Won);
                }
            }
        }
    }

    /// Ends a tick: charges a head that stands on the hazard cell, and either
    /// counts the tick or, at a hazard event, carves a new hazard out of the
    /// tail; a snake that cannot give one has lost.
    fn settle_hazard(&mut self)
        requires
            old(self).wf(),
        ensures
            final(self).wf(),
            final(self)@ == old(self)@.hazarded(),
    {
        let mut iterations = self.iterations + 1;
        if let Some(hazard) = self.poop_cell {
            if self.get_snake_length() > 0 && self.snake.body[0].0 == hazard {
                if self.points >= isize::MIN + 2 {
                    self.points -= 2;
                } else {
                    self.points = isize::MIN;
                }
                iterations = self.poop_iterations;
            }
        }
        if iterations == self.poop_iterations {
            self.poop_cell = self.generate_poop();
            if self.poop_cell.is_none() {
                self.status = Some(GameStatus::Lost);
            }
            self.iterations = 0;
        } else {
            self.iterations = iterations;
        }
    }

    /// Carves a hazard out of the tail: drops the last segment, then takes
    /// the segment before it off the snake and returns its index. A snake
    /// with fewer than two segments loses what it has and yields nothing.
    fn generate_poop(&mut self) -> (cell: Option<usize>)
        ensures
            old(self)@.body.len() >= 2 ==> cell == Some(
                old(self)@.body[old(self)@.body.len() - 2].0,
            ) && final(self)@ == (WorldView {
                body: old(self)@.body.take(old(self)@.body.len() - 2),
                ..old(self)@
            }),
            old(self)@.body.len() < 2 ==> cell is None && final(self)@ == (WorldView {
                body: Seq::empty(),
                ..old(self)@
            }),
    {
        self.snake.body.pop();
        let poop_cell_option = self.snake.body.pop();
        proof {
            let before = old(self)@.body;
            if before.len() >= 2 {
                assert(self.snake.body@ =~= before.take(before.len() - 2));
            } else {
                assert(self.snake.body@ =~= Seq::<SnakeCell>::empty());
            }
        }
        match poop_cell_option {
            Some(cell) => Some(cell.0),
            None => None,
        }
    }

    /// Judges one random draw for the reward cell: `draw` itself when it is
    /// one of the `max` cells of the grid and no segment of `snake_body`
    /// occupies it, else nothing. The caller draws again until a draw is
    /// accepted.
    pub fn generate_reward_cell(max: usize, snake_body: &Vec<SnakeCell>, draw: usize) -> (placed:
        Option<usize>)
        ensures
            placed == (if cell_is_free(max as int, snake_body@, draw) {
                Some(draw)
            } else {
                None
            }),
            placed matches Some(cell) ==> !snake_body@.contains(SnakeCell(cell)),
    {
        if draw < max && !holds_from(snake_body, 0, SnakeCell(draw)) {
            Some(draw)
        } else {
            None
        }
    }

    /// The cell the head would enter next when travelling in `direction`, on
    /// the torus: a step off one edge of the grid arrives at the opposite
    /// edge of the same row or column. `None` for a snake without cells.
    pub fn generate_next_snake_cell(&self, direction: &Direction) -> (next: Option<SnakeCell>)
        requires
            self.wf(),
        ensures
            next == self@.neighbour(*direction),
    {
        if self.get_snake_length() == 0 {
            return None;
        }
        let snake_index = self.snake.body[0].0;
        proof {
            lemma_coordinates(self.width as int, snake_index as int);
            lemma_torus_next(self.width as int, snake_index as int, *direction);
        }
        let row = snake_index / self.width;
        assert(row == row_of(self.width as int, snake_index as int));
        assert((row + 1) * self.width == row * self.width + self.width) by (nonlinear_arith);
        assert(row * self.width == 0 <==> row == 0) by (nonlinear_arith)
            requires
                self.width > 0,
        ;
        let next_cell = match direction {
            Direction::Right => {
                let threshold = (row + 1) * self.width;
                if snake_index + 1 == threshold {
                    SnakeCell(threshold - self.width)
                } else {
                    SnakeCell(snake_index + 1)
                }
            },
            Direction::Left => {
                let threshold = row * self.width;
                if snake_index == threshold {
                    SnakeCell(threshold + self.width - 1)
                } else {
                    SnakeCell(snake_index - 1)
                }
            },
            Direction::Up => {
                let threshold = snake_index - (row * self.width);
                if snake_index == threshold {
                    SnakeCell((self.size - self.width) + threshold)
                } else {
                    SnakeCell(snake_index - self.width)
                }
            },
            Direction::Down => {
                let threshold = (row + 1) * self.width;
                if threshold == self.size {
                    SnakeCell(snake_index - (threshold - self.width))
                } else {
                    SnakeCell(snake_index + self.width)
                }
            },
        };
        Some(next_cell)
    }
}

} // verus!
