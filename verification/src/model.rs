//! The mathematical model of the game: what a world is, and what each
//! operation makes of it.

use vstd::prelude::*;
use crate::grid::{torus_next, Direction, SnakeCell};

verus! {

/// Whether a started game is still running, and how it ended.
#[derive(Clone, Copy, PartialEq, Eq, Debug, Structural)]
pub enum GameStatus {
    Won,
    Lost,
    Played,
}

/// Length of the snake in a new world.
pub const INITIAL_LENGTH: usize = 3;

/// Number of ticks between two hazard events in a new world.
pub const HAZARD_CADENCE: usize = 50;

/// The state of a world as mathematical values.
pub ghost struct WorldView {
    /// Side length of the grid.
    pub width: int,
    /// Number of cells of the grid.
    pub size: int,
    /// The snake, head first.
    pub body: Seq<SnakeCell>,
    /// The direction the snake travels in.
    pub direction: Direction,
    /// The head cell committed by the last accepted change of direction, until
    /// the next tick consumes it.
    pub next_cell: Option<SnakeCell>,
    /// The reward cell, if one is placed.
    pub reward_cell: Option<usize>,
    /// The hazard cell, if one has appeared.
    pub poop_cell: Option<usize>,
    /// Number of ticks from one hazard event to the next.
    pub poop_iterations: int,
    /// Ticks since the last hazard event.
    pub iterations: int,
    /// The status of the game; `None` until the game is started.
    pub status: Option<GameStatus>,
    /// The score.
    pub points: int,
}

impl WorldView {
    /// The invariant of a world: the grid has at least two rows, every cell
    /// the world names lies on the grid, the snake is no longer than the grid
    /// has cells, and the tick counter is below the cadence.
    pub open spec fn valid(self) -> bool {
        &&& self.width >= 2
        &&& self.size == self.width * self.width
        &&& self.size <= usize::MAX
        &&& self.body.len() <= self.size
        &&& forall|i: int| 0 <= i < self.body.len() ==> (#[trigger] self.body[i]).0 < self.size
        &&& self.next_cell matches Some(c) ==> c.0 < self.size
        &&& self.reward_cell matches Some(r) ==> r < self.size
        &&& self.poop_cell matches Some(p) ==> p < self.size
        &&& 0 <= self.iterations < self.poop_iterations <= usize::MAX
        &&& isize::MIN <= self.points <= isize::MAX
    }

    /// The index of the head cell, if the snake has any cell.
    pub open spec fn head_index(self) -> Option<usize> {
        if self.body.len() > 0 {
            Some(self.body[0].0)
        } else {
            None
        }
    }

    /// The cell the head would enter next in `direction`.
    pub open spec fn neighbour(self, direction: Direction) -> Option<SnakeCell> {
        if self.body.len() > 0 {
            Some(SnakeCell(torus_next(self.width, self.body[0].0 as int, direction) as usize))
        } else {
            None
        }
    }

    /// Whether turning to `direction` would send the head straight back into
    /// the second segment.
    pub open spec fn reverses(self, direction: Direction) -> bool {
        self.body.len() > 1 && self.neighbour(direction) == Some(self.body[1])
    }

    /// The world after a request to turn to `direction`: ignored unless the
    /// game is being played and the snake has a head, and ignored when it
    /// reverses; else the neighbour cell is committed with the direction.
    pub open spec fn turn(self, direction: Direction) -> WorldView {
        if self.status != Some(GameStatus::Played) || self.body.len() == 0 || self.reverses(
            direction,
        ) {
            self
        } else {
            WorldView { next_cell: self.neighbour(direction), direction, ..self }
        }
    }

    /// The world after a request to start: only an unstarted game starts.
    pub open spec fn started(self) -> WorldView {
        if self.status is None {
            WorldView { status: Some(GameStatus::Played), ..self }
        } else {
            self
        }
    }

    /// Whether a reward cell is to be placed: none is there and the game is
    /// not won. This is so in a new world and after each reward that was
    /// taken while the snake left a cell free.
    pub open spec fn reward_wanted(self) -> bool {
        self.reward_cell is None && self.status != Some(GameStatus::Won)
    }

    /// The world after `draw` was offered as the reward cell.
    pub open spec fn offered(self, draw: usize) -> WorldView {
        if self.reward_wanted() && cell_is_free(self.size, self.body, draw) {
            WorldView { reward_cell: Some(draw), ..self }
        } else {
            self
        }
    }

    /// The head cell of the coming tick: the committed one, else the
    /// neighbour in the current direction.
    pub open spec fn coming_head(self) -> SnakeCell
        recommends
            self.body.len() > 0,
    {
        match self.next_cell {
            Some(cell) => cell,
            None => SnakeCell(
                torus_next(self.width, self.body[0].0 as int, self.direction) as usize,
            ),
        }
    }

    /// First part of a tick: every segment takes the place of the one before
    /// it, the head enters the coming head cell, and the committed cell is
    /// consumed. A snake without cells stays as it is.
    pub open spec fn moved(self) -> WorldView {
        if self.body.len() == 0 {
            self
        } else {
            WorldView {
                body: seq![self.coming_head()] + self.body.drop_last(),
                next_cell: None,
                ..self
            }
        }
    }

    /// Second part of a tick: a snake that bites itself has lost.
    pub open spec fn collided(self) -> WorldView {
        if bites_itself(self.body) {
            WorldView { status: Some(GameStatus::Lost), ..self }
        } else {
            self
        }
    }

    /// Whether the head stands on the reward cell.
    pub open spec fn eats_reward(self) -> bool {
        self.reward_cell is Some && self.reward_cell == self.head_index()
    }

    /// Third part of a tick: a head on the reward cell takes the reward. While
    /// the snake leaves a cell free this scores a point, grows the snake by a
    /// copy of its head and leaves the reward to be placed anew; on a full
    /// board the game is won.
    pub open spec fn rewarded(self) -> WorldView {
        if !self.eats_reward() {
            self
        } else if self.body.len() < self.size {
            WorldView {
                points: raised(self.points),
                body: self.body.push(self.body[0]),
                reward_cell: None,
                ..self
            }
        } else {
            WorldView { reward_cell: None, status: Some(GameStatus::Won), ..self }
        }
    }

    /// Whether the head stands on the hazard cell.
    pub open spec fn hits_hazard(self) -> bool {
        self.poop_cell is Some && self.poop_cell == self.head_index()
    }

    /// Whether this tick ends with a hazard event: the cadence is reached, or
    /// the head stands on the hazard cell.
    pub open spec fn hazard_due(self) -> bool {
        self.hits_hazard() || self.iterations + 1 == self.poop_iterations
    }

    /// Last part of a tick: a head on the hazard cell costs two points. At a
    /// hazard event the last segment is dropped, the one before it becomes
    /// the hazard cell, and the tick count starts anew; a snake with fewer
    /// than two segments loses all it has, and the game. Else the tick is
    /// counted.
    pub open spec fn hazarded(self) -> WorldView {
        let points = if self.hits_hazard() {
            lowered(self.points)
        } else {
            self.points
        };
        if !self.hazard_due() {
            WorldView { iterations: self.iterations + 1, points, ..self }
        } else if self.body.len() >= 2 {
            WorldView {
                poop_cell: Some(self.body[self.body.len() - 2].0),
                body: self.body.take(self.body.len() - 2),
                iterations: 0,
                points,
                ..self
            }
        } else {
            WorldView {
                poop_cell: None,
                body: Seq::empty(),
                status: Some(GameStatus::Lost),
                iterations: 0,
                points,
                ..self
            }
        }
    }

    /// The world after one tick: unchanged unless the game is being played.
    pub open spec fn stepped(self) -> WorldView {
        if self.status != Some(GameStatus::Played) {
            self
        } else {
            self.moved().collided().rewarded().hazarded()
        }
    }

    /// The world after an optional request to turn.
    pub open spec fn turned(self, turn: Option<Direction>) -> WorldView {
        match turn {
            Some(direction) => self.turn(direction),
            None => self,
        }
    }

    /// The world after a run of ticks, each an optional request to turn that
    /// is followed by one step.
    pub open spec fn played(self, turns: Seq<Option<Direction>>) -> WorldView
        decreases turns.len(),
    {
        if turns.len() == 0 {
            self
        } else {
            self.played(turns.drop_last()).turned(turns.last()).stepped()
        }
    }

    /// Whether `holds` is true of the world before each step of the run, the
    /// request to turn of that tick already taken.
    pub open spec fn throughout(
        self,
        turns: Seq<Option<Direction>>,
        holds: spec_fn(WorldView) -> bool,
    ) -> bool
        decreases turns.len(),
    {
        turns.len() == 0 || (self.throughout(turns.drop_last(), holds) && holds(
            self.played(turns.drop_last()).turned(turns.last()),
        ))
    }

    /// Whether the coming tick leaves reward and hazard alone: the head
    /// reaches neither cell and the cadence is not yet full.
    pub open spec fn quiet(self) -> bool {
        !self.moved().eats_reward() && !self.moved().hazard_due()
    }

    /// Whether the coming tick is played and ends without a hazard event.
    pub open spec fn calm(self) -> bool {
        self.status == Some(GameStatus::Played)
            && !self.moved().collided().rewarded().hazard_due()
    }
}

/// Whether `width` and `spawn_index` describe a world that can be built: the
/// grid can be addressed, the spawn cell lies on it, and the initial body,
/// laid out towards lower indices, does not run below cell 0.
pub open spec fn valid_configuration(width: usize, spawn_index: usize) -> bool {
    &&& width * width <= usize::MAX
    &&& spawn_index < width * width
    &&& spawn_index >= INITIAL_LENGTH - 1
}

/// The body of a new snake: `length` cells from `spawn_index` downwards.
pub open spec fn initial_body(spawn_index: usize, length: usize) -> Seq<SnakeCell>
    recommends
        spawn_index + 1 >= length,
{
    Seq::new(length as nat, |i: int| SnakeCell((spawn_index - i) as usize))
}

/// The world that a valid configuration starts from.
pub open spec fn initial_world(width: usize, spawn_index: usize) -> WorldView {
    WorldView {
        width: width as int,
        size: width * width,
        body: initial_body(spawn_index, INITIAL_LENGTH),
        direction: Direction::Right,
        next_cell: None,
        reward_cell: None,
        poop_cell: None,
        poop_iterations: HAZARD_CADENCE as int,
        iterations: 0,
        status: None,
        points: 0,
    }
}

/// Whether `draw` is a cell of a grid of `max` cells that no segment of
/// `body` occupies.
pub open spec fn cell_is_free(max: int, body: Seq<SnakeCell>, draw: usize) -> bool {
    draw < max && !body.contains(SnakeCell(draw))
}

/// Whether the head of `body` lies on another of its segments; a body
/// without cells counts as bitten.
pub open spec fn bites_itself(body: Seq<SnakeCell>) -> bool {
    body.len() == 0 || exists|i: int| 1 <= i < body.len() && #[trigger] body[i] == body[0]
}

/// A score raised by one point, as far as the machine can count.
pub open spec fn raised(points: int) -> int {
    if points < isize::MAX {
        points + 1
    } else {
        points
    }
}

/// A score lowered by two points, as far as the machine can count.
pub open spec fn lowered(points: int) -> int {
    if points - 2 >= isize::MIN {
        points - 2
    } else {
        isize::MIN as int
    }
}

/// The text that describes a status.
pub open spec fn status_text(status: Option<GameStatus>) -> Seq<char> {
    match status {
        Some(GameStatus::Won) => "You have won!"@,
        Some(GameStatus::Lost) => "You have lost!"@,
        Some(GameStatus::Played) => "Playing"@,
        None => "No status"@,
    }
}

} // verus!
