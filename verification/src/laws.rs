//! Properties of the game that relate several operations, stated over the
//! model of the world.

use vstd::prelude::*;
use vstd::seq_lib::seq_to_set_is_finite;
use vstd::set_lib::{lemma_int_range, lemma_len_subset, set_int_range};
use crate::grid::{lemma_torus_next, Direction, SnakeCell};
use crate::model::{cell_is_free, initial_world, valid_configuration, GameStatus, WorldView};

verus! {

/// A request to turn keeps the invariant of the world.
pub proof fn law_turn_keeps_valid(v: WorldView, direction: Direction)
    requires
        v.valid(),
    ensures
        v.turn(direction).valid(),
{
    if v.body.len() > 0 {
        lemma_torus_next(v.width, v.body[0].0 as int, direction);
    }
}

/// A tick keeps the invariant of the world: afterwards the head, like every
/// other cell the world names, is a cell of the grid.
pub proof fn law_step_keeps_valid(v: WorldView)
    requires
        v.valid(),
    ensures
        v.stepped().valid(),
        v.stepped().head_index() matches Some(head) ==> head < v.size,
        v.stepped().width == v.width,
        v.stepped().size == v.size,
        v.stepped().poop_iterations == v.poop_iterations,
{
    if v.status == Some(GameStatus::Played) {
        let moved = v.moved();
        if v.body.len() > 0 {
            lemma_torus_next(v.width, v.body[0].0 as int, v.direction);
            assert(moved.body[0] == v.coming_head());
            assert forall|i: int| 0 <= i < moved.body.len() implies (#[trigger] moved.body[i]).0
                < v.size by {
                if i > 0 {
                    assert(moved.body[i] == v.body[i - 1]);
                }
            }
        }
        assert(moved.valid());
        let rewarded = moved.collided().rewarded();
        assert(rewarded.valid());
        let done = rewarded.hazarded();
        assert(done.valid());
    }
}

/// A world whose game is won or lost stays as it is: no tick, turn or start
/// changes it, and no offered reward changes its status.
pub proof fn law_terminal_status_stays(v: WorldView, direction: Direction, draw: usize)
    requires
        v.status == Some(GameStatus::Won) || v.status == Some(GameStatus::Lost),
    ensures
        v.stepped() == v,
        v.turn(direction) == v,
        v.started() == v,
        v.offered(draw).status == v.status,
{
}

/// A turn that would lead the head straight back into the second segment is
/// ignored: the world, and with it the direction, stays as it is.
pub proof fn law_reversal_is_ignored(v: WorldView, direction: Direction)
    requires
        v.reverses(direction),
    ensures
        v.turn(direction) == v,
{
}

/// A quiet tick keeps the length of the snake, the score, the reward and
/// the hazard, and leaves the head on the grid.
pub proof fn law_quiet_step(v: WorldView)
    requires
        v.valid(),
        v.quiet(),
    ensures
        v.stepped().valid(),
        v.stepped().body.len() == v.body.len(),
        v.stepped().head_index() matches Some(head) ==> head < v.size,
        v.stepped().points == v.points,
        v.stepped().reward_cell == v.reward_cell,
        v.stepped().poop_cell == v.poop_cell,
{
    law_step_keeps_valid(v);
}

/// Over any run of quiet ticks, whatever turns are asked for, the snake
/// keeps its length and its head stays on the grid.
pub proof fn law_quiet_run_keeps_length(v: WorldView, turns: Seq<Option<Direction>>)
    requires
        v.valid(),
        v.throughout(turns, |w: WorldView| w.quiet()),
    ensures
        v.played(turns).valid(),
        v.played(turns).size == v.size,
        v.played(turns).body.len() == v.body.len(),
        v.played(turns).head_index() matches Some(head) ==> head < v.size,
    decreases turns.len(),
{
    if turns.len() > 0 {
        let before = v.played(turns.drop_last());
        law_quiet_run_keeps_length(v, turns.drop_last());
        let turned = before.turned(turns.last());
        if let Some(direction) = turns.last() {
            law_turn_keeps_valid(before, direction);
        }
        assert(turned.quiet());
        law_quiet_step(turned);
    }
}

/// A head that arrives on the reward cell takes the reward. While the snake
/// leaves a cell free, the score rises by one and the snake grows by one
/// segment, and the reward cell is left to be placed anew; a hazard event in
/// the same tick then takes its toll of that. On a full board the game is
/// won and the reward is gone.
pub proof fn law_reward_consumption(v: WorldView)
    requires
        v.valid(),
        v.status == Some(GameStatus::Played),
        v.moved().eats_reward(),
    ensures
        v.stepped().reward_cell is None,
        v.body.len() < v.size ==> {
            let taken = v.moved().collided().rewarded();
            &&& v.points < isize::MAX ==> taken.points == v.points + 1
            &&& taken.body.len() == v.body.len() + 1
            &&& v.stepped() == taken.hazarded()
            &&& !taken.hazard_due() ==> {
                &&& v.points < isize::MAX ==> v.stepped().points == v.points + 1
                &&& v.stepped().body.len() == v.body.len() + 1
            }
        },
        v.body.len() >= v.size ==> {
            &&& v.stepped().status == Some(GameStatus::Won)
            &&& v.stepped().points == v.moved().collided().rewarded().hazarded().points
            &&& v.moved().collided().rewarded().points == v.points
        },
{
    law_step_keeps_valid(v);
    assert(v.size >= 4) by (nonlinear_arith)
        requires
            v.width >= 2,
            v.size == v.width * v.width,
    ;
}

/// A snake with fewer segments than the grid has cells leaves a cell free:
/// some draw is a cell of the grid that no segment occupies.
pub proof fn law_short_snake_leaves_a_cell(size: int, body: Seq<SnakeCell>)
    requires
        body.len() < size <= usize::MAX,
    ensures
        exists|draw: usize| cell_is_free(size, body, draw),
{
    if forall|draw: usize| !cell_is_free(size, body, draw) {
        let indices = body.map_values(|cell: SnakeCell| cell.0 as int);
        let grid = set_int_range(0, size);
        assert forall|i: int| grid.contains(i) implies indices.to_set().contains(i) by {
            let draw = i as usize;
            assert(!cell_is_free(size, body, draw));
            let k = choose|k: int| 0 <= k < body.len() && body[k] == SnakeCell(draw);
            assert(indices[k] == i);
            assert(indices.contains(i));
        }
        assert(grid.subset_of(indices.to_set()));
        indices.lemma_cardinality_of_set();
        seq_to_set_is_finite(indices);
        lemma_len_subset(grid, indices.to_set());
        lemma_int_range(0, size);
        assert(false);
    }
}

/// A new world waits for its reward cell, and some draw is accepted.
pub proof fn law_new_world_can_place_reward(width: usize, spawn_index: usize)
    requires
        valid_configuration(width, spawn_index),
    ensures
        initial_world(width, spawn_index).reward_wanted(),
        exists|draw: usize| #[trigger]
            initial_world(width, spawn_index).offered(draw).reward_cell == Some(draw),
{
    let v = initial_world(width, spawn_index);
    assert(v.size >= 4) by (nonlinear_arith)
        requires
            v.size == width * width,
            v.size >= 3,
    ;
    law_short_snake_leaves_a_cell(v.size, v.body);
    let draw = choose|draw: usize| cell_is_free(v.size, v.body, draw);
    assert(v.offered(draw).reward_cell == Some(draw));
}

/// After a tick in which the reward was taken while the snake left a cell
/// free, the world waits for a reward cell, and some draw is accepted.
pub proof fn law_taken_reward_can_be_placed(v: WorldView)
    requires
        v.valid(),
        v.status == Some(GameStatus::Played),
        v.moved().eats_reward(),
        v.body.len() < v.size,
    ensures
        v.stepped().reward_wanted(),
        exists|draw: usize| #[trigger] v.stepped().offered(draw).reward_cell == Some(draw),
{
    let moved = v.moved();
    let taken = moved.collided().rewarded();
    let after = v.stepped();
    law_short_snake_leaves_a_cell(v.size, moved.body);
    let draw = choose|draw: usize| cell_is_free(v.size, moved.body, draw);
    assert(after.size == v.size);
    assert forall|k: int| 0 <= k < taken.body.len() implies #[trigger] taken.body[k]
        != SnakeCell(draw) by {
        if k < moved.body.len() {
            assert(moved.body.contains(moved.body[k]));
        } else {
            assert(moved.body.contains(moved.body[0]));
        }
    }
    assert forall|k: int| 0 <= k < after.body.len() implies #[trigger] after.body[k]
        != SnakeCell(draw) by {
        assert(after.body[k] == taken.body[k]);
    }
    assert(cell_is_free(after.size, after.body, draw));
    assert(after.offered(draw).reward_cell == Some(draw));
}

/// A tick of a game that is being played ends in a hazard event exactly when
/// the cadence is full or the head stands on the hazard cell. The event
/// turns the segment before the last into the hazard cell, takes both off
/// the snake and starts the count anew; a snake with fewer than two segments
/// has lost. Without an event the hazard stays and the tick is counted.
pub proof fn law_hazard_event(v: WorldView)
    requires
        v.valid(),
        v.status == Some(GameStatus::Played),
    ensures
        ({
            let ready = v.moved().collided().rewarded();
            let after = v.stepped();
            &&& ready.hazard_due() <==> (v.iterations + 1 == v.poop_iterations
                || ready.hits_hazard())
            &&& ready.hazard_due() ==> after.iterations == 0
            &&& ready.hazard_due() && ready.body.len() >= 2 ==> {
                &&& after.poop_cell == Some(ready.body[ready.body.len() - 2].0)
                &&& after.body == ready.body.take(ready.body.len() - 2)
                &&& after.status == ready.status
            }
            &&& ready.hazard_due() && ready.body.len() < 2 ==> {
                &&& after.status == Some(GameStatus::Lost)
                &&& after.poop_cell is None
            }
            &&& !ready.hazard_due() ==> {
                &&& after.poop_cell == v.poop_cell
                &&& after.iterations == v.iterations + 1
                &&& after.body == ready.body
            }
        }),
{
}

/// Over a run of calm ticks the hazard stays where it is and every tick is
/// counted, so that the count is the number of ticks since the last hazard
/// event; it stays below the cadence.
pub proof fn law_calm_run_counts_ticks(v: WorldView, turns: Seq<Option<Direction>>)
    requires
        v.valid(),
        v.throughout(turns, |w: WorldView| w.calm()),
    ensures
        v.played(turns).valid(),
        v.played(turns).poop_iterations == v.poop_iterations,
        v.played(turns).poop_cell == v.poop_cell,
        v.played(turns).iterations == v.iterations + turns.len(),
        v.iterations + turns.len() < v.poop_iterations,
    decreases turns.len(),
{
    if turns.len() > 0 {
        let before = v.played(turns.drop_last());
        law_calm_run_counts_ticks(v, turns.drop_last());
        let turned = before.turned(turns.last());
        if let Some(direction) = turns.last() {
            law_turn_keeps_valid(before, direction);
        }
        assert(turned.calm());
        law_step_keeps_valid(turned);
        law_hazard_event(turned);
    }
}

/// After a run of calm ticks that fills the cadence but for one tick, the
/// next tick of a game that is being played is a hazard event: a snake with
/// two segments or more gives up the hazard cell, any other has lost.
pub proof fn law_hazard_after_cadence(v: WorldView, turns: Seq<Option<Direction>>, last: Option<Direction>)
    requires
        v.valid(),
        v.throughout(turns, |w: WorldView| w.calm()),
        v.iterations + turns.len() + 1 == v.poop_iterations,
        v.played(turns).turned(last).status == Some(GameStatus::Played),
    ensures
        ({
            let ready = v.played(turns).turned(last).moved().collided().rewarded();
            let after = v.played(turns.push(last));
            &&& after.iterations == 0
            &&& ready.body.len() >= 2 ==> after.poop_cell == Some(
                ready.body[ready.body.len() - 2].0,
            )
            &&& ready.body.len() < 2 ==> after.status == Some(GameStatus::Lost)
        }),
{
    law_calm_run_counts_ticks(v, turns);
    let before = v.played(turns);
    if let Some(direction) = last {
        law_turn_keeps_valid(before, direction);
    }
    assert(turns.push(last).drop_last() =~= turns);
    assert(turns.push(last).last() == last);
    law_hazard_event(before.turned(last));
}

} // verus!
