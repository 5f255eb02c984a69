//! The move tick: every snake in the game advances one cell.
//!
//! All snakes share one pace. When the session's interval has passed since the
//! last move, each active snake takes one step in the order of the ids, marks
//! its new cell in the dynamic mask, and crashes if that cell was taken. A
//! snake that fell off the floor no longer moves over the grid; it only falls.

use vstd::prelude::*;
use crate::coordinate::StageCoordinate;
use crate::mask::{grid_contains, grid_get, grid_set};
use crate::snake::{Direction, Snake};
use crate::state::{GameState, GameStateData, GameStateView, GameView, PlayData, PlayView, SnakePlayData};

verus! {

/// The cell next to `c` in `direction`.
pub open spec fn spec_step(c: StageCoordinate, direction: Direction) -> StageCoordinate {
    match direction {
        Direction::Up => StageCoordinate { x: c.x, y: (c.y - 1) as i32 },
        Direction::Down => StageCoordinate { x: c.x, y: (c.y + 1) as i32 },
        Direction::Left => StageCoordinate { x: (c.x - 1) as i32, y: c.y },
        Direction::Right => StageCoordinate { x: (c.x + 1) as i32, y: c.y },
        Direction::Unset => c,
    }
}

/// Whether the cell next to `c` in `direction` has a coordinate.
pub open spec fn spec_step_fits(c: StageCoordinate, direction: Direction) -> bool {
    match direction {
        Direction::Up => c.y > i32::MIN,
        Direction::Down => c.y < i32::MAX,
        Direction::Left => c.x > i32::MIN,
        Direction::Right => c.x < i32::MAX,
        Direction::Unset => true,
    }
}

impl Snake {
    /// Whether the snake's id is one that a session keeps a mirror for.
    pub open spec fn in_session(self) -> bool {
        1 <= self.id <= 3
    }

    /// The snake's numbers leave room for one more move tick: the fall of a
    /// falling snake can be counted, and the next cell of any other snake has
    /// a coordinate.
    pub open spec fn can_advance(self) -> bool {
        if self.falling {
            self.fall_duration < u32::MAX
        } else {
            spec_step_fits(self.stage_coordinate, self.direction)
        }
    }

    /// Whether the snake takes a step when a move is due: it is in the game,
    /// and the session knows its id.
    pub open spec fn moves(self) -> bool {
        self.in_session() && self.active
    }

    /// The snake after one move tick: a falling snake falls on, any other
    /// steps to the next cell in its direction and remembers that direction
    /// as the one it moved in.
    pub open spec fn advanced(self) -> Snake {
        if self.falling {
            Snake { fall_duration: (self.fall_duration + 1) as u32, ..self }
        } else {
            Snake {
                stage_coordinate: spec_step(self.stage_coordinate, self.direction),
                last_direction_moved: self.direction,
                ..self
            }
        }
    }

    /// The snake as it joins the game: a snake that is not in the game yet
    /// joins once its player has pressed a key.
    pub open spec fn joined(self) -> Snake {
        if !self.active && self.input_received {
            Snake { active: true, ..self }
        } else {
            self
        }
    }

    /// The session's mirror of the snake before it moves. The cell that the
    /// snake stands on becomes the mirror's previous cell.
    pub open spec fn mirrored(self, data: SnakePlayData) -> SnakePlayData {
        SnakePlayData {
            active: self.active,
            falling: self.falling,
            fall_duration: self.fall_duration,
            previous_coordinate: self.stage_coordinate,
            segments: self.segments,
            ..data
        }
    }
}

impl PlayView {
    /// Whether a move is due at `now`: the interval has passed since the last
    /// move.
    pub open spec fn move_due(self, now: u64) -> bool {
        self.last_move_time + self.move_interval < now
    }
}

/// One snake's part in a frame of play.
///
/// The mirror is brought up to date in any case. If a move is due and the
/// snake is in the game, the snake advances; it crashes if it is not falling
/// and its new cell is on the dynamic mask and taken; the new cell is marked as
/// taken; and the cell that a snake without segments left is given free.
/// A snake whose id the session does not know is passed over.
pub open spec fn spec_move_snake(snake: Snake, play: PlayView, due: bool) -> (Snake, PlayView) {
    if !snake.in_session() {
        (snake, play)
    } else {
        let mirrored = snake.mirrored(play.snake_data(snake.id));
        if !snake.active || !due {
            (snake, play.with_snake_data(snake.id, mirrored))
        } else {
            let moved = snake.advanced();
            let head = moved.stage_coordinate;
            let crash = play.crash || (grid_contains(play.mask, head) && !grid_get(play.mask, head)
                && !snake.falling);
            let data = SnakePlayData {
                coordinate: head,
                refresh_segments: true,
                evaluate_move: true,
                ..mirrored
            };
            let marked = grid_set(play.mask, head, false);
            let mask = if snake.segments == 0 {
                grid_set(marked, snake.stage_coordinate, true)
            } else {
                marked
            };
            (moved, PlayView { crash, mask, ..play.with_snake_data(snake.id, data) })
        }
    }
}

/// The first `n` snakes' parts in a frame of play, taken one after the other.
pub open spec fn spec_move_each(snakes: Seq<Snake>, play: PlayView, due: bool, n: nat) -> (Seq<Snake>, PlayView)
    decreases n,
{
    if n == 0 {
        (snakes, play)
    } else {
        let (before, session) = spec_move_each(snakes, play, due, (n - 1) as nat);
        let (moved, after) = spec_move_snake(before[n - 1], session, due);
        (before.update(n - 1, moved), after)
    }
}

/// Whether a snake of the session is in the game.
pub open spec fn any_in_game(snakes: Seq<Snake>) -> bool {
    exists|i: int| 0 <= i < snakes.len() && (#[trigger] snakes[i]).in_session() && snakes[i].active
}

/// A frame of play at `now`: each snake takes its part, and if a snake moved,
/// the time of the last move becomes `now`.
pub open spec fn spec_move_snakes_play(snakes: Seq<Snake>, play: PlayView, now: u64) -> (Seq<Snake>, PlayView) {
    let due = play.move_due(now);
    let (moved, session) = spec_move_each(snakes, play, due, snakes.len());
    if due && any_in_game(snakes) {
        (moved, PlayView { last_move_time: now, ..session })
    } else {
        (moved, session)
    }
}

/// The snakes as they join the game.
pub open spec fn spec_join_all(snakes: Seq<Snake>) -> Seq<Snake> {
    Seq::new(snakes.len(), |i: int| snakes[i].joined())
}

/// What a frame does to the snakes: in `Start` they join, in `Play` they
/// move, in any other mode they rest.
pub open spec fn spec_move_snakes(snakes: Seq<Snake>, game: GameView, now: u64) -> (Seq<Snake>, GameView) {
    match game.data {
        GameStateView::Start => (spec_join_all(snakes), game),
        GameStateView::Play(play) => {
            let (moved, session) = spec_move_snakes_play(snakes, play, now);
            (moved, GameView { data: GameStateView::Play(session), ..game })
        },
        _ => (snakes, game),
    }
}

/// Whether every snake that takes a step leaves room for one more move tick.
pub open spec fn all_can_advance(snakes: Seq<Snake>) -> bool {
    forall|i: int| 0 <= i < snakes.len() && (#[trigger] snakes[i]).moves() ==> snakes[i].can_advance()
}

/// Whether the snakes can take a frame at `now`: if they are to move, each
/// that takes a step leaves room for it.
pub open spec fn can_move_snakes(snakes: Seq<Snake>, game: GameView, now: u64) -> bool {
    game.data matches GameStateView::Play(play) ==> (play.move_due(now) ==> all_can_advance(snakes))
}

impl PlayData {
    /// Whether a move is due at `now`.
    pub fn move_due(&self, now: u64) -> (due: bool)
        ensures
            due == self@.move_due(now),
    {
        now > self.last_move_time && now - self.last_move_time > self.move_interval
    }
}

/// Steps from `c` in `direction`.
fn step(c: StageCoordinate, direction: Direction) -> (next: StageCoordinate)
    requires
        spec_step_fits(c, direction),
    ensures
        next == spec_step(c, direction),
{
    match direction {
        Direction::Up => StageCoordinate::new(c.x, c.y - 1),
        Direction::Down => StageCoordinate::new(c.x, c.y + 1),
        Direction::Left => StageCoordinate::new(c.x - 1, c.y),
        Direction::Right => StageCoordinate::new(c.x + 1, c.y),
        Direction::Unset => c,
    }
}

/// Takes one snake's part in a frame of play, as `spec_move_snake` says.
/// `due` says whether a move is due in this frame.
pub fn move_snake(snake: &mut Snake, play_data: &mut PlayData, due: bool)
    requires
        due && old(snake).moves() ==> old(snake).can_advance(),
    ensures
        (*final(snake), final(play_data)@) == spec_move_snake(*old(snake), old(play_data)@, due),
{
    if snake.id < 1 || snake.id > 3 {
        return;
    }
    let mut snake_data = play_data.snake_data(snake.id);
    snake_data.active = snake.active;
    snake_data.falling = snake.falling;
    snake_data.fall_duration = snake.fall_duration;
    snake_data.previous_coordinate = snake.stage_coordinate;
    snake_data.segments = snake.segments;
    if !snake.active || !due {
        play_data.set_snake_data(snake.id, snake_data);
        return;
    }
    if snake.falling {
        snake.fall_duration += 1;
    } else {
        snake.stage_coordinate = step(snake.stage_coordinate, snake.direction);
        snake.last_direction_moved = snake.direction;
    }
    if play_data.snakes_walkable_mask.contains(&snake.stage_coordinate)
        && !play_data.snakes_walkable_mask.get(&snake.stage_coordinate) && !snake.falling {
        play_data.crash = true;
    }
    snake_data.coordinate = snake.stage_coordinate;
    snake_data.refresh_segments = true;
    snake_data.evaluate_move = true;
    play_data.set_snake_data(snake.id, snake_data);
    play_data.snakes_walkable_mask.set(&snake_data.coordinate, false);
    if snake.segments == 0 {
        play_data.snakes_walkable_mask.set(&snake_data.previous_coordinate, true);
    }
}

/// Takes a frame of play at `now`, as `spec_move_snakes_play` says. The
/// snakes move in the order in which they stand.
pub fn move_snakes_play(snakes: &mut Vec<Snake>, play_data: &mut PlayData, now: u64)
    requires
        old(play_data)@.move_due(now) ==> all_can_advance(old(snakes)@),
    ensures
        (final(snakes)@, final(play_data)@) == spec_move_snakes_play(old(snakes)@, old(play_data)@, now),
{
    let due = play_data.move_due(now);
    let mut snakes_moved = false;
    let mut i: usize = 0;
    while i < snakes.len()
        invariant
            i <= snakes.len(),
            snakes@.len() == old(snakes)@.len(),
            (snakes@, play_data@) == spec_move_each(old(snakes)@, old(play_data)@, due, i as nat),
            forall|k: int| i <= k < snakes.len() ==> #[trigger] snakes@[k] == old(snakes)@[k],
            due ==> all_can_advance(old(snakes)@),
            snakes_moved == (due && exists|k: int| 0 <= k < i && (#[trigger] old(snakes)@[k]).in_session() && old(snakes)@[k].active),
        decreases snakes.len() - i,
    {
        let mut snake = snakes[i];
        assert(snake == old(snakes)@[i as int]);
        move_snake(&mut snake, play_data, due);
        if due && snake.active && 1 <= snake.id && snake.id <= 3 {
            snakes_moved = true;
        }
        snakes[i] = snake;
        i += 1;
    }
    if snakes_moved {
        play_data.last_move_time = now;
    }
}

/// Lets the snakes join the game whose players have pressed a key.
pub fn join_snakes(snakes: &mut Vec<Snake>)
    ensures
        final(snakes)@ == spec_join_all(old(snakes)@),
{
    let mut i: usize = 0;
    while i < snakes.len()
        invariant
            i <= snakes.len(),
            snakes@.len() == old(snakes)@.len(),
            forall|k: int| 0 <= k < i ==> #[trigger] snakes@[k] == old(snakes)@[k].joined(),
            forall|k: int| i <= k < snakes.len() ==> #[trigger] snakes@[k] == old(snakes)@[k],
        decreases snakes.len() - i,
    {
        let mut snake = snakes[i];
        if !snake.active && snake.input_received {
            snake.active = true;
        }
        snakes[i] = snake;
        i += 1;
    }
    assert(snakes@ =~= spec_join_all(old(snakes)@));
}

/// Takes a frame at `now`, as `spec_move_snakes` says: in `Start` the snakes
/// join, in `Play` they move.
pub fn move_snakes(snakes: &mut Vec<Snake>, game_state: &mut GameState, now: u64)
    requires
        can_move_snakes(old(snakes)@, old(game_state)@, now),
    ensures
        (final(snakes)@, final(game_state)@) == spec_move_snakes(old(snakes)@, old(game_state)@, now),
{
    match &mut game_state.data {
        GameStateData::Start => {
            join_snakes(snakes);
        },
        GameStateData::Play(play_data) => {
            move_snakes_play(snakes, play_data, now);
        },
        _ => {},
    }
}

} // verus!
