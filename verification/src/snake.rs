//! The snakes: their direction, their place on the stage, and what the keys,
//! the stage and the state machine tell them.

use vstd::prelude::*;
use crate::coordinate::{hidden_coordinate, StageCoordinate};
use crate::stage::{StageEvent, StageEventData};
use crate::state::{GameStateEvent, GameStateView};

verus! {

/// Where a snake is heading. `Unset` is the direction of the last move of a
/// snake that has not moved yet.
#[derive(Copy, Clone, Debug, PartialEq, Eq, Structural)]
pub enum Direction {
    Unset,
    Up,
    Down,
    Left,
    Right,
}

/// Whether `a` and `b` point against each other.
pub open spec fn spec_is_opposite(a: Direction, b: Direction) -> bool {
    (a == Direction::Up && b == Direction::Down) || (a == Direction::Down && b == Direction::Up)
        || (a == Direction::Left && b == Direction::Right) || (a == Direction::Right && b
        == Direction::Left)
}

pub fn is_opposite_direction(a: &Direction, b: &Direction) -> (opposite: bool)
    ensures
        opposite == spec_is_opposite(*a, *b),
{
    match (a, b) {
        (Direction::Up, Direction::Down) => true,
        (Direction::Down, Direction::Up) => true,
        (Direction::Left, Direction::Right) => true,
        (Direction::Right, Direction::Left) => true,
        (_, _) => false,
    }
}

/// One snake.
#[derive(Copy, Clone, Debug, PartialEq, Eq, Structural)]
pub struct Snake {
    pub id: u32,
    /// The direction of the next move.
    pub direction: Direction,
    /// The direction of the last move that was made.
    pub last_direction_moved: Direction,
    pub falling: bool,
    /// The number of move ticks since the snake began to fall.
    pub fall_duration: u32,
    pub segments: u32,
    pub stage_coordinate: StageCoordinate,
    pub active: bool,
    pub input_received: bool,
    /// The snake ate and has yet to grow.
    pub had_a_snack: bool,
}

pub open spec fn spec_new_snake(id: u32, active: bool) -> Snake {
    Snake {
        id,
        direction: Direction::Up,
        last_direction_moved: Direction::Unset,
        falling: false,
        fall_duration: 0,
        segments: 0,
        stage_coordinate: hidden_coordinate(),
        active,
        input_received: false,
        had_a_snack: false,
    }
}

impl Snake {
    /// The snake never heads against its last move.
    pub open spec fn wf(self) -> bool {
        !spec_is_opposite(self.last_direction_moved, self.direction)
    }

    /// The snake after the wish to head in `direction`: the wish is granted
    /// unless it points against the last move.
    pub open spec fn turned(self, direction: Direction) -> Snake {
        if spec_is_opposite(self.last_direction_moved, direction) {
            self
        } else {
            Snake { direction, ..self }
        }
    }

    /// The snake after the key `key` under the bindings `mapping`: a bound key
    /// is a wish to turn and counts as input, any other key is ignored.
    pub open spec fn keyed(self, mapping: InputMapping, key: u32) -> Snake {
        match mapping.spec_resolve(key) {
            Some(direction) => Snake { input_received: true, ..self.turned(direction) },
            None => self,
        }
    }

    /// The snake after the keys `keys`, in order.
    pub open spec fn keyed_all(self, mapping: InputMapping, keys: Seq<u32>) -> Snake
        decreases keys.len(),
    {
        if keys.len() == 0 {
            self
        } else {
            self.keyed_all(mapping, keys.drop_last()).keyed(mapping, keys.last())
        }
    }

    /// The snake as the entry into a mode leaves it: `Setup` takes it off the
    /// stage and has it head up, with no move, fall or segment to its name.
    pub open spec fn on_mode(self, mode: GameStateView) -> Snake {
        if mode is Setup {
            Snake {
                falling: false,
                fall_duration: 0,
                segments: 0,
                last_direction_moved: Direction::Unset,
                direction: Direction::Up,
                input_received: false,
                stage_coordinate: hidden_coordinate(),
                ..self
            }
        } else {
            self
        }
    }

    /// The snake after one event of the stage: it goes to its spawn point,
    /// and during play it notes that it ate or that it fell.
    pub open spec fn on_stage_event(self, event: StageEventData, playing: bool) -> Snake {
        match event {
            StageEventData::SetSnakeSpawnPoint(data) => if data.snake_id == self.id {
                Snake { stage_coordinate: data.spawn_point, ..self }
            } else {
                self
            },
            StageEventData::SnackEaten(snake_id) => if playing && snake_id == self.id {
                Snake { had_a_snack: true, ..self }
            } else {
                self
            },
            StageEventData::SnakeFalling(snake_id) => if playing && snake_id == self.id {
                Snake { falling: true, ..self }
            } else {
                self
            },
            _ => self,
        }
    }

    /// The snake after the events `events`, in order.
    pub open spec fn on_stage_events(self, events: Seq<StageEvent>, playing: bool) -> Snake
        decreases events.len(),
    {
        if events.len() == 0 {
            self
        } else {
            self.on_stage_events(events.drop_last(), playing).on_stage_event(
                events.last().data,
                playing,
            )
        }
    }

    pub fn new(id: u32, active: bool) -> (snake: Self)
        ensures
            snake == spec_new_snake(id, active),
            snake.wf(),
    {
        Self {
            id,
            direction: Direction::Up,
            last_direction_moved: Direction::Unset,
            falling: false,
            fall_duration: 0,
            segments: 0,
            stage_coordinate: StageCoordinate::hidden(),
            active,
            input_received: false,
            had_a_snack: false,
        }
    }

    /// Heads in `direction`, unless that points against the last move: a snake
    /// does not turn around on itself.
    pub fn set_direction(&mut self, direction: Direction)
        ensures
            *final(self) == old(self).turned(direction),
            old(self).wf() ==> final(self).wf(),
    {
        if is_opposite_direction(&self.last_direction_moved, &direction) {
            return;
        }
        self.direction = direction;
    }
}

/// The keys of one player, by their codes.
#[derive(Copy, Clone, Debug, PartialEq, Eq, Structural)]
pub struct InputMapping {
    pub up: u32,
    pub down: u32,
    pub left: u32,
    pub right: u32,
}

impl InputMapping {
    /// The direction that `key` stands for. Where a code is bound twice, up
    /// comes before down, down before left and left before right.
    pub open spec fn spec_resolve(self, key: u32) -> Option<Direction> {
        if key == self.up {
            Some(Direction::Up)
        } else if key == self.down {
            Some(Direction::Down)
        } else if key == self.left {
            Some(Direction::Left)
        } else if key == self.right {
            Some(Direction::Right)
        } else {
            None
        }
    }

    pub fn new(up: u32, down: u32, left: u32, right: u32) -> (mapping: Self)
        ensures
            mapping == (InputMapping { up, down, left, right }),
    {
        Self { up, down, left, right }
    }

    pub fn resolve(&self, key: u32) -> (direction: Option<Direction>)
        ensures
            direction == self.spec_resolve(key),
    {
        if key == self.up {
            Some(Direction::Up)
        } else if key == self.down {
            Some(Direction::Down)
        } else if key == self.left {
            Some(Direction::Left)
        } else if key == self.right {
            Some(Direction::Right)
        } else {
            None
        }
    }
}

/// Whether the snakes stand in the order of their ids, no id twice. The
/// snakes move in this order, and a later snake meets what an earlier one
/// left behind.
pub open spec fn snakes_in_order(snakes: Seq<Snake>) -> bool {
    forall|i: int, j: int| 0 <= i < j < snakes.len() ==> (#[trigger] snakes[i]).id < (#[trigger] snakes[j]).id
}

/// The three snakes of a game. The first is in the game from the start; the
/// second and the third join with their first key.
pub fn init_snakes() -> (snakes: Vec<Snake>)
    ensures
        snakes@ == seq![spec_new_snake(1, true), spec_new_snake(2, false), spec_new_snake(3, false)],
        snakes_in_order(snakes@),
{
    let mut snakes: Vec<Snake> = Vec::new();
    snakes.push(Snake::new(1, true));
    snakes.push(Snake::new(2, false));
    snakes.push(Snake::new(3, false));
    assert(snakes@ =~= seq![spec_new_snake(1, true), spec_new_snake(2, false), spec_new_snake(3, false)]);
    snakes
}

/// Tells the snakes that the game entered a mode: each snake becomes what
/// `Snake::on_mode` says.
pub fn read_gamestate_events(snakes: &mut Vec<Snake>, event: &GameStateEvent)
    ensures
        final(snakes)@.len() == old(snakes)@.len(),
        forall|i: int| 0 <= i < old(snakes)@.len() ==> #[trigger] final(snakes)@[i] == old(snakes)@[i].on_mode(event@),
{
    let is_setup: bool = match &event.data {
        crate::state::GameStateData::Setup(_) => true,
        _ => false,
    };
    if !is_setup {
        return;
    }
    let mut i: usize = 0;
    while i < snakes.len()
        invariant
            i <= snakes.len(),
            event@ is Setup,
            snakes@.len() == old(snakes)@.len(),
            forall|k: int| 0 <= k < i ==> #[trigger] snakes@[k] == old(snakes)@[k].on_mode(event@),
            forall|k: int| i <= k < snakes.len() ==> #[trigger] snakes@[k] == old(snakes)@[k],
        decreases snakes.len() - i,
    {
        let mut snake = snakes[i];
        snake.falling = false;
        snake.fall_duration = 0;
        snake.segments = 0;
        snake.last_direction_moved = Direction::Unset;
        snake.direction = Direction::Up;
        snake.input_received = false;
        snake.stage_coordinate = StageCoordinate::hidden();
        snakes[i] = snake;
        i += 1;
    }
}

/// Tells the snakes what the stage reported, event by event: each snake
/// becomes what `Snake::on_stage_events` says. `playing` says whether the game
/// is in `Play`.
pub fn read_stage_events(snakes: &mut Vec<Snake>, events: &Vec<StageEvent>, playing: bool)
    ensures
        final(snakes)@.len() == old(snakes)@.len(),
        forall|i: int| 0 <= i < old(snakes)@.len() ==> #[trigger] final(snakes)@[i] == old(snakes)@[i].on_stage_events(events@, playing),
{
    let mut i: usize = 0;
    while i < snakes.len()
        invariant
            i <= snakes.len(),
            snakes@.len() == old(snakes)@.len(),
            forall|k: int| 0 <= k < i ==> #[trigger] snakes@[k] == old(snakes)@[k].on_stage_events(events@, playing),
            forall|k: int| i <= k < snakes.len() ==> #[trigger] snakes@[k] == old(snakes)@[k],
        decreases snakes.len() - i,
    {
        let ghost before = snakes@[i as int];
        let mut snake = snakes[i];
        let mut e: usize = 0;
        while e < events.len()
            invariant
                e <= events.len(),
                snake == before.on_stage_events(events@.take(e as int), playing),
            decreases events.len() - e,
        {
            assert(events@.take(e + 1).drop_last() =~= events@.take(e as int));
            match events[e].data {
                StageEventData::SetSnakeSpawnPoint(data) => {
                    if data.snake_id == snake.id {
                        snake.stage_coordinate = data.spawn_point;
                    }
                },
                StageEventData::SnackEaten(snake_id) => {
                    if playing && snake_id == snake.id {
                        snake.had_a_snack = true;
                    }
                },
                StageEventData::SnakeFalling(snake_id) => {
                    if playing && snake_id == snake.id {
                        snake.falling = true;
                    }
                },
                _ => {},
            }
            e += 1;
        }
        assert(events@.take(events.len() as int) =~= events@);
        snakes[i] = snake;
        i += 1;
    }
}

/// Hands the keys that were pressed, in order, to each snake under its own
/// bindings: the snake at place `i` listens to `mappings[i]` and becomes what
/// `Snake::keyed_all` says.
pub fn read_input(snakes: &mut Vec<Snake>, mappings: &Vec<InputMapping>, keys: &Vec<u32>)
    requires
        mappings.len() == old(snakes).len(),
    ensures
        final(snakes)@.len() == old(snakes)@.len(),
        forall|i: int| 0 <= i < old(snakes)@.len() ==> #[trigger] final(snakes)@[i] == old(snakes)@[i].keyed_all(mappings@[i], keys@),
{
    let mut i: usize = 0;
    while i < snakes.len()
        invariant
            i <= snakes.len(),
            mappings.len() == snakes.len(),
            snakes@.len() == old(snakes)@.len(),
            forall|k: int| 0 <= k < i ==> #[trigger] snakes@[k] == old(snakes)@[k].keyed_all(mappings@[k], keys@),
            forall|k: int| i <= k < snakes.len() ==> #[trigger] snakes@[k] == old(snakes)@[k],
        decreases snakes.len() - i,
    {
        let ghost before = snakes@[i as int];
        let mapping = mappings[i];
        let mut snake = snakes[i];
        let mut e: usize = 0;
        while e < keys.len()
            invariant
                e <= keys.len(),
                snake == before.keyed_all(mapping, keys@.take(e as int)),
            decreases keys.len() - e,
        {
            assert(keys@.take(e + 1).drop_last() =~= keys@.take(e as int));
            match mapping.resolve(keys[e]) {
                Some(direction) => {
                    snake.set_direction(direction);
                    snake.input_received = true;
                },
                None => {},
            }
            e += 1;
        }
        assert(keys@.take(keys.len() as int) =~= keys@);
        snakes[i] = snake;
        i += 1;
    }
}

} // verus!
