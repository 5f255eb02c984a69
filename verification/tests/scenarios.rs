use snakes::coordinate::StageCoordinate;
use snakes::frame::{frame_ready, run_frame, FrameOutput};
use snakes::segments::Segment;
use snakes::snake::{init_snakes, read_gamestate_events, Direction, InputMapping, Snake};
use snakes::stage::{Stage, StageEvent, StageEventData, TileKind};
use snakes::stage_update::read_gamestate_events as tell_stage;
use snakes::state::{update_gamestate, GameState, GameStateData, PlayData, StateInput, StateOutput};

const FRAME: u64 = 100_000_000;

const RIGHT_1: u32 = 4;
const UP_2: u32 = 11;
const LEFT_2: u32 = 13;
const RIGHT_2: u32 = 14;

struct Game {
    state: GameState,
    stage: Stage,
    snakes: Vec<Snake>,
    mappings: Vec<InputMapping>,
    segments: Vec<Segment>,
    layouts: Vec<Vec<&'static str>>,
    now: u64,
    frames: u64,
    check_falling_every: u64,
}

fn at(x: i32, y: i32) -> StageCoordinate {
    StageCoordinate::new(x, y)
}

impl Game {
    fn new(layouts: Vec<Vec<&'static str>>) -> Game {
        Game {
            state: GameState::new(),
            stage: Stage::new(),
            snakes: init_snakes(),
            mappings: vec![InputMapping::new(1, 2, 3, 4), InputMapping::new(11, 12, 13, 14), InputMapping::new(21, 22, 23, 24)],
            segments: Vec::new(),
            layouts,
            now: 0,
            frames: 0,
            check_falling_every: 20,
        }
    }

    fn frame(&mut self, confirm: bool, keys: &[u32]) -> (StateOutput, FrameOutput) {
        self.now += FRAME;
        self.frames += 1;
        let input = StateInput { confirm, stage_count: self.layouts.len() as u32, saved_stage: 0 };
        let told = update_gamestate(&mut self.state, &input);
        if let Some(event) = &told.event {
            read_gamestate_events(&mut self.snakes, event);
            let layout = match &event.data {
                GameStateData::Setup(setup) => self
                    .layouts
                    .get(setup.stage_id as usize)
                    .map(|rows| rows.iter().map(|row| row.chars().collect()).collect()),
                _ => None,
            };
            tell_stage(&mut self.stage, event, layout).unwrap();
        }
        assert!(frame_ready(&self.snakes, &self.state));
        let out = run_frame(
            &mut self.snakes,
            &self.mappings,
            &mut self.segments,
            &mut self.stage,
            &mut self.state,
            &keys.to_vec(),
            self.now,
            self.frames % self.check_falling_every == 0,
        );
        (told, out)
    }

    fn play(&self) -> &PlayData {
        match &self.state.data {
            GameStateData::Play(play) => play,
            _ => panic!("not in play"),
        }
    }

    fn to_start(&mut self) {
        self.frame(false, &[]);
        assert!(matches!(self.state.data, GameStateData::Setup(_)));
        self.frame(true, &[]);
        let mut frames = 0;
        while !matches!(self.state.data, GameStateData::Start) {
            self.frame(false, &[]);
            frames += 1;
            assert!(frames < 20);
        }
        self.frame(false, &[]);
    }

    fn to_play(&mut self, keys: &[u32]) -> Vec<StageEvent> {
        self.to_start();
        self.frame(false, keys);
        let before: Vec<StageCoordinate> = self.snakes.iter().map(|snake| snake.stage_coordinate).collect();
        self.last_move_time_is(None);
        let (told, out) = self.frame(true, &[]);
        assert!(matches!(&told.event, Some(event) if matches!(event.data, GameStateData::Play(_))));
        assert_eq!(self.play().last_move_time, self.now);
        assert_ne!(self.snakes[0].stage_coordinate, before[0]);
        out.events
    }

    fn last_move_time_is(&self, expected: Option<u64>) {
        match (&self.state.data, expected) {
            (GameStateData::Play(play), Some(time)) => assert_eq!(play.last_move_time, time),
            (GameStateData::Play(_), None) => panic!("in play"),
            _ => assert!(expected.is_none()),
        }
    }

    fn until_move(&mut self) -> Vec<StageEvent> {
        let before = self.play().last_move_time;
        let mut events = Vec::new();
        loop {
            let (_, out) = self.frame(false, &[]);
            events.extend(out.events);
            match &self.state.data {
                GameStateData::Play(play) if play.last_move_time == before => {}
                _ => break,
            }
        }
        events
    }
}

#[test]
fn a_game_starts_with_the_reveal() {
    let mut game = Game::new(vec![vec!["AB", "1*"]]);
    let (told, out) = game.frame(false, &[]);
    assert!(matches!(&told.event, Some(event) if matches!(event.data, GameStateData::Setup(setup) if setup.stage_id == 0)));
    assert!(out.steps.is_empty());
    assert_eq!(game.stage.width, 2);
    for _ in 0..3 {
        let (_, out) = game.frame(false, &[]);
        assert!(out.steps.is_empty());
    }
    let (_, out) = game.frame(false, &[]);
    assert_eq!(out.steps.len(), 1);
    assert_eq!(out.steps[0].coordinate, at(0, 0));
    assert_eq!(out.steps[0].tile, Some(TileKind::A));
    assert_eq!(game.stage.stage_setting_data.interval, 430_000_000);
    let mut tiles = 1;
    let mut events = Vec::new();
    while !matches!(game.state.data, GameStateData::Start) {
        let (_, out) = game.frame(false, &[]);
        tiles += out.steps.len();
        events.extend(out.events);
        assert!(game.frames < 100);
    }
    assert_eq!(tiles, 4);
    assert_eq!(events.len(), 2);
    assert_eq!(game.snakes[0].stage_coordinate, at(0, 1));
    assert_eq!(game.stage.snack_coordinate, at(1, 1));
    assert_eq!(game.snakes[1].stage_coordinate, at(1000, 1000));
}

#[test]
fn a_skipped_reveal_is_done_in_one_frame() {
    let mut game = Game::new(vec![vec!["AAA", "A1A", "AAA"]]);
    game.frame(false, &[]);
    let (_, out) = game.frame(true, &[]);
    assert_eq!(out.steps.len(), 9);
    assert_eq!(out.events.len(), 1);
    assert!(matches!(game.state.data, GameStateData::Setup(setup) if setup.setup_done));
    assert_eq!(game.snakes[0].stage_coordinate, at(1, 1));
    for _ in 0..9 {
        game.frame(false, &[]);
        assert!(matches!(game.state.data, GameStateData::Setup(_)));
    }
    game.frame(false, &[]);
    assert!(matches!(game.state.data, GameStateData::Start));
    assert_eq!(game.state.stage_width, 3);
    assert_eq!(game.state.stage_height, 3);
}

#[test]
fn a_snake_walks_off_the_floor_and_falls() {
    let mut game = Game::new(vec![vec!["AAA", "A1A", "AAA"]]);
    game.check_falling_every = 60;
    game.to_start();
    assert_eq!(game.snakes[0].stage_coordinate, at(1, 1));
    assert_eq!(game.snakes[0].direction, Direction::Up);
    let (_, out) = game.frame(true, &[]);
    assert!(out.events.is_empty());
    assert_eq!(game.snakes[0].stage_coordinate, at(1, 0));
    assert_eq!(game.play().last_move_time, game.now);
    assert!(!game.snakes[0].falling);
    assert!(!game.play().snakes_walkable_mask.get(&at(1, 0)));
    assert!(game.play().snakes_walkable_mask.get(&at(1, 1)));
    let moved_at = game.now;
    for _ in 0..5 {
        game.frame(false, &[]);
        assert_eq!(game.snakes[0].stage_coordinate, at(1, 0));
        assert_eq!(game.play().last_move_time, moved_at);
    }
    let (_, out) = game.frame(false, &[]);
    assert_eq!(game.play().last_move_time, moved_at + 600_000_000);
    assert_eq!(game.snakes[0].stage_coordinate, at(1, -1));
    assert_eq!(out.events, vec![StageEvent { data: StageEventData::SnakeFalling(1) }]);
    assert!(game.snakes[0].falling);
    assert!(!game.play().crash);
    assert_eq!(game.snakes[0].fall_duration, 0);
    for tick in 1..=3 {
        let events = game.until_move();
        assert!(events.is_empty());
        assert_eq!(game.snakes[0].stage_coordinate, at(1, -1));
        assert!(game.snakes[0].falling);
        assert_eq!(game.snakes[0].fall_duration, tick);
    }
    assert!(!game.play().all_falling);
    let mut frames = 0;
    while matches!(game.state.data, GameStateData::Play(_)) {
        game.frame(false, &[]);
        frames += 1;
        assert!(frames <= 61);
    }
    assert!(matches!(game.state.data, GameStateData::Death));
    assert_eq!(game.snakes[0].stage_coordinate, at(1, -1));
}

#[test]
fn eating_the_last_snack_wins_the_stage() {
    let mut game = Game::new(vec![vec!["A*A", "A1A", "AAA"], vec!["1A"]]);
    game.to_start();
    assert_eq!(game.stage.snack_coordinate, at(1, 0));
    let (_, out) = game.frame(true, &[]);
    assert_eq!(out.events, vec![StageEvent { data: StageEventData::ClearSnack }]);
    assert_eq!(game.snakes[0].stage_coordinate, at(1, 0));
    assert_eq!(game.play().goal, 1);
    assert_eq!(game.play().score, 1);
    assert_eq!(game.play().move_speed, 110);
    assert_eq!(game.play().move_interval, 454_545_454);
    assert!(!game.snakes[0].had_a_snack);
    let moved_at = game.now;
    let (told, _) = game.frame(false, &[]);
    match &game.state.data {
        GameStateData::Win(win) => {
            assert_eq!(win.play_data.score, 1);
            assert_eq!(win.play_data.goal, 1);
            assert_eq!(win.play_data.stage_id, 0);
            assert_eq!(win.play_data.move_speed, 110);
            assert_eq!(win.play_data.last_move_time, moved_at);
            assert_eq!(win.play_data.snake1_data.coordinate, at(1, 0));
            assert!(!win.play_data.snakes_walkable_mask.get(&at(1, 0)));
        }
        _ => panic!("not in win"),
    }
    assert!(matches!(&told.event, Some(event) if matches!(&event.data, GameStateData::Win(win) if win.play_data.score == 1 && win.play_data.goal == 1)));
    assert!(game.segments.is_empty());
    let (_, out) = game.frame(true, &[]);
    assert!(matches!(game.state.data, GameStateData::Reset(0)));
    assert_eq!(game.state.stage, 1);
    assert!(out.events.is_empty());
    for _ in 0..29 {
        game.frame(false, &[]);
        assert!(matches!(game.state.data, GameStateData::Reset(_)));
    }
    game.frame(false, &[]);
    assert!(matches!(game.state.data, GameStateData::Setup(setup) if setup.stage_id == 1));
    assert_eq!(game.stage.id, 1);
    assert_eq!(game.stage.width, 2);
    assert_eq!(game.snakes[0].stage_coordinate, at(0, 0));
    assert_eq!(game.snakes[0].last_direction_moved, Direction::Unset);
    assert_eq!(game.snakes[1].stage_coordinate, at(1000, 1000));
}

#[test]
fn glitter_after_a_win() {
    let mut game = Game::new(vec![vec!["A*A", "A1A", "AAA"]]);
    game.to_play(&[]);
    game.frame(false, &[]);
    assert!(matches!(game.state.data, GameStateData::Win(_)));
    for _ in 0..5 {
        let (_, out) = game.frame(false, &[]);
        assert_eq!(out.events.len(), 1);
        match out.events[0].data {
            StageEventData::SpawnSnack(c) => {
                assert!(game.stage.walkable.get(&c));
                assert_ne!(c, at(1, 0));
                assert_eq!(game.stage.snack_coordinate, c);
            }
            _ => panic!("no snack"),
        }
    }
    assert_eq!(game.state.stage, 0);
}

#[test]
fn a_snake_that_eats_grows_and_speeds_up() {
    let mut game = Game::new(vec![vec!["AAAAAAA"], vec!["AAAAAAAAAAAA", "A1*AAAAAAAAA", "AAAAAAAAAAAA"]]);
    game.state = GameState::new();
    let input = StateInput { confirm: false, stage_count: 2, saved_stage: 1 };
    let told = update_gamestate(&mut game.state, &input);
    let event = told.event.unwrap();
    read_gamestate_events(&mut game.snakes, &event);
    tell_stage(&mut game.stage, &event, Some(game.layouts[1].iter().map(|row| row.chars().collect()).collect())).unwrap();
    game.frame(true, &[]);
    while !matches!(game.state.data, GameStateData::Start) {
        game.frame(false, &[]);
    }
    game.frame(false, &[RIGHT_1]);
    assert_eq!(game.snakes[0].direction, Direction::Right);
    let (_, out) = game.frame(true, &[]);
    let events = out.events;
    assert_eq!(game.play().goal, 5);
    assert_eq!(game.snakes[0].stage_coordinate, at(2, 1));
    assert_eq!(events.len(), 2);
    assert_eq!(events[0], StageEvent { data: StageEventData::SnackEaten(1) });
    let next = match events[1].data {
        StageEventData::SpawnSnack(c) => c,
        _ => panic!("no snack"),
    };
    assert_eq!(game.stage.snack_coordinate, next);
    assert_ne!(next, at(2, 1));
    assert!(game.stage.walkable.get(&next));
    assert_eq!(game.play().score, 1);
    assert_eq!(game.play().move_speed, 112);
    assert_eq!(game.play().move_interval, 446_428_571);
    assert!(game.snakes[0].had_a_snack);
    assert!(game.segments.is_empty());
    let (told, _) = game.frame(false, &[]);
    assert_eq!(told.ui_events.len(), 1);
    assert_eq!(told.ui_events[0].id, "score");
    assert_eq!(told.ui_events[0].text, "1 of 5");
    assert_eq!(game.segments, vec![Segment { snake_id: 1, coordinate: at(2, 1), move_counter: 0 }]);
    assert_eq!(game.snakes[0].segments, 1);
    assert!(!game.snakes[0].had_a_snack);
    game.stage.snack_coordinate = at(11, 2);
    game.until_move();
    assert_eq!(game.snakes[0].stage_coordinate, at(3, 1));
    assert_eq!(game.segments[0], Segment { snake_id: 1, coordinate: at(2, 1), move_counter: 1 });
    assert!(!game.play().snakes_walkable_mask.get(&at(2, 1)));
    assert!(!game.play().snakes_walkable_mask.get(&at(3, 1)));
    game.until_move();
    assert_eq!(game.snakes[0].stage_coordinate, at(4, 1));
    assert_eq!(game.segments[0], Segment { snake_id: 1, coordinate: at(3, 1), move_counter: 1 });
    assert!(game.play().snakes_walkable_mask.get(&at(2, 1)));
    assert!(!game.play().snakes_walkable_mask.get(&at(3, 1)));
    assert!(!game.play().snakes_walkable_mask.get(&at(4, 1)));
    assert!(!game.play().crash);
}

#[test]
fn moving_into_another_snake_is_a_crash() {
    let mut game = Game::new(vec![vec!["A1AAA", "AAA2A"]]);
    game.stage.snack_coordinate = at(0, 1);
    let events = game.to_play(&[RIGHT_1, UP_2]);
    assert!(events.is_empty());
    assert!(game.snakes[1].active);
    assert!(!game.snakes[2].active);
    assert_eq!(game.snakes[0].stage_coordinate, at(2, 0));
    assert_eq!(game.snakes[1].stage_coordinate, at(3, 0));
    assert!(!game.play().crash);
    assert!(!game.play().snakes_walkable_mask.get(&at(3, 0)));
    let events = game.until_move();
    assert_eq!(game.snakes[0].stage_coordinate, at(3, 0));
    assert_eq!(game.snakes[1].stage_coordinate, at(3, -1));
    assert!(game.play().crash);
    assert_eq!(events, vec![StageEvent { data: StageEventData::SnakeFalling(2) }]);
    assert!(!game.snakes[0].falling);
    game.frame(false, &[]);
    assert!(matches!(game.state.data, GameStateData::Death));
}

#[test]
fn the_snake_with_the_lower_id_moves_first() {
    let mut game = Game::new(vec![vec!["AAAAA", "A1A2A", "AAAAA"]]);
    game.to_play(&[RIGHT_1, LEFT_2]);
    assert_eq!(game.snakes[0].stage_coordinate, at(2, 1));
    assert_eq!(game.snakes[1].stage_coordinate, at(2, 1));
    assert!(game.play().crash);
    let mut ahead = Game::new(vec![vec!["A12AAA"]]);
    ahead.to_play(&[RIGHT_1, RIGHT_2]);
    assert_eq!(ahead.snakes[0].stage_coordinate, at(2, 0));
    assert_eq!(ahead.snakes[1].stage_coordinate, at(3, 0));
    assert!(!ahead.play().crash);
    ahead.until_move();
    assert_eq!(ahead.snakes[0].stage_coordinate, at(3, 0));
    assert_eq!(ahead.snakes[1].stage_coordinate, at(4, 0));
    assert!(ahead.play().crash);
    let mut behind = Game::new(vec![vec!["A21AAA"]]);
    behind.to_play(&[RIGHT_1, RIGHT_2]);
    assert_eq!(behind.snakes[0].stage_coordinate, at(3, 0));
    assert_eq!(behind.snakes[1].stage_coordinate, at(2, 0));
    behind.until_move();
    assert_eq!(behind.snakes[0].stage_coordinate, at(4, 0));
    assert_eq!(behind.snakes[1].stage_coordinate, at(3, 0));
    assert!(!behind.play().crash);
}

#[test]
fn a_frame_without_room_is_told_apart() {
    let mut snakes = init_snakes();
    let mut state = GameState::new();
    snakes[1].stage_coordinate = at(i32::MAX, 0);
    snakes[2].fall_duration = u32::MAX;
    snakes[0].segments = u32::MAX;
    assert!(frame_ready(&snakes, &state));
    state.data = GameStateData::Start;
    assert!(frame_ready(&snakes, &state));
    state.data = GameStateData::Play(PlayData::new(0, 2, 2));
    assert!(!frame_ready(&snakes, &state));
    let mut snakes = init_snakes();
    assert!(frame_ready(&snakes, &state));
    snakes[1].stage_coordinate = at(i32::MAX, 0);
    assert!(!frame_ready(&snakes, &state));
    snakes[1].stage_coordinate = at(i32::MAX - 1, i32::MIN + 1);
    assert!(frame_ready(&snakes, &state));
    snakes[1].stage_coordinate = at(0, i32::MIN);
    assert!(!frame_ready(&snakes, &state));
    snakes[1].stage_coordinate = at(0, 0);
    snakes[2].fall_duration = u32::MAX;
    assert!(!frame_ready(&snakes, &state));
    snakes[2].fall_duration = u32::MAX - 1;
    snakes[0].segments = u32::MAX;
    assert!(!frame_ready(&snakes, &state));
    snakes[0].segments = u32::MAX - 1;
    assert!(frame_ready(&snakes, &state));
    let mut play = PlayData::new(0, 2, 2);
    play.score = u32::MAX - 2;
    state.data = GameStateData::Play(play);
    assert!(!frame_ready(&snakes, &state));
    let mut play = PlayData::new(0, 2, 2);
    play.score = u32::MAX - 3;
    state.data = GameStateData::Play(play);
    assert!(frame_ready(&snakes, &state));
}
