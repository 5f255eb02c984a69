use snakes::coordinate::StageCoordinate;
use snakes::state::{
    move_interval, update_gamestate, GameState, GameStateData, GameplayConfig, PlayData, SetupData,
    SnakePlayData, StateInput, StateOutput, WinData,
};
use snakes::ui::UIEvent;

fn idle() -> StateInput {
    StateInput { confirm: false, stage_count: 5, saved_stage: 0 }
}

fn confirm() -> StateInput {
    StateInput { confirm: true, stage_count: 5, saved_stage: 0 }
}

fn texts(out: &StateOutput) -> Vec<(String, String)> {
    out.ui_events.iter().map(|e| (e.id.to_string(), e.text.clone())).collect()
}

fn pair(id: &str, text: &str) -> (String, String) {
    (id.to_string(), text.to_string())
}

fn game_in(data: GameStateData) -> GameState {
    let mut game = GameState::new();
    game.stage = 1;
    game.final_stage = 4;
    game.stage_width = 3;
    game.stage_height = 2;
    game.data = data;
    game
}

#[test]
fn a_new_game_is_in_init() {
    let game = GameState::new();
    assert!(matches!(game.data, GameStateData::Init));
    assert_eq!(game.stage, 0);
    assert_eq!(game.final_stage, 0);
    let other = GameState::default();
    assert!(matches!(other.data, GameStateData::Init));
    assert!(matches!(GameStateData::default(), GameStateData::Init));
}

#[test]
fn init_selects_the_saved_stage() {
    let mut game = GameState::new();
    let out = update_gamestate(&mut game, &StateInput { confirm: false, stage_count: 5, saved_stage: 2 });
    assert_eq!(game.final_stage, 4);
    assert_eq!(game.stage, 2);
    match &game.data {
        GameStateData::Setup(setup) => {
            assert_eq!(*setup, SetupData { stage_id: 2, setup_done: false, fast_forward: false, fast_forward_buffer: 0 });
        }
        _ => panic!("not in setup"),
    }
    match &out.event {
        Some(event) => assert!(matches!(event.data, GameStateData::Setup(setup) if setup.stage_id == 2)),
        None => panic!("no notice"),
    }
    assert_eq!(
        texts(&out),
        vec![
            pair("header", ""),
            pair("sub_header", ""),
            pair("score", ""),
            pair("stage", ""),
            pair("stage", "stage 2"),
        ]
    );
}

#[test]
fn init_accepts_the_last_stage() {
    let mut game = GameState::new();
    update_gamestate(&mut game, &StateInput { confirm: false, stage_count: 5, saved_stage: 4 });
    assert_eq!(game.stage, 4);
}

#[test]
fn init_falls_back_to_the_first_stage() {
    let mut game = GameState::new();
    update_gamestate(&mut game, &StateInput { confirm: false, stage_count: 5, saved_stage: 5 });
    assert_eq!(game.stage, 0);
    assert_eq!(game.final_stage, 4);
    let mut single = GameState::new();
    update_gamestate(&mut single, &StateInput { confirm: true, stage_count: 1, saved_stage: u32::MAX });
    assert_eq!(single.stage, 0);
    assert_eq!(single.final_stage, 0);
}

#[test]
fn setup_waits_for_the_reveal() {
    let mut game = game_in(GameStateData::Setup(SetupData::new(1)));
    for _ in 0..5 {
        let out = update_gamestate(&mut game, &idle());
        assert!(out.event.is_none());
        assert!(out.ui_events.is_empty());
        assert!(matches!(game.data, GameStateData::Setup(setup) if setup == SetupData::new(1)));
    }
    if let GameStateData::Setup(setup) = &mut game.data {
        setup.setup_done = true;
    }
    let out = update_gamestate(&mut game, &idle());
    assert!(matches!(game.data, GameStateData::Start));
    assert!(matches!(&out.event, Some(event) if matches!(event.data, GameStateData::Start)));
    assert_eq!(texts(&out), vec![pair("header", "START"), pair("sub_header", "press space")]);
}

#[test]
fn setup_fast_forward_waits_for_the_buffer() {
    let mut game = game_in(GameStateData::Setup(SetupData::new(1)));
    let out = update_gamestate(&mut game, &confirm());
    assert!(out.event.is_none());
    assert!(matches!(game.data, GameStateData::Setup(setup) if setup.fast_forward && setup.fast_forward_buffer == 1));
    if let GameStateData::Setup(setup) = &mut game.data {
        setup.setup_done = true;
    }
    for tick in 2..=10 {
        let out = update_gamestate(&mut game, &idle());
        assert!(out.event.is_none());
        assert!(matches!(game.data, GameStateData::Setup(setup) if setup.fast_forward_buffer == tick));
    }
    let out = update_gamestate(&mut game, &idle());
    assert!(out.event.is_some());
    assert!(matches!(game.data, GameStateData::Start));
}

#[test]
fn setup_fast_forward_is_not_done_before_the_reveal() {
    let mut setup = SetupData::new(0);
    setup.fast_forward = true;
    setup.fast_forward_buffer = 50;
    let mut game = game_in(GameStateData::Setup(setup));
    let out = update_gamestate(&mut game, &idle());
    assert!(out.event.is_none());
    assert!(matches!(game.data, GameStateData::Setup(setup) if setup.fast_forward_buffer == 51 && !setup.setup_done));
}

#[test]
fn start_waits_for_confirm() {
    let mut game = game_in(GameStateData::Start);
    let out = update_gamestate(&mut game, &idle());
    assert!(out.event.is_none());
    assert!(out.ui_events.is_empty());
    assert!(matches!(game.data, GameStateData::Start));
}

#[test]
fn start_enters_play_with_a_fresh_session() {
    let mut game = game_in(GameStateData::Start);
    let out = update_gamestate(&mut game, &confirm());
    match &game.data {
        GameStateData::Play(play) => {
            assert_eq!(play.stage_id, 1);
            assert_eq!(play.goal, 5);
            assert_eq!(play.score, 0);
            assert_eq!(play.move_speed, 100);
            assert_eq!(play.move_speed_increment, 12);
            assert_eq!(play.move_interval, 500_000_000);
            assert_eq!(play.last_move_time, 0);
            assert_eq!(play.snakes_walkable_mask.rows.len(), 2);
            assert_eq!(play.snakes_walkable_mask.rows[0].tiles, vec![true, true, true]);
            assert!(!play.crash && !play.all_falling && !play.someone_had_a_snack);
        }
        _ => panic!("not in play"),
    }
    assert!(matches!(&out.event, Some(event) if matches!(&event.data, GameStateData::Play(play) if play.goal == 5)));
    assert_eq!(texts(&out), vec![pair("header", ""), pair("sub_header", ""), pair("score", "0 of 5")]);
}

#[test]
fn play_goes_on_while_nothing_ends_it() {
    let mut game = game_in(GameStateData::Play(PlayData::new(1, 3, 2)));
    let out = update_gamestate(&mut game, &confirm());
    assert!(out.event.is_none());
    assert!(out.ui_events.is_empty());
    assert!(matches!(game.data, GameStateData::Play(_)));
}

#[test]
fn play_refreshes_the_score_label() {
    let mut play = PlayData::new(1, 3, 2);
    play.score = 3;
    play.someone_had_a_snack = true;
    let mut game = game_in(GameStateData::Play(play));
    let out = update_gamestate(&mut game, &idle());
    assert!(out.event.is_none());
    assert_eq!(texts(&out), vec![pair("score", "3 of 5")]);
    assert!(matches!(&game.data, GameStateData::Play(play) if !play.someone_had_a_snack && play.score == 3));
    let again = update_gamestate(&mut game, &idle());
    assert!(again.ui_events.is_empty());
}

#[test]
fn play_enters_win_with_the_session() {
    let mut play = PlayData::new(0, 3, 3);
    play.score = 1;
    play.move_speed = 110;
    play.last_move_time = 77;
    play.snake1_data.coordinate = StageCoordinate::new(1, 0);
    play.snakes_walkable_mask.set(&StageCoordinate::new(1, 0), false);
    play.someone_had_a_snack = true;
    let mut game = game_in(GameStateData::Play(play));
    let out = update_gamestate(&mut game, &idle());
    match &game.data {
        GameStateData::Win(win) => {
            assert_eq!(win.play_data.score, 1);
            assert_eq!(win.play_data.goal, 1);
            assert_eq!(win.play_data.move_speed, 110);
            assert_eq!(win.play_data.last_move_time, 77);
            assert_eq!(win.play_data.snake1_data.coordinate, StageCoordinate::new(1, 0));
            assert!(!win.play_data.snakes_walkable_mask.get(&StageCoordinate::new(1, 0)));
            assert!(win.play_data.snakes_walkable_mask.get(&StageCoordinate::new(0, 0)));
            assert!(win.play_data.someone_had_a_snack);
        }
        _ => panic!("not in win"),
    }
    assert!(matches!(&out.event, Some(event) if matches!(&event.data, GameStateData::Win(win) if win.play_data.score == 1)));
    assert_eq!(
        texts(&out),
        vec![pair("header", "WIN!"), pair("sub_header", "press space"), pair("score", ""), pair("stage", "")]
    );
}

#[test]
fn a_win_counts_before_a_crash() {
    let mut play = PlayData::new(0, 3, 3);
    play.score = 2;
    play.crash = true;
    play.all_falling = true;
    let mut game = game_in(GameStateData::Play(play));
    update_gamestate(&mut game, &idle());
    assert!(matches!(game.data, GameStateData::Win(_)));
}

#[test]
fn play_enters_death_after_a_crash() {
    let mut play = PlayData::new(1, 3, 2);
    play.crash = true;
    play.someone_had_a_snack = true;
    let mut game = game_in(GameStateData::Play(play));
    let out = update_gamestate(&mut game, &idle());
    assert!(matches!(game.data, GameStateData::Death));
    assert!(matches!(&out.event, Some(event) if matches!(event.data, GameStateData::Death)));
    assert_eq!(
        texts(&out),
        vec![pair("header", "DEATH"), pair("sub_header", "press space"), pair("score", ""), pair("stage", "")]
    );
}

#[test]
fn play_enters_death_when_all_are_falling() {
    let mut play = PlayData::new(1, 3, 2);
    play.all_falling = true;
    let mut game = game_in(GameStateData::Play(play));
    update_gamestate(&mut game, &idle());
    assert!(matches!(game.data, GameStateData::Death));
}

#[test]
fn win_moves_on_to_the_next_stage() {
    let mut game = game_in(GameStateData::Win(WinData::new(PlayData::new(1, 3, 2))));
    let out = update_gamestate(&mut game, &idle());
    assert!(out.event.is_none());
    assert!(matches!(game.data, GameStateData::Win(_)));
    assert_eq!(game.stage, 1);
    let out = update_gamestate(&mut game, &confirm());
    assert!(matches!(game.data, GameStateData::Reset(0)));
    assert_eq!(game.stage, 2);
    assert_eq!(
        texts(&out),
        vec![pair("header", ""), pair("sub_header", ""), pair("score", ""), pair("stage", "")]
    );
}

#[test]
fn win_on_the_last_stage_stays_there() {
    let mut game = game_in(GameStateData::Win(WinData::new(PlayData::new(4, 3, 2))));
    game.stage = 4;
    update_gamestate(&mut game, &confirm());
    assert!(matches!(game.data, GameStateData::Reset(0)));
    assert_eq!(game.stage, 4);
}

#[test]
fn death_keeps_the_stage() {
    let mut game = game_in(GameStateData::Death);
    let out = update_gamestate(&mut game, &idle());
    assert!(out.event.is_none());
    assert!(matches!(game.data, GameStateData::Death));
    update_gamestate(&mut game, &confirm());
    assert!(matches!(game.data, GameStateData::Reset(0)));
    assert_eq!(game.stage, 1);
}

#[test]
fn reset_lasts_thirty_ticks() {
    let mut game = game_in(GameStateData::Reset(0));
    for tick in 1..30 {
        let out = update_gamestate(&mut game, &confirm());
        assert!(out.event.is_none());
        assert!(matches!(game.data, GameStateData::Reset(counter) if counter == tick));
    }
    let out = update_gamestate(&mut game, &idle());
    assert!(matches!(game.data, GameStateData::Setup(setup) if setup == SetupData::new(1)));
    assert!(matches!(&out.event, Some(event) if matches!(event.data, GameStateData::Setup(_))));
    assert_eq!(texts(&out), vec![pair("stage", "stage 1")]);
}

#[test]
fn set_data_enters_the_mode_and_copies_it() {
    let mut game = game_in(GameStateData::Start);
    let (event, ui) = game.set_data(GameStateData::Reset(3));
    assert!(matches!(game.data, GameStateData::Reset(3)));
    assert!(matches!(event.data, GameStateData::Reset(3)));
    assert_eq!(ui.len(), 4);
    assert_eq!(game.stage, 1);
    let (event, ui) = game.set_data(GameStateData::Init);
    assert!(matches!(event.data, GameStateData::Init));
    assert!(ui.is_empty());
}

#[test]
fn gameplay_config_by_stage() {
    assert_eq!(GameplayConfig::new(0), GameplayConfig { goal: 1, start_speed: 100, speed_increment: 10 });
    assert_eq!(GameplayConfig::new(1), GameplayConfig { goal: 5, start_speed: 100, speed_increment: 12 });
    assert_eq!(GameplayConfig::new(2), GameplayConfig { goal: 24, start_speed: 180, speed_increment: 4 });
    assert_eq!(GameplayConfig::new(3), GameplayConfig { goal: 12, start_speed: 300, speed_increment: 10 });
    assert_eq!(GameplayConfig::new(4), GameplayConfig { goal: 36, start_speed: 200, speed_increment: 1 });
    assert_eq!(GameplayConfig::new(5), GameplayConfig { goal: 10, start_speed: 100, speed_increment: 5 });
    assert_eq!(GameplayConfig::new(u32::MAX), GameplayConfig { goal: 10, start_speed: 100, speed_increment: 5 });
}

#[test]
fn move_interval_is_base_over_speed() {
    assert_eq!(move_interval(100), 500_000_000);
    assert_eq!(move_interval(200), 250_000_000);
    assert_eq!(move_interval(180), 277_777_777);
    assert_eq!(move_interval(300), 166_666_666);
    assert_eq!(move_interval(110), 454_545_454);
    assert_eq!(move_interval(50), 1_000_000_000);
}

#[test]
fn move_interval_is_clamped_near_zero_speed() {
    assert_eq!(move_interval(1), 50_000_000_000);
    assert_eq!(move_interval(0), 50_000_000_000);
}

#[test]
fn move_interval_is_never_zero() {
    assert_eq!(move_interval(u32::MAX), 11);
    for speed in [0u32, 1, 2, 99, 100, 101, 1_000_000, 4_000_000_000, u32::MAX] {
        assert!(move_interval(speed) > 0);
    }
}

#[test]
fn new_session_takes_its_pace_from_the_stage() {
    let play = PlayData::new(2, 4, 3);
    assert_eq!(play.stage_id, 2);
    assert_eq!(play.goal, 24);
    assert_eq!(play.move_speed, 180);
    assert_eq!(play.move_speed_increment, 4);
    assert_eq!(play.move_interval, 277_777_777);
    assert_eq!(play.snake1_data, SnakePlayData::new());
    assert_eq!(play.snake2_data, SnakePlayData::new());
    assert_eq!(play.snake3_data, SnakePlayData::new());
    assert_eq!(play.snakes_walkable_mask.rows.len(), 3);
    assert_eq!(play.snakes_walkable_mask.rows[2].tiles.len(), 4);
}

#[test]
fn increment_speed_raises_speed_and_pace() {
    let mut play = PlayData::new(0, 3, 3);
    play.increment_speed();
    assert_eq!(play.move_speed, 110);
    assert_eq!(play.move_interval, 454_545_454);
    play.increment_speed();
    assert_eq!(play.move_speed, 120);
    assert_eq!(play.move_interval, 416_666_666);
}

#[test]
fn increment_speed_stops_at_the_largest_speed() {
    let mut play = PlayData::new(0, 3, 3);
    play.move_speed = u32::MAX - 3;
    play.increment_speed();
    assert_eq!(play.move_speed, u32::MAX);
    assert_eq!(play.move_interval, 11);
}

#[test]
fn increment_speed_from_a_standstill() {
    let mut play = PlayData::new(0, 3, 3);
    play.move_speed = 0;
    play.move_speed_increment = 0;
    play.increment_speed();
    assert_eq!(play.move_speed, 0);
    assert_eq!(play.move_interval, 50_000_000_000);
}

#[test]
fn snake_data_by_id() {
    let mut play = PlayData::new(0, 3, 3);
    let mut data = SnakePlayData::new();
    data.segments = 7;
    play.set_snake_data(2, data);
    assert_eq!(play.snake2_data.segments, 7);
    assert_eq!(play.snake_data(2).segments, 7);
    assert_eq!(play.snake_data(1), SnakePlayData::new());
    play.set_snake_data(4, data);
    play.set_snake_data(0, data);
    assert_eq!(play.snake1_data, SnakePlayData::new());
    assert_eq!(play.snake3_data, SnakePlayData::new());
    assert_eq!(play.snake_data(9), SnakePlayData::new());
}

#[test]
fn score_and_stage_labels() {
    let score = UIEvent::score(12, 345);
    assert_eq!(score.id, "score");
    assert_eq!(score.text, "12 of 345");
    assert_eq!(UIEvent::score(0, 1).text, "0 of 1");
    assert_eq!(UIEvent::score(u32::MAX, 10).text, "4294967295 of 10");
    let stage = UIEvent::stage(7);
    assert_eq!(stage.id, "stage");
    assert_eq!(stage.text, "stage 7");
    assert_eq!(UIEvent::stage(0).text, "stage 0");
    assert_eq!(UIEvent::stage(1000).text, "stage 1000");
    assert_eq!(UIEvent::cleared("header").text, "");
    assert_eq!(UIEvent::fixed("header", "WIN!").text, "WIN!");
    assert_eq!(UIEvent::fixed("header", "WIN!").id, "header");
}
