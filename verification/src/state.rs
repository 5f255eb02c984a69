//! The game-mode state machine and the data that the modes carry.
//!
//! A game runs through `Init`, `Setup`, `Start`, `Play`, then `Win` or
//! `Death`, then `Reset`, and back to `Setup`. The `Play` mode owns the
//! session: score, pace, the mirror of each snake and the dynamic mask.

use vstd::prelude::*;
use crate::coordinate::{origin, StageCoordinate};
use crate::mask::{grid_filled, StageWalkableMask};
use crate::ui::{score_text, stage_text, UIEvent, UIText};

verus! {

/// The time between two moves at the default speed, in nanoseconds.
pub const DEFAULT_MOVE_INTERVAL: u64 = 500_000_000;

/// The default snake speed. Speeds are counted in hundredths of it.
pub const DEFAULT_MOVE_SPEED: u32 = 100;

/// The slowest speed that the pace is computed for.
pub const MIN_MOVE_SPEED: u32 = 1;

/// The number of ticks that `Reset` lasts.
pub const RESET_TICKS: u32 = 30;

/// The number of ticks that a fast-forwarded setup waits before it hands over
/// to `Start`, so that the key press that skipped the reveal is not read a
/// second time.
pub const FAST_FORWARD_BUFFER: u32 = 10;

/// The time between two moves at `move_speed`, in nanoseconds: the default
/// interval divided by the speed, where a speed under the minimum counts as
/// the minimum.
pub open spec fn move_interval_for(move_speed: u32) -> u64 {
    let speed: int = if move_speed > MIN_MOVE_SPEED { move_speed as int } else { MIN_MOVE_SPEED as int };
    (DEFAULT_MOVE_INTERVAL * DEFAULT_MOVE_SPEED / speed) as u64
}

/// The speed after one snack: the increment is added, and the sum stops at
/// the largest speed that can be represented.
pub open spec fn raised_speed(move_speed: u32, increment: u32) -> u32 {
    if move_speed + increment > u32::MAX { u32::MAX } else { (move_speed + increment) as u32 }
}

/// Computes `move_interval_for`.
pub fn move_interval(move_speed: u32) -> (interval: u64)
    ensures
        interval == move_interval_for(move_speed),
        interval > 0,
{
    let speed: u64 = if move_speed > MIN_MOVE_SPEED { move_speed as u64 } else { MIN_MOVE_SPEED as u64 };
    let scaled: u64 = DEFAULT_MOVE_INTERVAL * (DEFAULT_MOVE_SPEED as u64);
    assert(scaled / speed > 0) by (nonlinear_arith)
        requires
            scaled == 50_000_000_000,
            0 < speed <= 0xffff_ffff,
    ;
    scaled / speed
}

/// What the `Setup` mode carries.
#[derive(Debug, Clone, Copy, PartialEq, Eq, Structural)]
pub struct SetupData {
    pub stage_id: u32,
    pub setup_done: bool,
    pub fast_forward: bool,
    pub fast_forward_buffer: u32,
}

impl SetupData {
    pub fn new(stage_id: u32) -> (data: Self)
        ensures
            data == spec_new_setup(stage_id),
    {
        Self { stage_id, setup_done: false, fast_forward: false, fast_forward_buffer: 0 }
    }
}

pub open spec fn spec_new_setup(stage_id: u32) -> SetupData {
    SetupData { stage_id, setup_done: false, fast_forward: false, fast_forward_buffer: 0 }
}

/// The session's mirror of one snake: what the stage and the segments need to
/// know of it.
#[derive(Debug, Clone, Copy, PartialEq, Eq, Structural)]
pub struct SnakePlayData {
    pub active: bool,
    pub coordinate: StageCoordinate,
    pub previous_coordinate: StageCoordinate,
    pub had_a_snack: bool,
    pub falling: bool,
    pub fall_duration: u32,
    pub segments: u32,
    pub refresh_segments: bool,
    pub evaluate_move: bool,
}

pub open spec fn spec_new_snake_play_data() -> SnakePlayData {
    SnakePlayData {
        active: false,
        coordinate: origin(),
        previous_coordinate: origin(),
        had_a_snack: false,
        falling: false,
        fall_duration: 0,
        segments: 0,
        refresh_segments: false,
        evaluate_move: false,
    }
}

impl SnakePlayData {
    pub fn new() -> (data: Self)
        ensures
            data == spec_new_snake_play_data(),
    {
        SnakePlayData {
            active: false,
            coordinate: StageCoordinate::new(0, 0),
            previous_coordinate: StageCoordinate::new(0, 0),
            had_a_snack: false,
            falling: false,
            fall_duration: 0,
            segments: 0,
            refresh_segments: false,
            evaluate_move: false,
        }
    }
}

/// The rules of one stage: the score to reach, the speed at the start and what
/// each snack adds to it. Speeds are in hundredths of the default speed.
#[derive(Debug, Clone, Copy, PartialEq, Eq, Structural)]
pub struct GameplayConfig {
    pub goal: u32,
    pub start_speed: u32,
    pub speed_increment: u32,
}

pub open spec fn spec_gameplay_config(stage_id: u32) -> GameplayConfig {
    if stage_id == 0 {
        GameplayConfig { goal: 1, start_speed: 100, speed_increment: 10 }
    } else if stage_id == 1 {
        GameplayConfig { goal: 5, start_speed: 100, speed_increment: 12 }
    } else if stage_id == 2 {
        GameplayConfig { goal: 24, start_speed: 180, speed_increment: 4 }
    } else if stage_id == 3 {
        GameplayConfig { goal: 12, start_speed: 300, speed_increment: 10 }
    } else if stage_id == 4 {
        GameplayConfig { goal: 36, start_speed: 200, speed_increment: 1 }
    } else {
        GameplayConfig { goal: 10, start_speed: 100, speed_increment: 5 }
    }
}

impl GameplayConfig {
    pub fn new(stage_id: u32) -> (config: Self)
        ensures
            config == spec_gameplay_config(stage_id),
    {
        match stage_id {
            0 => Self { goal: 1, start_speed: 100, speed_increment: 10 },
            1 => Self { goal: 5, start_speed: 100, speed_increment: 12 },
            2 => Self { goal: 24, start_speed: 180, speed_increment: 4 },
            3 => Self { goal: 12, start_speed: 300, speed_increment: 10 },
            4 => Self { goal: 36, start_speed: 200, speed_increment: 1 },
            _ => Self { goal: 10, start_speed: 100, speed_increment: 5 },
        }
    }
}

/// The session of one stage attempt.
#[derive(Debug)]
pub struct PlayData {
    pub stage_id: u32,
    pub goal: u32,
    pub score: u32,
    /// In hundredths of the default speed.
    pub move_speed: u32,
    pub move_speed_increment: u32,
    /// In nanoseconds.
    pub move_interval: u64,
    /// The time of the last move, in nanoseconds. All snakes share it.
    pub last_move_time: u64,
    pub snake1_data: SnakePlayData,
    pub snake2_data: SnakePlayData,
    pub snake3_data: SnakePlayData,
    /// The dynamic mask: a cell is walkable while no snake occupies it.
    pub snakes_walkable_mask: StageWalkableMask,
    pub crash: bool,
    pub all_falling: bool,
    pub someone_had_a_snack: bool,
}

/// A session as a value: `PlayData` with the mask as a grid.
pub struct PlayView {
    pub stage_id: u32,
    pub goal: u32,
    pub score: u32,
    pub move_speed: u32,
    pub move_speed_increment: u32,
    pub move_interval: u64,
    pub last_move_time: u64,
    pub snake1_data: SnakePlayData,
    pub snake2_data: SnakePlayData,
    pub snake3_data: SnakePlayData,
    pub mask: Seq<Seq<bool>>,
    pub crash: bool,
    pub all_falling: bool,
    pub someone_had_a_snack: bool,
}

impl View for PlayData {
    type V = PlayView;

    open spec fn view(&self) -> PlayView {
        PlayView {
            stage_id: self.stage_id,
            goal: self.goal,
            score: self.score,
            move_speed: self.move_speed,
            move_speed_increment: self.move_speed_increment,
            move_interval: self.move_interval,
            last_move_time: self.last_move_time,
            snake1_data: self.snake1_data,
            snake2_data: self.snake2_data,
            snake3_data: self.snake3_data,
            mask: self.snakes_walkable_mask@,
            crash: self.crash,
            all_falling: self.all_falling,
            someone_had_a_snack: self.someone_had_a_snack,
        }
    }
}

impl PlayView {
    /// The mirror of the snake `id`; an unknown id has the mirror of a snake
    /// that never joined.
    pub open spec fn snake_data(self, id: u32) -> SnakePlayData {
        if id == 1 {
            self.snake1_data
        } else if id == 2 {
            self.snake2_data
        } else if id == 3 {
            self.snake3_data
        } else {
            spec_new_snake_play_data()
        }
    }

    /// The session with the mirror of the snake `id` replaced; an unknown id
    /// changes nothing.
    pub open spec fn with_snake_data(self, id: u32, data: SnakePlayData) -> PlayView {
        if id == 1 {
            PlayView { snake1_data: data, ..self }
        } else if id == 2 {
            PlayView { snake2_data: data, ..self }
        } else if id == 3 {
            PlayView { snake3_data: data, ..self }
        } else {
            self
        }
    }

    /// The session after one snack: the speed is raised and the pace follows.
    pub open spec fn with_raised_speed(self) -> PlayView {
        let move_speed = raised_speed(self.move_speed, self.move_speed_increment);
        PlayView { move_speed, move_interval: move_interval_for(move_speed), ..self }
    }
}

/// The session at the start of the stage `stage_id`, on a stage of the given
/// size.
pub open spec fn spec_new_play(stage_id: u32, stage_width: nat, stage_height: nat) -> PlayView {
    let config = spec_gameplay_config(stage_id);
    PlayView {
        stage_id,
        goal: config.goal,
        score: 0,
        move_speed: config.start_speed,
        move_speed_increment: config.speed_increment,
        move_interval: move_interval_for(config.start_speed),
        last_move_time: 0,
        snake1_data: spec_new_snake_play_data(),
        snake2_data: spec_new_snake_play_data(),
        snake3_data: spec_new_snake_play_data(),
        mask: grid_filled(stage_width, stage_height),
        crash: false,
        all_falling: false,
        someone_had_a_snack: false,
    }
}

impl Clone for PlayData {
    fn clone(&self) -> (copy: Self)
        ensures
            copy@ == self@,
    {
        PlayData {
            stage_id: self.stage_id,
            goal: self.goal,
            score: self.score,
            move_speed: self.move_speed,
            move_speed_increment: self.move_speed_increment,
            move_interval: self.move_interval,
            last_move_time: self.last_move_time,
            snake1_data: self.snake1_data,
            snake2_data: self.snake2_data,
            snake3_data: self.snake3_data,
            snakes_walkable_mask: self.snakes_walkable_mask.clone(),
            crash: self.crash,
            all_falling: self.all_falling,
            someone_had_a_snack: self.someone_had_a_snack,
        }
    }
}

impl PlayData {
    pub fn new(stage_id: u32, stage_width: usize, stage_height: usize) -> (data: Self)
        ensures
            data@ == spec_new_play(stage_id, stage_width as nat, stage_height as nat),
            data@.move_interval > 0,
    {
        let gameplay_config = GameplayConfig::new(stage_id);
        Self {
            stage_id,
            goal: gameplay_config.goal,
            score: 0,
            move_speed: gameplay_config.start_speed,
            move_speed_increment: gameplay_config.speed_increment,
            move_interval: move_interval(gameplay_config.start_speed),
            last_move_time: 0,
            snake1_data: SnakePlayData::new(),
            snake2_data: SnakePlayData::new(),
            snake3_data: SnakePlayData::new(),
            snakes_walkable_mask: StageWalkableMask::new(stage_width, stage_height),
            crash: false,
            all_falling: false,
            someone_had_a_snack: false,
        }
    }

    /// Raises the speed by the stage's increment and recomputes the pace.
    pub fn increment_speed(&mut self)
        ensures
            final(self)@ == old(self)@.with_raised_speed(),
            final(self)@.move_interval > 0,
    {
        self.move_speed = self.move_speed.saturating_add(self.move_speed_increment);
        self.move_interval = move_interval(self.move_speed);
    }

    /// The mirror of the snake `id`.
    pub fn snake_data(&self, id: u32) -> (data: SnakePlayData)
        ensures
            data == self@.snake_data(id),
    {
        match id {
            1 => self.snake1_data,
            2 => self.snake2_data,
            3 => self.snake3_data,
            _ => SnakePlayData::new(),
        }
    }

    /// Replaces the mirror of the snake `id`; an unknown id is ignored.
    pub fn set_snake_data(&mut self, id: u32, data: SnakePlayData)
        ensures
            final(self)@ == old(self)@.with_snake_data(id, data),
    {
        match id {
            1 => { self.snake1_data = data; },
            2 => { self.snake2_data = data; },
            3 => { self.snake3_data = data; },
            _ => {},
        }
    }
}

/// What the `Win` mode carries: the session of the stage that was won.
#[derive(Debug)]
pub struct WinData {
    pub play_data: PlayData,
}

impl View for WinData {
    type V = PlayView;

    open spec fn view(&self) -> PlayView {
        self.play_data@
    }
}

impl Clone for WinData {
    fn clone(&self) -> (copy: Self)
        ensures
            copy@ == self@,
    {
        WinData { play_data: self.play_data.clone() }
    }
}

impl WinData {
    pub fn new(play_data: PlayData) -> (data: Self)
        ensures
            data@ == play_data@,
    {
        Self { play_data }
    }
}

/// The mode of the game with what it carries.
#[derive(Debug)]
pub enum GameStateData {
    Init,
    Setup(SetupData),
    Start,
    Play(PlayData),
    Win(WinData),
    Death,
    /// The number of ticks since the reset began.
    Reset(u32),
}

/// A mode as a value.
pub enum GameStateView {
    Init,
    Setup(SetupData),
    Start,
    Play(PlayView),
    Win(PlayView),
    Death,
    Reset(u32),
}

impl View for GameStateData {
    type V = GameStateView;

    open spec fn view(&self) -> GameStateView {
        match *self {
            GameStateData::Init => GameStateView::Init,
            GameStateData::Setup(setup_data) => GameStateView::Setup(setup_data),
            GameStateData::Start => GameStateView::Start,
            GameStateData::Play(play_data) => GameStateView::Play(play_data@),
            GameStateData::Win(win_data) => GameStateView::Win(win_data@),
            GameStateData::Death => GameStateView::Death,
            GameStateData::Reset(counter) => GameStateView::Reset(counter),
        }
    }
}

impl Clone for GameStateData {
    fn clone(&self) -> (copy: Self)
        ensures
            copy@ == self@,
    {
        match self {
            GameStateData::Init => GameStateData::Init,
            GameStateData::Setup(setup_data) => GameStateData::Setup(*setup_data),
            GameStateData::Start => GameStateData::Start,
            GameStateData::Play(play_data) => GameStateData::Play(play_data.clone()),
            GameStateData::Win(win_data) => GameStateData::Win(win_data.clone()),
            GameStateData::Death => GameStateData::Death,
            GameStateData::Reset(counter) => GameStateData::Reset(*counter),
        }
    }
}

impl Default for GameStateData {
    fn default() -> (data: Self)
        ensures
            data@ == GameStateView::Init,
    {
        GameStateData::Init
    }
}

/// The notice of a change of mode. It carries the mode that was entered.
#[derive(Debug)]
pub struct GameStateEvent {
    pub data: GameStateData,
}

impl View for GameStateEvent {
    type V = GameStateView;

    open spec fn view(&self) -> GameStateView {
        self.data@
    }
}

/// The state of the game: the stage that is played, its size, the last stage
/// there is, and the mode.
#[derive(Debug)]
pub struct GameState {
    pub stage: u32,
    pub stage_width: usize,
    pub stage_height: usize,
    pub final_stage: u32,
    pub data: GameStateData,
}

/// The state of the game as a value.
pub struct GameView {
    pub stage: u32,
    pub stage_width: usize,
    pub stage_height: usize,
    pub final_stage: u32,
    pub data: GameStateView,
}

impl View for GameState {
    type V = GameView;

    open spec fn view(&self) -> GameView {
        GameView {
            stage: self.stage,
            stage_width: self.stage_width,
            stage_height: self.stage_height,
            final_stage: self.final_stage,
            data: self.data@,
        }
    }
}

impl Default for GameState {
    fn default() -> (state: Self)
        ensures
            state@ == spec_initial_game(),
    {
        GameState { stage: 0, stage_width: 0, stage_height: 0, final_stage: 0, data: GameStateData::Init }
    }
}

/// The state of a game that has not begun.
pub open spec fn spec_initial_game() -> GameView {
    GameView { stage: 0, stage_width: 0, stage_height: 0, final_stage: 0, data: GameStateView::Init }
}


/// One text update as a value.
pub open spec fn ui_text(id: &str, text: Seq<char>) -> UIText {
    UIText { id: id@, text }
}

/// What a list of text updates says, in order.
pub open spec fn ui_texts(events: Seq<UIEvent>) -> Seq<UIText> {
    Seq::new(events.len(), |i: int| events[i]@)
}

/// The updates that clear all four labels.
pub open spec fn spec_cleared_texts() -> Seq<UIText> {
    seq![
        ui_text("header", Seq::empty()),
        ui_text("sub_header", Seq::empty()),
        ui_text("score", Seq::empty()),
        ui_text("stage", Seq::empty()),
    ]
}

/// The text updates that go with the entry into the mode `data` while the
/// stage `stage` is selected.
pub open spec fn spec_entry_texts(data: GameStateView, stage: u32) -> Seq<UIText> {
    match data {
        GameStateView::Init => Seq::empty(),
        GameStateView::Setup(_) => seq![ui_text("stage", stage_text(stage))],
        GameStateView::Start => seq![
            ui_text("header", "START"@),
            ui_text("sub_header", "press space"@),
        ],
        GameStateView::Play(play) => seq![
            ui_text("header", Seq::empty()),
            ui_text("sub_header", Seq::empty()),
            ui_text("score", score_text(0, play.goal)),
        ],
        GameStateView::Win(_) => seq![
            ui_text("header", "WIN!"@),
            ui_text("sub_header", "press space"@),
            ui_text("score", Seq::empty()),
            ui_text("stage", Seq::empty()),
        ],
        GameStateView::Death => seq![
            ui_text("header", "DEATH"@),
            ui_text("sub_header", "press space"@),
            ui_text("score", Seq::empty()),
            ui_text("stage", Seq::empty()),
        ],
        GameStateView::Reset(_) => spec_cleared_texts(),
    }
}

/// Appends the four updates that clear the labels.
fn push_cleared(ui_events: &mut Vec<UIEvent>)
    ensures
        ui_texts(final(ui_events)@) == ui_texts(old(ui_events)@) + spec_cleared_texts(),
{
    ui_events.push(UIEvent::cleared("header"));
    ui_events.push(UIEvent::cleared("sub_header"));
    ui_events.push(UIEvent::cleared("score"));
    ui_events.push(UIEvent::cleared("stage"));
    assert(ui_texts(ui_events@) =~= ui_texts(old(ui_events)@) + spec_cleared_texts());
}

impl GameState {
    /// A game that has not begun: mode `Init`, stage 0.
    pub fn new() -> (state: Self)
        ensures
            state@ == spec_initial_game(),
    {
        GameState { stage: 0, stage_width: 0, stage_height: 0, final_stage: 0, data: GameStateData::Init }
    }

    /// Enters the mode `data`. Returns the notice of the change, which carries
    /// a copy of `data`, and the text updates that go with the new mode.
    pub fn set_data(&mut self, data: GameStateData) -> (out: (GameStateEvent, Vec<UIEvent>))
        ensures
            final(self)@ == (GameView { data: data@, ..old(self)@ }),
            out.0@ == data@,
            ui_texts(out.1@) == spec_entry_texts(data@, old(self).stage),
    {
        let event = GameStateEvent { data: data.clone() };
        let mut ui_events: Vec<UIEvent> = Vec::new();
        match &data {
            GameStateData::Init => {},
            GameStateData::Setup(_setup_data) => {
                ui_events.push(UIEvent::stage(self.stage));
            },
            GameStateData::Start => {
                ui_events.push(UIEvent::fixed("header", "START"));
                ui_events.push(UIEvent::fixed("sub_header", "press space"));
            },
            GameStateData::Play(play_data) => {
                ui_events.push(UIEvent::cleared("header"));
                ui_events.push(UIEvent::cleared("sub_header"));
                ui_events.push(UIEvent::score(0, play_data.goal));
            },
            GameStateData::Win(_win_data) => {
                ui_events.push(UIEvent::fixed("header", "WIN!"));
                ui_events.push(UIEvent::fixed("sub_header", "press space"));
                ui_events.push(UIEvent::cleared("score"));
                ui_events.push(UIEvent::cleared("stage"));
            },
            GameStateData::Death => {
                ui_events.push(UIEvent::fixed("header", "DEATH"));
                ui_events.push(UIEvent::fixed("sub_header", "press space"));
                ui_events.push(UIEvent::cleared("score"));
                ui_events.push(UIEvent::cleared("stage"));
            },
            GameStateData::Reset(_counter) => {
                push_cleared(&mut ui_events);
            },
        }
        assert(ui_texts(ui_events@) =~= spec_entry_texts(data@, self.stage));
        self.data = data;
        (event, ui_events)
    }
}

/// What one tick hands to the state machine.
#[derive(Debug, Clone, Copy, PartialEq, Eq, Structural)]
pub struct StateInput {
    /// Whether the confirm key was pressed since the last tick.
    pub confirm: bool,
    /// The number of stages there are. Read in `Init` only.
    pub stage_count: u32,
    /// The stage that the save data names, or 0 where there is none. Read in
    /// `Init` only.
    pub saved_stage: u32,
}

/// What one tick of the state machine hands back.
#[derive(Debug)]
pub struct StateOutput {
    /// The notice of the change of mode, if the mode changed.
    pub event: Option<GameStateEvent>,
    pub ui_events: Vec<UIEvent>,
}

/// One tick of the state machine as a value: the state after it, the mode that
/// was entered, if any, and the text updates.
pub struct StateStep {
    pub game: GameView,
    pub entered: Option<GameStateView>,
    pub texts: Seq<UIText>,
}

impl View for StateOutput {
    type V = (Option<GameStateView>, Seq<UIText>);

    open spec fn view(&self) -> (Option<GameStateView>, Seq<UIText>) {
        (
            match self.event {
                Some(event) => Some(event@),
                None => None,
            },
            ui_texts(self.ui_events@),
        )
    }
}

/// The step that enters the mode `data`, after the text updates `before`.
pub open spec fn spec_enter(game: GameView, data: GameStateView, before: Seq<UIText>) -> StateStep {
    StateStep {
        game: GameView { data, ..game },
        entered: Some(data),
        texts: before + spec_entry_texts(data, game.stage),
    }
}

/// The step that stays in the mode, now carrying `data`.
pub open spec fn spec_stay(game: GameView, data: GameStateView, texts: Seq<UIText>) -> StateStep {
    StateStep { game: GameView { data, ..game }, entered: None, texts }
}

/// The stage to begin with: the saved one if there is such a stage, else the
/// first.
pub open spec fn spec_starting_stage(saved_stage: u32, final_stage: u32) -> u32 {
    if saved_stage <= final_stage { saved_stage } else { 0 }
}

/// The stage after a win: the next one, or the same where it was the last.
pub open spec fn spec_next_stage(stage: u32, final_stage: u32) -> u32 {
    if stage < final_stage { (stage + 1) as u32 } else { stage }
}

/// Whether the state machine can take a tick: there is a stage to begin with,
/// and the counter of the mode, if it has one, can still count.
pub open spec fn can_update(game: GameView, input: StateInput) -> bool {
    match game.data {
        GameStateView::Init => input.stage_count >= 1,
        GameStateView::Setup(setup) => setup.fast_forward_buffer < u32::MAX,
        GameStateView::Reset(counter) => counter < u32::MAX,
        _ => true,
    }
}

/// Tells whether the state machine can take a tick, as `can_update` says.
pub fn update_ready(game_state: &GameState, input: &StateInput) -> (ready: bool)
    ensures
        ready == can_update(game_state@, *input),
{
    match &game_state.data {
        GameStateData::Init => input.stage_count >= 1,
        GameStateData::Setup(setup_data) => setup_data.fast_forward_buffer < u32::MAX,
        GameStateData::Reset(counter) => *counter < u32::MAX,
        _ => true,
    }
}

/// One tick of the state machine.
///
/// - `Init` selects the starting stage and enters `Setup`.
/// - `Setup` notes a confirm as the wish to fast-forward, and enters `Start`
///   once the reveal is done; after a fast-forward, only when the buffer has
///   run as well.
/// - `Start` enters `Play` with a fresh session on confirm.
/// - `Play` enters `Win` with the session once the score has reached the
///   goal, else `Death` after a crash or when every snake is falling, else it
///   refreshes the score label if a snack was eaten.
/// - `Win` and `Death` enter `Reset` on confirm; a win moves on to the next
///   stage first.
/// - `Reset` counts the ticks and enters `Setup` at the end.
pub open spec fn spec_update_gamestate(game: GameView, input: StateInput) -> StateStep {
    match game.data {
        GameStateView::Init => {
            let final_stage = (input.stage_count - 1) as u32;
            let stage = spec_starting_stage(input.saved_stage, final_stage);
            spec_enter(
                GameView { final_stage, stage, ..game },
                GameStateView::Setup(spec_new_setup(stage)),
                spec_cleared_texts(),
            )
        },
        GameStateView::Setup(setup) => {
            let fast_forward = setup.fast_forward || input.confirm;
            let ready = setup.setup_done && (!fast_forward || setup.fast_forward_buffer
                >= FAST_FORWARD_BUFFER);
            if ready {
                spec_enter(game, GameStateView::Start, Seq::empty())
            } else {
                let fast_forward_buffer = if fast_forward {
                    (setup.fast_forward_buffer + 1) as u32
                } else {
                    setup.fast_forward_buffer
                };
                spec_stay(
                    game,
                    GameStateView::Setup(SetupData { fast_forward, fast_forward_buffer, ..setup }),
                    Seq::empty(),
                )
            }
        },
        GameStateView::Start => {
            if input.confirm {
                spec_enter(
                    game,
                    GameStateView::Play(
                        spec_new_play(game.stage, game.stage_width as nat, game.stage_height as nat),
                    ),
                    Seq::empty(),
                )
            } else {
                spec_stay(game, game.data, Seq::empty())
            }
        },
        GameStateView::Play(play) => {
            if play.score >= play.goal {
                spec_enter(game, GameStateView::Win(play), Seq::empty())
            } else if play.crash || play.all_falling {
                spec_enter(game, GameStateView::Death, Seq::empty())
            } else if play.someone_had_a_snack {
                spec_stay(
                    game,
                    GameStateView::Play(PlayView { someone_had_a_snack: false, ..play }),
                    seq![ui_text("score", score_text(play.score, play.goal))],
                )
            } else {
                spec_stay(game, game.data, Seq::empty())
            }
        },
        GameStateView::Win(_) => {
            if input.confirm {
                spec_enter(
                    GameView { stage: spec_next_stage(game.stage, game.final_stage), ..game },
                    GameStateView::Reset(0),
                    Seq::empty(),
                )
            } else {
                spec_stay(game, game.data, Seq::empty())
            }
        },
        GameStateView::Death => {
            if input.confirm {
                spec_enter(game, GameStateView::Reset(0), Seq::empty())
            } else {
                spec_stay(game, game.data, Seq::empty())
            }
        },
        GameStateView::Reset(counter) => {
            if counter + 1 >= RESET_TICKS {
                spec_enter(game, GameStateView::Setup(spec_new_setup(game.stage)), Seq::empty())
            } else {
                spec_stay(game, GameStateView::Reset((counter + 1) as u32), Seq::empty())
            }
        },
    }
}

/// What a tick does once it has decided.
enum Decision {
    Stay,
    Enter(GameStateData),
}

/// Takes one tick of the state machine, as `spec_update_gamestate` says.
pub fn update_gamestate(game_state: &mut GameState, input: &StateInput) -> (out: StateOutput)
    requires
        can_update(old(game_state)@, *input),
    ensures
        final(game_state)@ == spec_update_gamestate(old(game_state)@, *input).game,
        out@.0 == spec_update_gamestate(old(game_state)@, *input).entered,
        out@.1 == spec_update_gamestate(old(game_state)@, *input).texts,
{
    let mut ui_events: Vec<UIEvent> = Vec::new();
    let mut decision = Decision::Stay;
    match &mut game_state.data {
        GameStateData::Init => {
            push_cleared(&mut ui_events);
            let final_stage: u32 = input.stage_count - 1;
            let stage: u32 = if input.saved_stage <= final_stage { input.saved_stage } else { 0 };
            game_state.final_stage = final_stage;
            game_state.stage = stage;
            decision = Decision::Enter(GameStateData::Setup(SetupData::new(stage)));
        },
        GameStateData::Setup(setup_data) => {
            if input.confirm {
                setup_data.fast_forward = true;
            }
            let go_to_start: bool;
            if setup_data.fast_forward {
                go_to_start = setup_data.setup_done && setup_data.fast_forward_buffer
                    >= FAST_FORWARD_BUFFER;
                setup_data.fast_forward_buffer += 1;
            } else {
                go_to_start = setup_data.setup_done;
            }
            if go_to_start {
                decision = Decision::Enter(GameStateData::Start);
            }
        },
        GameStateData::Start => {
            if input.confirm {
                let play_data = PlayData::new(
                    game_state.stage,
                    game_state.stage_width,
                    game_state.stage_height,
                );
                decision = Decision::Enter(GameStateData::Play(play_data));
            }
        },
        GameStateData::Play(play_data) => {
            if play_data.score >= play_data.goal {
                let win_data = WinData::new(play_data.clone());
                decision = Decision::Enter(GameStateData::Win(win_data));
            } else if play_data.crash || play_data.all_falling {
                decision = Decision::Enter(GameStateData::Death);
            } else if play_data.someone_had_a_snack {
                ui_events.push(UIEvent::score(play_data.score, play_data.goal));
                play_data.someone_had_a_snack = false;
            }
        },
        GameStateData::Win(_win_data) => {
            if input.confirm {
                if game_state.stage < game_state.final_stage {
                    game_state.stage += 1;
                }
                decision = Decision::Enter(GameStateData::Reset(0));
            }
        },
        GameStateData::Death => {
            if input.confirm {
                decision = Decision::Enter(GameStateData::Reset(0));
            }
        },
        GameStateData::Reset(counter) => {
            *counter += 1;
            if *counter >= RESET_TICKS {
                decision = Decision::Enter(GameStateData::Setup(SetupData::new(game_state.stage)));
            }
        },
    }
    match decision {
        Decision::Stay => {
            assert(ui_texts(ui_events@) =~= spec_update_gamestate(old(game_state)@, *input).texts);
            StateOutput { event: None, ui_events }
        },
        Decision::Enter(data) => {
            let (event, mut entry_events) = game_state.set_data(data);
            let ghost before = ui_texts(ui_events@);
            let ghost entry = ui_texts(entry_events@);
            ui_events.append(&mut entry_events);
            assert(ui_texts(ui_events@) =~= before + entry);
            StateOutput { event: Some(event), ui_events }
        },
    }
}

} // verus!
