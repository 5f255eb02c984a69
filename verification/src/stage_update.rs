//! What the stage does in each frame.
//!
//! During `Setup` the stage reveals its tiles. In `Start` it tells the game its
//! size. During `Play` it judges each move: a snake that left the floor falls,
//! a snake that reached the snack eats it. After a win it scatters snacks for
//! show.

use vstd::prelude::*;
use crate::coordinate::{origin, StageCoordinate};
use crate::mask::{grid_get, grid_is_rect};
use crate::snacks::is_snack_choice;
use crate::stage::{LayoutError, RevealStep, Stage, StageEvent, StageEventData, StageView, GLITTER_INTERVAL, layout_view, spec_layout_fault};
use crate::state::{GameState, GameStateData, GameStateEvent, GameStateView, GameView, PlayData, PlayView, SetupData, SnakePlayData};

verus! {

impl StageView {
    /// The stage after the reveal of the next `n` cells at `time`.
    pub open spec fn revealed_many(self, time: u64, n: nat) -> StageView
        decreases n,
    {
        if n == 0 {
            self
        } else {
            self.revealed_many(time, (n - 1) as nat).revealed(time)
        }
    }

    /// What the reveal of the next `n` cells at `time` yields, cell by cell.
    pub open spec fn steps_many(self, time: u64, n: nat) -> Seq<RevealStep>
        decreases n,
    {
        if n == 0 {
            Seq::empty()
        } else {
            self.steps_many(time, (n - 1) as nat).push(
                self.revealed_many(time, (n - 1) as nat).next_step(),
            )
        }
    }

    /// The number of cells that a frame of `Setup` reveals at `time`: all that
    /// are left when the reveal is fast-forwarded, else one if a tile is due.
    pub open spec fn cells_in_frame(self, time: u64, fast_forward: bool) -> nat {
        if fast_forward {
            self.tiles_left() as nat
        } else if self.reveal_due(time, false) {
            1
        } else {
            0
        }
    }

    /// Whether a decorative snack is due at `time`.
    pub open spec fn glitter_due(self, time: u64) -> bool {
        time >= self.snack_spawntime + GLITTER_INTERVAL
    }

    /// The stage with a snack placed on `c` at `time`.
    pub open spec fn with_snack(self, c: StageCoordinate, time: u64) -> StageView {
        StageView { snack_coordinate: c, snack_spawntime: time, ..self }
    }
}

/// The reveal of a cell keeps the stage consistent and leaves one cell less
/// to reveal.
pub proof fn lemma_revealed(stage: StageView, time: u64)
    requires
        stage.wf(),
        stage.setting.in_progress,
    ensures
        stage.revealed(time).wf(),
        stage.tiles_left() >= 1,
        stage.revealed(time).tiles_left() == stage.tiles_left() - 1,
        stage.revealed(time).setting.in_progress == (stage.tiles_left() > 1),
{
    let w = stage.width as int;
    let h = stage.height as int;
    let x = stage.setting.x as int;
    let y = stage.setting.y as int;
    let next = stage.revealed(time);
    assert(grid_is_rect(next.walkable, stage.width as nat, stage.height as nat)) by {
        assert forall|k: int| 0 <= k < h implies (#[trigger] next.walkable[k]).len() == w by {
            assert(stage.walkable[k].len() == w);
        }
    }
    assert((y + 1) * w == y * w + w) by (nonlinear_arith);
    assert(y * w + w <= h * w) by (nonlinear_arith)
        requires
            y + 1 <= h,
            0 <= w,
    ;
    assert(w * h == h * w) by (nonlinear_arith);
    if x + 1 < w {
    } else if y + 1 < h {
        assert((y + 1) * w + w <= h * w) by (nonlinear_arith)
            requires
                y + 2 <= h,
                0 <= w,
        ;
    } else {
    }
}

/// What a frame of `Setup` does at `time`: the cells of the frame are
/// revealed, and the setup is done once no reveal is in progress.
pub open spec fn spec_update_stage_setup(stage: StageView, setup: SetupData, time: u64) -> (StageView, SetupData, Seq<RevealStep>) {
    let n = stage.cells_in_frame(time, setup.fast_forward);
    let revealed = stage.revealed_many(time, n);
    (
        revealed,
        SetupData { setup_done: setup.setup_done || !revealed.setting.in_progress, ..setup },
        stage.steps_many(time, n),
    )
}

/// Takes a frame of `Setup`, as `spec_update_stage_setup` says.
pub fn update_stage_setup(stage: &mut Stage, setup_data: &mut SetupData, time: u64) -> (steps: Vec<RevealStep>)
    requires
        old(stage)@.wf(),
    ensures
        final(stage)@.wf(),
        (final(stage)@, *final(setup_data), steps@) == spec_update_stage_setup(
            old(stage)@,
            *old(setup_data),
            time,
        ),
{
    let mut steps: Vec<RevealStep> = Vec::new();
    if setup_data.fast_forward {
        let left: u64 = stage.get_tiles_left();
        let mut done: u64 = 0;
        while done < left
            invariant
                done <= left,
                stage@.wf(),
                stage@ == old(stage)@.revealed_many(time, done as nat),
                steps@ == old(stage)@.steps_many(time, done as nat),
                stage@.tiles_left() == left - done,
            decreases left - done,
        {
            proof {
                lemma_revealed(stage@, time);
            }
            let step = stage.update_set_stage(time, true);
            match step {
                Some(step) => {
                    steps.push(step);
                },
                None => {},
            }
            done += 1;
        }
    } else {
        let step = stage.update_set_stage(time, false);
        match step {
            Some(step) => {
                steps.push(step);
                assert(steps@ =~= old(stage)@.steps_many(time, 1)) by {
                    assert(old(stage)@.steps_many(time, 0) =~= Seq::<RevealStep>::empty());
                    assert(old(stage)@.revealed_many(time, 0) == old(stage)@);
                }
                assert(stage@ == old(stage)@.revealed_many(time, 1)) by {
                    assert(old(stage)@.revealed_many(time, 0) == old(stage)@);
                }
            },
            None => {},
        }
    }
    if !stage.stage_setting_data.in_progress {
        setup_data.setup_done = true;
    }
    steps
}

/// Whether the move of the snake `id` is to be judged: the snake is in the
/// game, on the floor as far as the session knows, and has moved.
pub open spec fn spec_move_pending(play: PlayView, id: u32) -> bool {
    let data = play.snake_data(id);
    data.active && !data.falling && data.evaluate_move
}

/// Whether the snake `id` eats the snack: its move is to be judged, and its
/// head is on the floor and on the snack.
pub open spec fn spec_eats(stage: StageView, play: PlayView, id: u32) -> bool {
    &&& spec_move_pending(play, id)
    &&& grid_get(stage.walkable, play.snake_data(id).coordinate)
    &&& play.snake_data(id).coordinate == stage.snack_coordinate
}

/// Whether the judgement of the snake `id` calls for a new snack: the snake
/// eats, and the goal is not reached with it.
pub open spec fn spec_snack_due(stage: StageView, play: PlayView, id: u32) -> bool {
    spec_eats(stage, play, id) && play.score + 1 < play.goal
}

/// The outcome of a judgement: the stage, the session and the events.
pub struct Judgement {
    pub stage: StageView,
    pub play: PlayView,
    pub events: Seq<StageEvent>,
}

/// One event as a value.
pub open spec fn stage_event(data: StageEventData) -> StageEvent {
    StageEvent { data }
}

/// The session after a snack was eaten: one point more, a higher speed, and
/// the note that someone ate.
pub open spec fn spec_scored(play: PlayView) -> PlayView {
    PlayView { score: (play.score + 1) as u32, someone_had_a_snack: true, ..play }.with_raised_speed()
}

/// The judgement of the move of the snake `id`, where `pick` is the cell
/// chosen for the next snack.
///
/// A move is judged once. A snake whose head is off the floor falls. A snake
/// whose head is on the snack eats it: the session scores, and either the goal
/// is reached and the snack is cleared, or the snake is told to grow and the
/// next snack appears on `pick`.
pub open spec fn spec_evaluate_snake(stage: StageView, play: PlayView, id: u32, pick: StageCoordinate, time: u64) -> Judgement {
    if !spec_move_pending(play, id) {
        Judgement { stage, play, events: Seq::empty() }
    } else {
        let data = play.snake_data(id);
        let judged = play.with_snake_data(id, SnakePlayData { evaluate_move: false, ..data });
        if !grid_get(stage.walkable, data.coordinate) {
            Judgement { stage, play: judged, events: seq![stage_event(StageEventData::SnakeFalling(id))] }
        } else if data.coordinate == stage.snack_coordinate {
            let scored = spec_scored(judged);
            if scored.score >= scored.goal {
                Judgement { stage, play: scored, events: seq![stage_event(StageEventData::ClearSnack)] }
            } else {
                Judgement {
                    stage: stage.with_snack(pick, time),
                    play: scored,
                    events: seq![
                        stage_event(StageEventData::SnackEaten(id)),
                        stage_event(StageEventData::SpawnSnack(pick)),
                    ],
                }
            }
        } else {
            Judgement { stage, play: judged, events: Seq::empty() }
        }
    }
}

/// Judges the move of the snake `snake_id`, as `spec_evaluate_snake` says, and
/// appends the events to `events`. `next_snack` is the cell for the next
/// snack, should one be called for.
pub fn evaluate_snake(stage: &mut Stage, play_data: &mut PlayData, snake_id: u32, next_snack: StageCoordinate, time: u64, events: &mut Vec<StageEvent>)
    requires
        spec_eats(old(stage)@, old(play_data)@, snake_id) ==> old(play_data).score < u32::MAX,
    ensures
        final(stage)@ == spec_evaluate_snake(old(stage)@, old(play_data)@, snake_id, next_snack, time).stage,
        final(play_data)@ == spec_evaluate_snake(old(stage)@, old(play_data)@, snake_id, next_snack, time).play,
        final(events)@ == old(events)@ + spec_evaluate_snake(
            old(stage)@,
            old(play_data)@,
            snake_id,
            next_snack,
            time,
        ).events,
{
    let mut snake_data = play_data.snake_data(snake_id);
    if !(snake_data.active && !snake_data.falling && snake_data.evaluate_move) {
        assert(events@ =~= old(events)@ + Seq::<StageEvent>::empty());
        return;
    }
    snake_data.evaluate_move = false;
    play_data.set_snake_data(snake_id, snake_data);
    if !stage.walkable.get(&snake_data.coordinate) {
        events.push(StageEvent { data: StageEventData::SnakeFalling(snake_id) });
        assert(events@ =~= old(events)@ + seq![stage_event(StageEventData::SnakeFalling(snake_id))]);
        return;
    }
    if snake_data.coordinate.equals(&stage.snack_coordinate) {
        play_data.score += 1;
        play_data.someone_had_a_snack = true;
        play_data.increment_speed();
        if play_data.score >= play_data.goal {
            events.push(StageEvent { data: StageEventData::ClearSnack });
            assert(events@ =~= old(events)@ + seq![stage_event(StageEventData::ClearSnack)]);
            return;
        }
        events.push(StageEvent { data: StageEventData::SnackEaten(snake_id) });
        stage.snack_coordinate = next_snack;
        stage.snack_spawntime = time;
        events.push(StageEvent { data: StageEventData::SpawnSnack(next_snack) });
        assert(events@ =~= old(events)@ + seq![
            stage_event(StageEventData::SnackEaten(snake_id)),
            stage_event(StageEventData::SpawnSnack(next_snack)),
        ]);
        return;
    }
    assert(events@ =~= old(events)@ + Seq::<StageEvent>::empty());
}

/// Tells whether the judgement of the snake `snake_id` calls for a new snack.
pub fn snack_due(stage: &Stage, play_data: &PlayData, snake_id: u32) -> (due: bool)
    ensures
        due == spec_snack_due(stage@, play_data@, snake_id),
{
    let snake_data = play_data.snake_data(snake_id);
    snake_data.active && !snake_data.falling && snake_data.evaluate_move && stage.walkable.get(
        &snake_data.coordinate,
    ) && snake_data.coordinate.equals(&stage.snack_coordinate) && play_data.score < u32::MAX
        && play_data.score + 1 < play_data.goal
}

/// The cells chosen for the next snack, one for each snake's judgement.
pub struct SnackPicks {
    pub first: StageCoordinate,
    pub second: StageCoordinate,
    pub third: StageCoordinate,
}

/// The judgement of the three snakes' moves, in the order of their ids, and
/// whether each cell that was called for was one that a snack may go to.
pub open spec fn spec_evaluate_moves(stage: StageView, play: PlayView, picks: SnackPicks, time: u64) -> (Judgement, bool) {
    let first = spec_evaluate_snake(stage, play, 1, picks.first, time);
    let second = spec_evaluate_snake(first.stage, first.play, 2, picks.second, time);
    let third = spec_evaluate_snake(second.stage, second.play, 3, picks.third, time);
    (
        Judgement {
            stage: third.stage,
            play: third.play,
            events: first.events + second.events + third.events,
        },
        (spec_snack_due(stage, play, 1) ==> is_snack_choice(stage, play.mask, picks.first))
            && (spec_snack_due(first.stage, first.play, 2) ==> is_snack_choice(
            first.stage,
            first.play.mask,
            picks.second,
        )) && (spec_snack_due(second.stage, second.play, 3) ==> is_snack_choice(
            second.stage,
            second.play.mask,
            picks.third,
        )),
    )
}

/// The room that the score needs for a frame of judgements.
pub open spec fn score_has_room(play: PlayView) -> bool {
    play.score + 3 <= u32::MAX
}

/// Judges one snake's move and draws the cell of the next snack where one is
/// called for.
fn judge(stage: &mut Stage, play_data: &mut PlayData, snake_id: u32, time: u64, events: &mut Vec<StageEvent>) -> (pick: Ghost<StageCoordinate>)
    requires
        old(stage)@.wf(),
        old(play_data).score < u32::MAX,
    ensures
        final(stage)@.wf(),
        spec_snack_due(old(stage)@, old(play_data)@, snake_id) ==> is_snack_choice(
            old(stage)@,
            old(play_data)@.mask,
            pick@,
        ),
        final(stage)@ == spec_evaluate_snake(old(stage)@, old(play_data)@, snake_id, pick@, time).stage,
        final(play_data)@ == spec_evaluate_snake(old(stage)@, old(play_data)@, snake_id, pick@, time).play,
        final(events)@ == old(events)@ + spec_evaluate_snake(
            old(stage)@,
            old(play_data)@,
            snake_id,
            pick@,
            time,
        ).events,
        final(play_data).score <= old(play_data).score + 1,
{
    let next_snack = if snack_due(stage, play_data, snake_id) {
        stage.get_next_snack_coordinate(&play_data.snakes_walkable_mask)
    } else {
        StageCoordinate::new(0, 0)
    };
    evaluate_snake(stage, play_data, snake_id, next_snack, time, events);
    Ghost(next_snack)
}

/// Judges the moves of a frame of play and hands back the cells that were
/// chosen.
fn evaluate_moves_picked(stage: &mut Stage, play_data: &mut PlayData, time: u64) -> (out: (Vec<StageEvent>, Ghost<SnackPicks>))
    requires
        old(stage)@.wf(),
        score_has_room(old(play_data)@),
    ensures
        final(stage)@.wf(),
        spec_evaluate_moves(old(stage)@, old(play_data)@, out.1@, time) == ((
            Judgement { stage: final(stage)@, play: final(play_data)@, events: out.0@ },
            true,
        )),
{
    let mut events: Vec<StageEvent> = Vec::new();
    let first = judge(stage, play_data, 1, time, &mut events);
    let second = judge(stage, play_data, 2, time, &mut events);
    let third = judge(stage, play_data, 3, time, &mut events);
    let ghost picks = SnackPicks { first: first@, second: second@, third: third@ };
    proof {
        let outcome = spec_evaluate_moves(old(stage)@, old(play_data)@, picks, time);
        assert(outcome.0.events =~= events@);
    }
    (events, Ghost(picks))
}

/// Judges the moves of a frame of play at `time`: the three snakes in the
/// order of their ids, as `spec_evaluate_moves` says of some cells for the
/// next snack, each of which, where it was called for, was drawn among the
/// cells that a snack may go to.
pub fn evaluate_moves(stage: &mut Stage, play_data: &mut PlayData, time: u64) -> (events: Vec<StageEvent>)
    requires
        old(stage)@.wf(),
        score_has_room(old(play_data)@),
    ensures
        final(stage)@.wf(),
        exists|picks: SnackPicks| #[trigger]
            spec_evaluate_moves(old(stage)@, old(play_data)@, picks, time) == ((
                Judgement { stage: final(stage)@, play: final(play_data)@, events: events@ },
                true,
            )),
{
    let (events, _picks) = evaluate_moves_picked(stage, play_data, time);
    events
}

/// The scattering of a snack for show after a win, where `pick` is the cell
/// chosen for it: once the glitter interval has passed, a snack appears on
/// `pick`.
pub open spec fn spec_glitter(stage: StageView, pick: StageCoordinate, time: u64) -> (StageView, Seq<StageEvent>) {
    if stage.glitter_due(time) {
        (stage.with_snack(pick, time), seq![stage_event(StageEventData::SpawnSnack(pick))])
    } else {
        (stage, Seq::empty())
    }
}

/// Scatters a snack for show and hands back the cell that was chosen.
fn glitter_picked(stage: &mut Stage, play_data: &PlayData, time: u64) -> (out: (Vec<StageEvent>, Ghost<StageCoordinate>))
    requires
        old(stage)@.wf(),
    ensures
        final(stage)@.wf(),
        old(stage)@.glitter_due(time) ==> is_snack_choice(old(stage)@, play_data@.mask, out.1@),
        spec_glitter(old(stage)@, out.1@, time) == (final(stage)@, out.0@),
{
    let mut events: Vec<StageEvent> = Vec::new();
    let spawned: u64 = stage.snack_spawntime;
    if time >= spawned && time - spawned >= GLITTER_INTERVAL {
        let pick = stage.get_next_snack_coordinate(&play_data.snakes_walkable_mask);
        stage.snack_coordinate = pick;
        stage.snack_spawntime = time;
        events.push(StageEvent { data: StageEventData::SpawnSnack(pick) });
        assert(events@ =~= seq![stage_event(StageEventData::SpawnSnack(pick))]);
        (events, Ghost(pick))
    } else {
        assert(events@ =~= Seq::<StageEvent>::empty());
        (events, Ghost(origin()))
    }
}

/// Scatters a snack for show, as `spec_glitter` says of some cell, which was
/// drawn among the cells that a snack may go to on the session's mask.
pub fn glitter(stage: &mut Stage, play_data: &PlayData, time: u64) -> (events: Vec<StageEvent>)
    requires
        old(stage)@.wf(),
    ensures
        final(stage)@.wf(),
        exists|pick: StageCoordinate|
            (old(stage)@.glitter_due(time) ==> is_snack_choice(old(stage)@, play_data@.mask, pick))
                && #[trigger] spec_glitter(old(stage)@, pick, time) == (final(stage)@, events@),
{
    let (events, _pick) = glitter_picked(stage, play_data, time);
    events
}

/// The events that the reveal of cells gave rise to, in the order of the
/// cells. A cell without an event adds nothing.
pub open spec fn spec_reveal_events(steps: Seq<RevealStep>) -> Seq<StageEvent>
    decreases steps.len(),
{
    if steps.len() == 0 {
        Seq::empty()
    } else if steps.last().event is Empty {
        spec_reveal_events(steps.drop_last())
    } else {
        spec_reveal_events(steps.drop_last()).push(stage_event(steps.last().event))
    }
}

/// Collects the events of a reveal, as `spec_reveal_events` says.
pub fn reveal_events(steps: &Vec<RevealStep>) -> (events: Vec<StageEvent>)
    ensures
        events@ == spec_reveal_events(steps@),
{
    let mut events: Vec<StageEvent> = Vec::new();
    let mut i: usize = 0;
    while i < steps.len()
        invariant
            i <= steps.len(),
            events@ == spec_reveal_events(steps@.take(i as int)),
        decreases steps.len() - i,
    {
        assert(steps@.take(i + 1).drop_last() =~= steps@.take(i as int));
        match steps[i].event {
            StageEventData::Empty => {},
            data => {
                events.push(StageEvent { data });
            },
        }
        i += 1;
    }
    assert(steps@.take(steps.len() as int) =~= steps@);
    events
}

/// What a frame of the stage hands back: what the reveal yielded, and the
/// events for the snakes and the snacks.
#[derive(Debug)]
pub struct StageOutput {
    pub steps: Vec<RevealStep>,
    pub events: Vec<StageEvent>,
}

/// A frame of the stage as a value.
pub struct StageFrame {
    pub stage: StageView,
    pub game: GameView,
    pub steps: Seq<RevealStep>,
    pub events: Seq<StageEvent>,
}

/// What a frame of the stage does at `time`, where `picks` are the cells
/// chosen for the next snack, and whether each cell that was called for was
/// one that a snack may go to.
///
/// In `Setup` the tiles are revealed. In `Start` the game learns the size of
/// the stage. In `Play` the moves are judged. In `Win` snacks are scattered
/// for show. In any other mode the stage rests.
pub open spec fn spec_update_stage(stage: StageView, game: GameView, picks: SnackPicks, time: u64) -> (StageFrame, bool) {
    match game.data {
        GameStateView::Setup(setup) => {
            let (revealed, setup_after, steps) = spec_update_stage_setup(stage, setup, time);
            (
                StageFrame {
                    stage: revealed,
                    game: GameView { data: GameStateView::Setup(setup_after), ..game },
                    steps,
                    events: Seq::empty(),
                },
                true,
            )
        },
        GameStateView::Start => (
            StageFrame {
                stage,
                game: GameView { stage_width: stage.width, stage_height: stage.height, ..game },
                steps: Seq::empty(),
                events: Seq::empty(),
            },
            true,
        ),
        GameStateView::Play(play) => {
            let (judgement, allowed) = spec_evaluate_moves(stage, play, picks, time);
            (
                StageFrame {
                    stage: judgement.stage,
                    game: GameView { data: GameStateView::Play(judgement.play), ..game },
                    steps: Seq::empty(),
                    events: judgement.events,
                },
                allowed,
            )
        },
        GameStateView::Win(play) => {
            let (scattered, events) = spec_glitter(stage, picks.first, time);
            (
                StageFrame { stage: scattered, game, steps: Seq::empty(), events },
                stage.glitter_due(time) ==> is_snack_choice(stage, play.mask, picks.first),
            )
        },
        _ => (StageFrame { stage, game, steps: Seq::empty(), events: Seq::empty() }, true),
    }
}

/// Whether the stage can take a frame: during play the score has room.
pub open spec fn can_update_stage(game: GameView) -> bool {
    game.data matches GameStateView::Play(play) ==> score_has_room(play)
}

/// Takes a frame of the stage and hands back the cells that were chosen.
pub(crate) fn update_stage_picked(stage: &mut Stage, game_state: &mut GameState, time: u64) -> (out: (StageOutput, Ghost<SnackPicks>))
    requires
        old(stage)@.wf(),
        can_update_stage(old(game_state)@),
    ensures
        final(stage)@.wf(),
        spec_update_stage(old(stage)@, old(game_state)@, out.1@, time) == ((
            StageFrame {
                stage: final(stage)@,
                game: final(game_state)@,
                steps: out.0.steps@,
                events: out.0.events@,
            },
            true,
        )),
{
    let ghost none = SnackPicks { first: origin(), second: origin(), third: origin() };
    match &mut game_state.data {
        GameStateData::Setup(setup_data) => {
            let steps = update_stage_setup(stage, setup_data, time);
            let events: Vec<StageEvent> = Vec::new();
            assert(events@ =~= Seq::<StageEvent>::empty());
            (StageOutput { steps, events }, Ghost(none))
        },
        GameStateData::Start => {
            game_state.stage_width = stage.width;
            game_state.stage_height = stage.height;
            let steps: Vec<RevealStep> = Vec::new();
            let events: Vec<StageEvent> = Vec::new();
            assert(events@ =~= Seq::<StageEvent>::empty());
            assert(steps@ =~= Seq::<RevealStep>::empty());
            (StageOutput { steps, events }, Ghost(none))
        },
        GameStateData::Play(play_data) => {
            let (events, picks) = evaluate_moves_picked(stage, play_data, time);
            let steps: Vec<RevealStep> = Vec::new();
            assert(steps@ =~= Seq::<RevealStep>::empty());
            (StageOutput { steps, events }, picks)
        },
        GameStateData::Win(win_data) => {
            let (events, pick) = glitter_picked(stage, &win_data.play_data, time);
            let steps: Vec<RevealStep> = Vec::new();
            assert(steps@ =~= Seq::<RevealStep>::empty());
            (StageOutput { steps, events }, Ghost(SnackPicks { first: pick@, second: origin(), third: origin() }))
        },
        _ => {
            let steps: Vec<RevealStep> = Vec::new();
            let events: Vec<StageEvent> = Vec::new();
            assert(events@ =~= Seq::<StageEvent>::empty());
            assert(steps@ =~= Seq::<RevealStep>::empty());
            (StageOutput { steps, events }, Ghost(none))
        },
    }
}

/// Takes a frame of the stage at `time`, as `spec_update_stage` says of some
/// cells for the next snack, each of which, where it was called for, was drawn
/// among the cells that a snack may go to.
pub fn update_stage(stage: &mut Stage, game_state: &mut GameState, time: u64) -> (out: StageOutput)
    requires
        old(stage)@.wf(),
        can_update_stage(old(game_state)@),
    ensures
        final(stage)@.wf(),
        exists|picks: SnackPicks| #[trigger]
            spec_update_stage(old(stage)@, old(game_state)@, picks, time) == ((
                StageFrame {
                    stage: final(stage)@,
                    game: final(game_state)@,
                    steps: out.steps@,
                    events: out.events@,
                },
                true,
            )),
{
    let (out, _picks) = update_stage_picked(stage, game_state, time);
    out
}

/// What the entry into a mode means to the stage, where `layout` is the
/// layout that came with it, if one came: `Setup` loads the layout, unless
/// there is none or it has a fault; `Win` and `Reset` clear the snack.
pub open spec fn spec_stage_on_mode(stage: StageView, mode: GameStateView, layout: Option<Seq<Seq<char>>>) -> Result<(StageView, Seq<StageEvent>), LayoutError> {
    match mode {
        GameStateView::Setup(setup) => match layout {
            None => Err(LayoutError::Missing),
            Some(layout) => match spec_layout_fault(layout) {
                Some(fault) => Err(fault),
                None => Ok((stage.loaded(setup.stage_id, layout), Seq::empty())),
            },
        },
        GameStateView::Win(_) => Ok((stage, seq![stage_event(StageEventData::ClearSnack)])),
        GameStateView::Reset(_) => Ok((stage, seq![stage_event(StageEventData::ClearSnack)])),
        _ => Ok((stage, Seq::empty())),
    }
}

/// A layout that was handed over, as a grid of symbols.
pub open spec fn layout_option_view(layout: Option<Vec<Vec<char>>>) -> Option<Seq<Seq<char>>> {
    match layout {
        Some(layout) => Some(layout_view(layout@)),
        None => None,
    }
}

/// Tells the stage that the game entered a mode, as `spec_stage_on_mode` says.
/// `layout` is the layout of the stage that a `Setup` names, or nothing where
/// there is no such layout; in any other mode it is not looked at. After an
/// error the stage is as it was.
pub fn read_gamestate_events(stage: &mut Stage, event: &GameStateEvent, layout: Option<Vec<Vec<char>>>) -> (result: Result<Vec<StageEvent>, LayoutError>)
    ensures
        match spec_stage_on_mode(old(stage)@, event@, layout_option_view(layout)) {
            Ok((after, events)) => result matches Ok(out) && out@ == events && final(stage)@ == after,
            Err(fault) => result == Err::<Vec<StageEvent>, LayoutError>(fault) && final(stage)@ == old(stage)@,
        },
        event@ is Setup && result is Ok ==> final(stage)@.wf(),
        !(event@ is Setup) && old(stage)@.wf() ==> final(stage)@.wf(),
{
    let mut events: Vec<StageEvent> = Vec::new();
    match &event.data {
        GameStateData::Setup(setup_data) => {
            match layout {
                None => {
                    return Err(LayoutError::Missing);
                },
                Some(layout) => {
                    match stage.load_layout(setup_data.stage_id, layout) {
                        Err(fault) => {
                            return Err(fault);
                        },
                        Ok(()) => {},
                    }
                },
            }
        },
        GameStateData::Win(_win_data) => {
            events.push(StageEvent { data: StageEventData::ClearSnack });
        },
        GameStateData::Reset(_counter) => {
            events.push(StageEvent { data: StageEventData::ClearSnack });
        },
        _ => {},
    }
    assert(spec_stage_on_mode(old(stage)@, event@, layout_option_view(layout)) matches Ok((after, expected))
        && expected =~= events@);
    Ok(events)
}

} // verus!
