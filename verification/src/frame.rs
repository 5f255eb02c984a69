//! One frame of the game, phase by phase.
//!
//! The phases of a frame run in a fixed order, and each sees what the one
//! before it left: the keys turn the snakes, the snakes move in the order of
//! their ids, those that ate grow, the segments follow, the stage judges the
//! moves and tells the snakes, and at last the session may note whether every
//! snake is falling. The state machine takes its tick before the frame.
//!
//! A snake that ate hears of it at the end of the frame and grows in the
//! next one. Frames are meant to come more often than moves, so that no snake
//! grows in a frame in which it moves.

use vstd::prelude::*;
use crate::movement::{move_snakes, spec_move_each, spec_move_snakes};
use crate::segments::{
    despawn_segments, evaluate_all_falling, move_segments, spawn_segments,
    spec_despawn_segments, spec_evaluate_all_falling, spec_move_segments, spec_spawn_each,
    spec_spawn_segments, Segment,
};
use crate::snake::{read_input, read_stage_events, snakes_in_order, InputMapping, Snake};
use crate::stage::{RevealStep, Stage, StageEvent, StageView};
use crate::stage_update::{
    reveal_events, score_has_room, spec_reveal_events, spec_update_stage, update_stage_picked,
    SnackPicks,
};
use crate::state::{GameState, GameStateData, GameStateView, GameView, PlayView};

verus! {

/// What a frame hands back.
#[derive(Debug)]
pub struct FrameOutput {
    /// What the reveal yielded in this frame, cell by cell.
    pub steps: Vec<RevealStep>,
    /// The events of the stage in this frame: those of the reveal first.
    pub events: Vec<StageEvent>,
    /// Which segments are to be drawn anew, segment by segment as they stood
    /// before the frame took any off the stage.
    pub redraw: Vec<bool>,
}

/// A frame as a value: the game after it and what it handed back.
pub struct FrameView {
    pub snakes: Seq<Snake>,
    pub segments: Seq<Segment>,
    pub stage: StageView,
    pub game: GameView,
    pub steps: Seq<RevealStep>,
    pub events: Seq<StageEvent>,
    pub redraw: Seq<bool>,
}

/// The snakes after the keys `keys`, each under its own bindings.
pub open spec fn spec_keyed_snakes(snakes: Seq<Snake>, mappings: Seq<InputMapping>, keys: Seq<u32>) -> Seq<Snake> {
    Seq::new(snakes.len(), |i: int| snakes[i].keyed_all(mappings[i], keys))
}

/// The snakes after they were told the events `events`.
pub open spec fn spec_told_snakes(snakes: Seq<Snake>, events: Seq<StageEvent>, playing: bool) -> Seq<Snake> {
    Seq::new(snakes.len(), |i: int| snakes[i].on_stage_events(events, playing))
}

/// What a frame does at `now`, where `picks` are the cells chosen for the next
/// snack, and whether each cell that was called for was one that a snack may
/// go to. The phases, in order: keys, moves, growth, segments, the stage, its
/// events, and the look at the falling snakes if `check_falling` asks for it.
pub open spec fn spec_run_frame(
    snakes: Seq<Snake>,
    mappings: Seq<InputMapping>,
    segments: Seq<Segment>,
    stage: StageView,
    game: GameView,
    keys: Seq<u32>,
    now: u64,
    check_falling: bool,
    picks: SnackPicks,
) -> (FrameView, bool) {
    let keyed = spec_keyed_snakes(snakes, mappings, keys);
    let (moved, game_moved) = spec_move_snakes(keyed, game, now);
    let (grown, longer, game_grown) = spec_spawn_segments(moved, segments, game_moved);
    let (followed, game_followed, redraw) = spec_move_segments(longer, game_grown);
    let kept = spec_despawn_segments(followed, game_followed);
    let (staged, allowed) = spec_update_stage(stage, game_followed, picks, now);
    let events = spec_reveal_events(staged.steps) + staged.events;
    let told = spec_told_snakes(grown, events, staged.game.data is Play);
    let game_after = if check_falling {
        spec_evaluate_all_falling(told, staged.game)
    } else {
        staged.game
    };
    (
        FrameView {
            snakes: told,
            segments: kept,
            stage: staged.stage,
            game: game_after,
            steps: staged.steps,
            events,
            redraw,
        },
        allowed,
    )
}

impl Snake {
    /// The snake's numbers leave room for a frame of play, whatever the keys
    /// are: a step in any direction, a tick of falling and a segment more.
    pub open spec fn has_room(self) -> bool {
        &&& i32::MIN < self.stage_coordinate.x < i32::MAX
        &&& i32::MIN < self.stage_coordinate.y < i32::MAX
        &&& self.fall_duration < u32::MAX
        &&& self.segments < u32::MAX
    }
}

/// Whether every snake leaves room for a frame of play.
pub open spec fn all_have_room(snakes: Seq<Snake>) -> bool {
    forall|i: int| 0 <= i < snakes.len() ==> (#[trigger] snakes[i]).has_room()
}

/// Whether the numbers of the game leave room for a frame: during play each
/// snake has room, and so has the score.
pub open spec fn frame_has_room(snakes: Seq<Snake>, game: GameView) -> bool {
    game.data matches GameStateView::Play(play) ==> all_have_room(snakes) && score_has_room(play)
}

/// Tells whether the numbers of the game leave room for a frame.
pub fn frame_ready(snakes: &Vec<Snake>, game_state: &GameState) -> (ready: bool)
    ensures
        ready == frame_has_room(snakes@, game_state@),
{
    match &game_state.data {
        GameStateData::Play(play_data) => {
            if play_data.score > u32::MAX - 3 {
                return false;
            }
            let mut i: usize = 0;
            while i < snakes.len()
                invariant
                    i <= snakes.len(),
                    game_state@.data matches GameStateView::Play(play) && score_has_room(play),
                    forall|k: int| 0 <= k < i ==> (#[trigger] snakes@[k]).has_room(),
                decreases snakes.len() - i,
            {
                let c = snakes[i].stage_coordinate;
                if c.x <= i32::MIN || c.x >= i32::MAX || c.y <= i32::MIN || c.y >= i32::MAX
                    || snakes[i].fall_duration >= u32::MAX || snakes[i].segments >= u32::MAX {
                    assert(!snakes@[i as int].has_room());
                    return false;
                }
                i += 1;
            }
            true
        },
        _ => true,
    }
}

/// The keys change neither the id of a snake, nor its place, nor its
/// counters.
pub proof fn lemma_keys_keep_room(snake: Snake, mapping: InputMapping, keys: Seq<u32>)
    ensures
        snake.keyed_all(mapping, keys).id == snake.id,
        snake.keyed_all(mapping, keys).stage_coordinate == snake.stage_coordinate,
        snake.keyed_all(mapping, keys).fall_duration == snake.fall_duration,
        snake.keyed_all(mapping, keys).segments == snake.segments,
    decreases keys.len(),
{
    if keys.len() > 0 {
        lemma_keys_keep_room(snake, mapping, keys.drop_last());
    }
}

/// The events of the stage do not change the id of a snake.
pub proof fn lemma_events_keep_id(snake: Snake, events: Seq<StageEvent>, playing: bool)
    ensures
        snake.on_stage_events(events, playing).id == snake.id,
    decreases events.len(),
{
    if events.len() > 0 {
        lemma_events_keep_id(snake, events.drop_last(), playing);
    }
}

/// The moves change neither the number of snakes, nor the id or the segments
/// of any, nor the score.
pub proof fn lemma_moves_keep_room(snakes: Seq<Snake>, play: PlayView, due: bool, n: nat)
    requires
        n <= snakes.len(),
    ensures
        spec_move_each(snakes, play, due, n).0.len() == snakes.len(),
        forall|i: int| 0 <= i < snakes.len() ==> (#[trigger] spec_move_each(snakes, play, due, n).0[i]).segments
            == snakes[i].segments && spec_move_each(snakes, play, due, n).0[i].id == snakes[i].id,
        forall|i: int| n <= i < snakes.len() ==> #[trigger] spec_move_each(snakes, play, due, n).0[i] == snakes[i],
        spec_move_each(snakes, play, due, n).1.score == play.score,
    decreases n,
{
    if n > 0 {
        lemma_moves_keep_room(snakes, play, due, (n - 1) as nat);
    }
}

/// The growth changes neither the number of snakes, nor the id of any, nor
/// the score.
pub proof fn lemma_growth_keeps_room(snakes: Seq<Snake>, segments: Seq<Segment>, play: PlayView, n: nat)
    requires
        n <= snakes.len(),
    ensures
        spec_spawn_each(snakes, segments, play, n).0.len() == snakes.len(),
        forall|i: int| 0 <= i < snakes.len() ==> (#[trigger] spec_spawn_each(snakes, segments, play, n).0[i]).id
            == snakes[i].id,
        forall|i: int| n <= i < snakes.len() ==> #[trigger] spec_spawn_each(snakes, segments, play, n).0[i]
            == snakes[i],
        spec_spawn_each(snakes, segments, play, n).2.score == play.score,
    decreases n,
{
    if n > 0 {
        lemma_growth_keeps_room(snakes, segments, play, (n - 1) as nat);
    }
}

/// A frame keeps the snakes in their places: it changes neither their number
/// nor the id of any. Snakes that stand in the order of their ids before a
/// frame stand so after it, and so they move in that order in every frame.
pub proof fn lemma_frame_keeps_order(
    snakes: Seq<Snake>,
    mappings: Seq<InputMapping>,
    segments: Seq<Segment>,
    stage: StageView,
    game: GameView,
    keys: Seq<u32>,
    now: u64,
    check_falling: bool,
    picks: SnackPicks,
)
    ensures
        ({
            let after = spec_run_frame(snakes, mappings, segments, stage, game, keys, now, check_falling, picks).0.snakes;
            &&& after.len() == snakes.len()
            &&& forall|i: int| 0 <= i < snakes.len() ==> (#[trigger] after[i]).id == snakes[i].id
            &&& snakes_in_order(snakes) ==> snakes_in_order(after)
        }),
{
    let keyed = spec_keyed_snakes(snakes, mappings, keys);
    assert forall|i: int| 0 <= i < snakes.len() implies (#[trigger] keyed[i]).id == snakes[i].id by {
        lemma_keys_keep_room(snakes[i], mappings[i], keys);
    }
    let (moved, game_moved) = spec_move_snakes(keyed, game, now);
    match game.data {
        GameStateView::Play(play) => {
            lemma_moves_keep_room(keyed, play, play.move_due(now), keyed.len());
        },
        _ => {},
    }
    assert(moved.len() == snakes.len());
    assert forall|i: int| 0 <= i < snakes.len() implies (#[trigger] moved[i]).id == snakes[i].id by {
        assert(keyed[i].id == snakes[i].id);
    }
    let (grown, longer, game_grown) = spec_spawn_segments(moved, segments, game_moved);
    match game_moved.data {
        GameStateView::Play(play) => {
            lemma_growth_keeps_room(moved, segments, play, moved.len());
        },
        _ => {},
    }
    assert forall|i: int| 0 <= i < snakes.len() implies (#[trigger] grown[i]).id == snakes[i].id by {
        assert(moved[i].id == snakes[i].id);
    }
    let (followed, game_followed, redraw) = spec_move_segments(longer, game_grown);
    let (staged, allowed) = spec_update_stage(stage, game_followed, picks, now);
    let events = spec_reveal_events(staged.steps) + staged.events;
    let told = spec_told_snakes(grown, events, staged.game.data is Play);
    let after = spec_run_frame(snakes, mappings, segments, stage, game, keys, now, check_falling, picks).0.snakes;
    assert(after == told);
    assert forall|i: int| 0 <= i < snakes.len() implies (#[trigger] after[i]).id == snakes[i].id by {
        lemma_events_keep_id(grown[i], events, staged.game.data is Play);
        assert(grown[i].id == snakes[i].id);
    }
    if snakes_in_order(snakes) {
        assert forall|i: int, j: int| 0 <= i < j < after.len() implies (#[trigger] after[i]).id < (#[trigger] after[j]).id by {
            assert(snakes[i].id < snakes[j].id);
        }
    }
}

/// Takes a frame and hands back the cells that were chosen.
fn run_frame_picked(
    snakes: &mut Vec<Snake>,
    mappings: &Vec<InputMapping>,
    segments: &mut Vec<Segment>,
    stage: &mut Stage,
    game_state: &mut GameState,
    keys: &Vec<u32>,
    now: u64,
    check_falling: bool,
) -> (out: (FrameOutput, Ghost<SnackPicks>))
    requires
        mappings.len() == old(snakes).len(),
        old(stage)@.wf(),
        frame_has_room(old(snakes)@, old(game_state)@),
    ensures
        final(stage)@.wf(),
        spec_run_frame(
            old(snakes)@,
            mappings@,
            old(segments)@,
            old(stage)@,
            old(game_state)@,
            keys@,
            now,
            check_falling,
            out.1@,
        ) == ((
            FrameView {
                snakes: final(snakes)@,
                segments: final(segments)@,
                stage: final(stage)@,
                game: final(game_state)@,
                steps: out.0.steps@,
                events: out.0.events@,
                redraw: out.0.redraw@,
            },
            true,
        )),
{
    read_input(snakes, mappings, keys);
    let ghost keyed = snakes@;
    let ghost game_before = game_state@;
    proof {
        assert(keyed =~= spec_keyed_snakes(old(snakes)@, mappings@, keys@));
        assert forall|i: int| 0 <= i < keyed.len() implies (#[trigger] keyed[i]).fall_duration == old(
            snakes,
        )@[i].fall_duration && keyed[i].stage_coordinate == old(snakes)@[i].stage_coordinate
            && keyed[i].segments == old(snakes)@[i].segments by {
            lemma_keys_keep_room(old(snakes)@[i], mappings@[i], keys@);
        }
        if game_before.data is Play {
            assert forall|i: int| 0 <= i < keyed.len() implies (#[trigger] keyed[i]).can_advance()
                && keyed[i].segments < u32::MAX by {
                assert(old(snakes)@[i].has_room());
            }
        }
    }
    move_snakes(snakes, game_state, now);
    let ghost moved = snakes@;
    proof {
        match game_before.data {
            GameStateView::Play(play) => {
                lemma_moves_keep_room(keyed, play, play.move_due(now), keyed.len());
            },
            _ => {},
        }
    }
    let ghost game_moved = game_state@;
    spawn_segments(snakes, segments, game_state);
    proof {
        match game_moved.data {
            GameStateView::Play(play) => {
                lemma_growth_keeps_room(moved, old(segments)@, play, moved.len());
            },
            _ => {},
        }
    }
    let ghost grown = snakes@;
    let redraw = move_segments(segments, game_state);
    despawn_segments(segments, game_state);
    let (staged, picks) = update_stage_picked(stage, game_state, now);
    let mut events = reveal_events(&staged.steps);
    let mut judged = staged.events;
    let ghost revealed = events@;
    let ghost later = judged@;
    events.append(&mut judged);
    assert(events@ =~= revealed + later);
    let playing: bool = match &game_state.data {
        GameStateData::Play(_) => true,
        _ => false,
    };
    read_stage_events(snakes, &events, playing);
    assert(snakes@ =~= spec_told_snakes(grown, events@, playing));
    if check_falling {
        evaluate_all_falling(snakes, game_state);
    }
    (FrameOutput { steps: staged.steps, events, redraw }, picks)
}

/// Takes one frame of the game at `now`, as `spec_run_frame` says of some
/// cells for the next snack, each of which, where it was called for, was drawn
/// among the cells that a snack may go to.
///
/// `mappings` holds the bindings of the snakes, place by place, and `keys` the
/// keys that were pressed since the last frame. `check_falling` asks for the
/// look at the falling snakes, which is due every other second.
pub fn run_frame(
    snakes: &mut Vec<Snake>,
    mappings: &Vec<InputMapping>,
    segments: &mut Vec<Segment>,
    stage: &mut Stage,
    game_state: &mut GameState,
    keys: &Vec<u32>,
    now: u64,
    check_falling: bool,
) -> (out: FrameOutput)
    requires
        mappings.len() == old(snakes).len(),
        old(stage)@.wf(),
        frame_has_room(old(snakes)@, old(game_state)@),
    ensures
        final(stage)@.wf(),
        exists|picks: SnackPicks| #[trigger]
            spec_run_frame(
                old(snakes)@,
                mappings@,
                old(segments)@,
                old(stage)@,
                old(game_state)@,
                keys@,
                now,
                check_falling,
                picks,
            ) == ((
                FrameView {
                    snakes: final(snakes)@,
                    segments: final(segments)@,
                    stage: final(stage)@,
                    game: final(game_state)@,
                    steps: out.steps@,
                    events: out.events@,
                    redraw: out.redraw@,
                },
                true,
            )),
{
    let (out, _picks) = run_frame_picked(snakes, mappings, segments, stage, game_state, keys, now, check_falling);
    out
}

} // verus!
