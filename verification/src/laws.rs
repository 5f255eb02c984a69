//! What holds of the game whatever the players do.

use vstd::prelude::*;
use crate::coordinate::StageCoordinate;
use crate::frame::{spec_keyed_snakes, spec_run_frame};
use crate::mask::{grid_contains, grid_get};
use crate::segments::{spec_move_segments, spec_segments_settled, spec_spawn_each, spec_spawn_segments, Segment};
use crate::snacks::{has_snack_candidate, is_snack_choice};
use crate::snake::{spec_is_opposite, InputMapping, Snake};
use crate::movement::{spec_move_each, spec_move_snake, spec_move_snakes, spec_move_snakes_play};
use crate::stage::{spec_classify, spec_layout_fault, StageView};
use crate::stage_update::{lemma_revealed, spec_evaluate_moves, spec_evaluate_snake, SnackPicks};
use crate::state::{move_interval_for, spec_new_play, spec_new_snake_play_data, spec_update_gamestate, GameStateView, GameView, PlayView, SnakePlayData, StateInput, DEFAULT_MOVE_INTERVAL, DEFAULT_MOVE_SPEED, MIN_MOVE_SPEED};

verus! {

impl PlayView {
    /// The pace of the session follows from its speed.
    pub open spec fn paced(self) -> bool {
        self.move_interval == move_interval_for(self.move_speed)
    }

    /// Two sessions of one speed and one pace.
    pub open spec fn same_pace(self, other: PlayView) -> bool {
        self.move_speed == other.move_speed && self.move_interval == other.move_interval
    }
}

/// The time between two moves is the default interval divided by the speed,
/// the speed taken as no less than the minimum; it is never zero.
pub proof fn lemma_move_interval(move_speed: u32)
    ensures
        move_interval_for(move_speed) > 0,
        move_speed >= MIN_MOVE_SPEED ==> move_interval_for(move_speed) == DEFAULT_MOVE_INTERVAL
            * DEFAULT_MOVE_SPEED / (move_speed as int),
        move_speed < MIN_MOVE_SPEED ==> move_interval_for(move_speed) == DEFAULT_MOVE_INTERVAL
            * DEFAULT_MOVE_SPEED / (MIN_MOVE_SPEED as int),
{
    let speed: int = if move_speed > MIN_MOVE_SPEED { move_speed as int } else { MIN_MOVE_SPEED as int };
    assert(0 < 50_000_000_000int / speed <= 50_000_000_000) by (nonlinear_arith)
        requires
            0 < speed <= 0xffff_ffff,
    ;
}

/// A new session is paced, and its pace is not zero.
pub proof fn lemma_new_session_is_paced(stage_id: u32, stage_width: nat, stage_height: nat)
    ensures
        spec_new_play(stage_id, stage_width, stage_height).paced(),
        spec_new_play(stage_id, stage_width, stage_height).move_interval > 0,
{
    lemma_move_interval(spec_new_play(stage_id, stage_width, stage_height).move_speed);
}

/// A session is paced after every snack, whatever its pace was before, and
/// its pace is not zero.
pub proof fn lemma_raised_speed_is_paced(play: PlayView)
    ensures
        play.with_raised_speed().paced(),
        play.with_raised_speed().move_interval > 0,
{
    lemma_move_interval(play.with_raised_speed().move_speed);
}

/// The moves of the snakes leave speed and pace alone.
pub proof fn lemma_moves_keep_pace(snakes: Seq<Snake>, play: PlayView, due: bool, n: nat)
    ensures
        spec_move_each(snakes, play, due, n).1.same_pace(play),
        spec_move_each(snakes, play, due, n).1.last_move_time == play.last_move_time,
    decreases n,
{
    if n > 0 {
        lemma_moves_keep_pace(snakes, play, due, (n - 1) as nat);
    }
}

/// A frame of moves keeps a paced session paced.
pub proof fn lemma_move_frame_keeps_pace(snakes: Seq<Snake>, play: PlayView, now: u64)
    requires
        play.paced(),
    ensures
        spec_move_snakes_play(snakes, play, now).1.paced(),
{
    lemma_moves_keep_pace(snakes, play, play.move_due(now), snakes.len());
}

/// The judgement of a move keeps a paced session paced.
pub proof fn lemma_judgement_keeps_pace(stage: StageView, play: PlayView, id: u32, pick: StageCoordinate, time: u64)
    requires
        play.paced(),
    ensures
        spec_evaluate_snake(stage, play, id, pick, time).play.paced(),
{
    lemma_move_interval(play.move_speed);
}

/// A frame of judgements keeps a paced session paced.
pub proof fn lemma_judgements_keep_pace(stage: StageView, play: PlayView, picks: SnackPicks, time: u64)
    requires
        play.paced(),
    ensures
        spec_evaluate_moves(stage, play, picks, time).0.play.paced(),
{
    let first = spec_evaluate_snake(stage, play, 1, picks.first, time);
    lemma_judgement_keeps_pace(stage, play, 1, picks.first, time);
    let second = spec_evaluate_snake(first.stage, first.play, 2, picks.second, time);
    lemma_judgement_keeps_pace(first.stage, first.play, 2, picks.second, time);
    lemma_judgement_keeps_pace(second.stage, second.play, 3, picks.third, time);
}

/// The growth of the snakes leaves speed and pace alone.
pub proof fn lemma_growth_keeps_pace(snakes: Seq<Snake>, segments: Seq<Segment>, play: PlayView, n: nat)
    ensures
        spec_spawn_each(snakes, segments, play, n).2.same_pace(play),
    decreases n,
{
    if n > 0 {
        lemma_growth_keeps_pace(snakes, segments, play, (n - 1) as nat);
    }
}

/// The segments leave speed and pace alone.
pub proof fn lemma_segments_keep_pace(segments: Seq<Segment>, play: PlayView)
    ensures
        spec_segments_settled(segments, play).same_pace(play),
{
}

/// The state machine starts every session paced and hands a won session on
/// as it was.
pub proof fn lemma_state_machine_keeps_pace(game: GameView, input: StateInput)
    requires
        game.data matches GameStateView::Play(play) ==> play.paced(),
    ensures
        spec_update_gamestate(game, input).game.data matches GameStateView::Play(play) ==> play.paced(),
        game.data matches GameStateView::Play(play) ==> (
        spec_update_gamestate(game, input).game.data matches GameStateView::Win(won) ==> won == play),
{
    if game.data is Start {
        lemma_new_session_is_paced(game.stage, game.stage_width as nat, game.stage_height as nat);
    }
}

/// A frame keeps a paced session paced: whatever the keys, the clock and the
/// cells drawn for the snacks, the pace of a session follows from its speed
/// after the frame as it did before.
pub proof fn lemma_frame_keeps_pace(
    snakes: Seq<Snake>,
    mappings: Seq<InputMapping>,
    segments: Seq<Segment>,
    stage: StageView,
    game: GameView,
    keys: Seq<u32>,
    now: u64,
    check_falling: bool,
    picks: SnackPicks,
)
    requires
        game.data matches GameStateView::Play(play) && play.paced(),
    ensures
        spec_run_frame(snakes, mappings, segments, stage, game, keys, now, check_falling, picks).0.game.data matches GameStateView::Play(
            play,
        ) && play.paced() && play.move_interval > 0,
{
    let play = game.data->Play_0;
    let keyed = spec_keyed_snakes(snakes, mappings, keys);
    let (moved, game_moved) = spec_move_snakes(keyed, game, now);
    lemma_move_frame_keeps_pace(keyed, play, now);
    let play_moved = game_moved.data->Play_0;
    let (grown, longer, game_grown) = spec_spawn_segments(moved, segments, game_moved);
    lemma_growth_keeps_pace(moved, segments, play_moved, moved.len());
    let play_grown = game_grown.data->Play_0;
    let (followed, game_followed, redraw) = spec_move_segments(longer, game_grown);
    lemma_segments_keep_pace(longer, play_grown);
    let play_followed = game_followed.data->Play_0;
    lemma_judgements_keep_pace(stage, play_followed, picks, now);
    let after = spec_run_frame(snakes, mappings, segments, stage, game, keys, now, check_falling, picks).0.game;
    lemma_move_interval(after.data->Play_0.move_speed);
}

/// The keys leave the last move alone, and a snake that does not head
/// against its last move still does not after any keys.
pub proof fn lemma_keys_never_reverse(snake: Snake, mapping: InputMapping, keys: Seq<u32>)
    requires
        snake.wf(),
    ensures
        snake.keyed_all(mapping, keys).wf(),
        snake.keyed_all(mapping, keys).last_direction_moved == snake.last_direction_moved,
        snake.keyed_all(mapping, keys).stage_coordinate == snake.stage_coordinate,
    decreases keys.len(),
{
    if keys.len() > 0 {
        lemma_keys_never_reverse(snake, mapping, keys.drop_last());
    }
}

/// No reversal: whatever keys are pressed between two moves, and however
/// often, the second move does not go against the first.
pub proof fn lemma_no_reversal(snake: Snake, mapping: InputMapping, keys: Seq<u32>)
    requires
        snake.wf(),
    ensures
        !spec_is_opposite(
            snake.last_direction_moved,
            snake.keyed_all(mapping, keys).advanced().last_direction_moved,
        ),
        snake.keyed_all(mapping, keys).advanced().wf(),
{
    lemma_keys_never_reverse(snake, mapping, keys);
}

/// After a snake has moved from one cell to another, the cell it moved to is
/// taken in the dynamic mask, and the cell it left is free if it lies on the
/// mask and the snake has no segments.
pub proof fn lemma_mask_after_move(snake: Snake, play: PlayView)
    requires
        snake.in_session(),
        snake.active,
        snake.advanced().stage_coordinate != snake.stage_coordinate,
    ensures
        !grid_get(spec_move_snake(snake, play, true).1.mask, snake.advanced().stage_coordinate),
        snake.segments == 0 && grid_contains(play.mask, snake.stage_coordinate) ==> grid_get(
            spec_move_snake(snake, play, true).1.mask,
            snake.stage_coordinate,
        ),
        snake.segments > 0 ==> grid_get(spec_move_snake(snake, play, true).1.mask, snake.stage_coordinate)
            == grid_get(play.mask, snake.stage_coordinate),
{
}

/// A snake on the floor that steps onto a cell that is taken in the dynamic
/// mask crashes.
pub proof fn lemma_taken_cell_is_a_crash(snake: Snake, play: PlayView)
    requires
        snake.moves(),
        !snake.falling,
        grid_contains(play.mask, snake.advanced().stage_coordinate),
        !grid_get(play.mask, snake.advanced().stage_coordinate),
    ensures
        spec_move_snake(snake, play, true).1.crash,
{
}

/// A crash is not undone by any move: what an earlier snake ran into stands,
/// whatever the later snakes do in the same frame.
pub proof fn lemma_crash_stays(snakes: Seq<Snake>, play: PlayView, due: bool, n: nat)
    requires
        play.crash,
    ensures
        spec_move_each(snakes, play, due, n).1.crash,
    decreases n,
{
    if n > 0 {
        lemma_crash_stays(snakes, play, due, (n - 1) as nat);
    }
}

/// A chosen snack cell is floor and free whenever there is such a cell.
pub proof fn lemma_snack_choice_is_walkable(stage: StageView, dynamic: Seq<Seq<bool>>, c: StageCoordinate)
    requires
        is_snack_choice(stage, dynamic, c),
        has_snack_candidate(stage, dynamic),
    ensures
        grid_get(stage.walkable, c),
        grid_get(dynamic, c),
{
}

/// What a segment sees of its snake in a move tick: the snake has `count`
/// segments, and its head has just left the cell `left`.
pub open spec fn spec_tick_mirror(count: u32, left: StageCoordinate) -> SnakePlayData {
    SnakePlayData {
        refresh_segments: true,
        segments: count,
        previous_coordinate: left,
        ..spec_new_snake_play_data()
    }
}

/// The segment after the move ticks of a snake with `count` segments whose
/// head left the cells `trail`, one in each tick, in this order.
pub open spec fn spec_trailed(segment: Segment, count: u32, trail: Seq<StageCoordinate>) -> Segment
    decreases trail.len(),
{
    if trail.len() == 0 {
        segment
    } else {
        spec_trailed(segment, count, trail.drop_last()).followed(
            spec_tick_mirror(count, trail.last()),
        )
    }
}

/// Fixed-lag following. While a snake keeps its number of segments, a
/// segment that has leapt sits on the cell that the head left as many ticks
/// ago as the segment's counter says, which is at least one tick and at most
/// as many as the snake has segments; until its first leap it sits where it
/// was, and its counter has counted every tick.
pub proof fn lemma_segment_follows_head(segment: Segment, count: u32, trail: Seq<StageCoordinate>)
    requires
        count >= 1,
        segment.move_counter <= count,
    ensures
        ({
            let after = spec_trailed(segment, count, trail);
            &&& after.snake_id == segment.snake_id
            &&& after.move_counter <= count
            &&& trail.len() > 0 ==> after.move_counter >= 1
            &&& if after.move_counter == segment.move_counter + trail.len() {
                after.coordinate == segment.coordinate
            } else {
                &&& after.move_counter <= trail.len()
                &&& after.coordinate == trail[trail.len() - after.move_counter]
            }
        }),
    decreases trail.len(),
{
    if trail.len() > 0 {
        lemma_segment_follows_head(segment, count, trail.drop_last());
        let before = spec_trailed(segment, count, trail.drop_last());
        let after = spec_trailed(segment, count, trail);
        if before.move_counter < count && before.move_counter != segment.move_counter + trail.len() - 1 {
            assert(trail.drop_last()[trail.len() - 1 - before.move_counter] == trail[trail.len()
                - after.move_counter]);
        }
    }
}

/// A segment leaps once in as many ticks as its snake has segments: its
/// counter runs from one to that number and begins again.
pub proof fn lemma_segment_counter_cycles(segment: Segment, count: u32, trail: Seq<StageCoordinate>)
    requires
        count >= 1,
        1 <= segment.move_counter <= count,
    ensures
        spec_trailed(segment, count, trail).move_counter == (segment.move_counter - 1 + trail.len())
            % (count as int) + 1,
    decreases trail.len(),
{
    let c = count as int;
    let start = segment.move_counter - 1;
    if trail.len() == 0 {
        assert(start % c == start) by (nonlinear_arith)
            requires
                0 <= start < c,
        ;
    } else {
        lemma_segment_counter_cycles(segment, count, trail.drop_last());
        let m = start + trail.len() - 1;
        assert((m + 1) % c == if m % c == c - 1 { 0 } else { m % c + 1 }) by (nonlinear_arith)
            requires
                c >= 1,
                m >= 0,
        ;
    }
}


/// A segment rests for a round. A segment that has leapt in the `n`th tick
/// sits on the cell that the head left in that tick for as many ticks as the
/// snake has segments, and leaps on in the tick after: the cell is behind the
/// head for one tick more than the snake has segments.
pub proof fn lemma_segment_rests_for_a_round(
    segment: Segment,
    count: u32,
    trail: Seq<StageCoordinate>,
    n: int,
    k: int,
)
    requires
        count >= 1,
        1 <= segment.move_counter <= count,
        1 <= n,
        0 <= k <= count,
        n + k <= trail.len(),
        spec_trailed(segment, count, trail.take(n)).move_counter == 1,
    ensures
        k < count ==> spec_trailed(segment, count, trail.take(n + k)).coordinate == trail[n - 1],
        k == count ==> spec_trailed(segment, count, trail.take(n + k)).coordinate == trail[n + k - 1],
{
    let c = count as int;
    let start = segment.move_counter - 1;
    lemma_segment_counter_cycles(segment, count, trail.take(n));
    lemma_segment_counter_cycles(segment, count, trail.take(n + k));
    lemma_segment_follows_head(segment, count, trail.take(n + k));
    assert((start + n + k) % c == if k < c { k } else { 0 }) by (nonlinear_arith)
        requires
            c >= 1,
            start + n >= 0,
            (start + n) % c == 0,
            0 <= k <= c,
    ;
}

/// The static mask that a layout stands for: a cell is walkable unless its
/// symbol is void.
pub open spec fn spec_floor_mask(layout: Seq<Seq<char>>) -> Seq<Seq<bool>> {
    Seq::new(
        layout.len(),
        |y: int| Seq::new(layout[y].len(), |x: int| !(spec_classify(layout[y][x]) is Void)),
    )
}

/// Whether the reveal of the layout `layout` stands as it should after `n`
/// cells: the cells before the `n`th are marked as the layout says, and the
/// others are still walkable.
spec fn reveal_stands(stage: StageView, layout: Seq<Seq<char>>, n: nat) -> bool {
    let w = layout[0].len() as int;
    let h = layout.len() as int;
    &&& stage.wf()
    &&& stage.layout == layout
    &&& stage.width == w
    &&& stage.height == h
    &&& stage.tiles_left() == w * h - n
    &&& forall|x: int, y: int|
        0 <= x < w && 0 <= y < h ==> #[trigger] stage.walkable[y][x] == (y * w + x >= n || !(
        spec_classify(layout[y][x]) is Void))
}

/// The reveal stands as it should after every number of cells up to the
/// last.
proof fn lemma_reveal_stands(stage: StageView, stage_id: u32, layout: Seq<Seq<char>>, time: u64, n: nat)
    requires
        spec_layout_fault(layout) is None,
        n <= layout.len() * layout[0].len(),
    ensures
        reveal_stands(stage.loaded(stage_id, layout).revealed_many(time, n), layout, n),
    decreases n,
{
    let w = layout[0].len() as int;
    let h = layout.len() as int;
    let fresh = stage.loaded(stage_id, layout);
    assert(forall|y: int| 0 <= y < h ==> (#[trigger] layout[y]).len() == w);
    assert(w * h == h * w) by (nonlinear_arith);
    if n == 0 {
        assert(w * h - (0 * w + 0) == w * h - 0) by (nonlinear_arith);
    } else {
        lemma_reveal_stands(stage, stage_id, layout, time, (n - 1) as nat);
        let before = fresh.revealed_many(time, (n - 1) as nat);
        let after = before.revealed(time);
        assert(before.setting.in_progress);
        lemma_revealed(before, time);
        let cx = before.setting.x as int;
        let cy = before.setting.y as int;
        assert(cy * w + cx == n - 1);
        assert forall|x: int, y: int| 0 <= x < w && 0 <= y < h implies #[trigger] after.walkable[y][x] == (y
            * w + x >= n || !(spec_classify(layout[y][x]) is Void)) by {
            assert(before.walkable[y].len() == w);
            if y * w + x == n - 1 {
                assert(x == cx && y == cy) by (nonlinear_arith)
                    requires
                        y * w + x == cy * w + cx,
                        0 <= x < w,
                        0 <= cx < w,
                ;
            } else {
                assert(!(x == cx && y == cy));
            }
        }
    }
}

/// The reveal builds the static mask. Once the reveal of a layout has come
/// to every cell, it is over, and a cell is walkable in the static mask of
/// the stage if and only if its symbol is not void.
pub proof fn lemma_reveal_builds_floor_mask(stage: StageView, stage_id: u32, layout: Seq<Seq<char>>, time: u64)
    requires
        spec_layout_fault(layout) is None,
    ensures
        ({
            let cells = (layout.len() * layout[0].len()) as nat;
            let done = stage.loaded(stage_id, layout).revealed_many(time, cells);
            &&& done.wf()
            &&& !done.setting.in_progress
            &&& done.walkable == spec_floor_mask(layout)
        }),
{
    let w = layout[0].len() as int;
    let h = layout.len() as int;
    let cells = (layout.len() * layout[0].len()) as nat;
    assert(h * w >= 0) by (nonlinear_arith)
        requires
            h >= 0,
            w >= 0,
    ;
    lemma_reveal_stands(stage, stage_id, layout, time, cells);
    let done = stage.loaded(stage_id, layout).revealed_many(time, cells);
    assert(w * h == h * w) by (nonlinear_arith);
    if done.setting.in_progress {
        lemma_revealed(done, time);
    }
    assert forall|y: int| 0 <= y < h implies #[trigger] done.walkable[y] =~= spec_floor_mask(layout)[y] by {
        assert(done.walkable[y].len() == w);
        assert(layout[y].len() == w);
        assert forall|x: int| 0 <= x < w implies done.walkable[y][x] == spec_floor_mask(layout)[y][x] by {
            assert(y * w + x < h * w) by (nonlinear_arith)
                requires
                    0 <= x < w,
                    0 <= y < h,
            ;
        }
    }
    assert(done.walkable =~= spec_floor_mask(layout));
}

} // verus!
