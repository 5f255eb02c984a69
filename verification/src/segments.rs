//! The segments that trail behind the snakes.
//!
//! A snake does not drag its body cell by cell. Each segment rests on its cell
//! and counts the moves of its snake; when it has rested for as many moves as
//! the snake has segments, it leaps onto the cell that the head has just left.
//! The segments of one snake take turns in this, so that the body as a whole
//! follows the head.

use vstd::prelude::*;
use crate::coordinate::StageCoordinate;
use crate::mask::grid_set;
use crate::snake::Snake;
use crate::state::{GameState, GameStateData, GameStateView, GameView, PlayData, PlayView, SnakePlayData};

verus! {

/// One segment of the body of a snake.
#[derive(Copy, Clone, Debug, PartialEq, Eq, Structural)]
pub struct Segment {
    pub snake_id: u32,
    pub coordinate: StageCoordinate,
    /// The number of moves of its snake that the segment has rested for.
    pub move_counter: u32,
}

pub open spec fn spec_new_segment(snake_id: u32, coordinate: StageCoordinate) -> Segment {
    Segment { snake_id, coordinate, move_counter: 0 }
}

impl Segment {
    pub fn new(snake_id: u32, coordinate: StageCoordinate) -> (segment: Self)
        ensures
            segment == spec_new_segment(snake_id, coordinate),
    {
        Self { snake_id, coordinate, move_counter: 0 }
    }

    /// Whether the segment leaps in a frame in which its snake's mirror reads
    /// `data`: the head moved, and the segment has rested long enough.
    pub open spec fn leaps(self, data: SnakePlayData) -> bool {
        data.refresh_segments && self.move_counter >= data.segments
    }

    /// The segment after such a frame. A segment that leaps lands on the cell
    /// that the head left and counts from one again; a segment that rests
    /// counts the move; without a move of the head nothing changes.
    pub open spec fn followed(self, data: SnakePlayData) -> Segment {
        if !data.refresh_segments {
            self
        } else if self.move_counter >= data.segments {
            Segment { coordinate: data.previous_coordinate, move_counter: 1, ..self }
        } else {
            Segment { move_counter: (self.move_counter + 1) as u32, ..self }
        }
    }

    /// Whether the segment is to be drawn anew after such a frame: it leapt,
    /// and its snake did not grow in this frame.
    pub open spec fn redrawn(self, data: SnakePlayData) -> bool {
        self.leaps(data) && !data.had_a_snack
    }
}

impl Snake {
    /// The snake after it has grown, if it ate: one segment more.
    pub open spec fn grown(self) -> Snake {
        if self.had_a_snack {
            Snake { segments: (self.segments + 1) as u32, had_a_snack: false, ..self }
        } else {
            self
        }
    }
}

/// The growth of one snake during play. A snake that ate gets a new segment
/// on the cell of its head, and its mirror notes the growth.
pub open spec fn spec_spawn_segment(snake: Snake, segments: Seq<Segment>, play: PlayView) -> (Snake, Seq<Segment>, PlayView) {
    if snake.had_a_snack {
        (
            snake.grown(),
            segments.push(spec_new_segment(snake.id, snake.stage_coordinate)),
            play.with_snake_data(
                snake.id,
                SnakePlayData { had_a_snack: true, ..play.snake_data(snake.id) },
            ),
        )
    } else {
        (snake, segments, play)
    }
}

/// The growth of the first `n` snakes, one after the other.
pub open spec fn spec_spawn_each(snakes: Seq<Snake>, segments: Seq<Segment>, play: PlayView, n: nat) -> (Seq<Snake>, Seq<Segment>, PlayView)
    decreases n,
{
    if n == 0 {
        (snakes, segments, play)
    } else {
        let (before, body, session) = spec_spawn_each(snakes, segments, play, (n - 1) as nat);
        let (grown, longer, after) = spec_spawn_segment(before[n - 1], body, session);
        (before.update(n - 1, grown), longer, after)
    }
}

/// What a frame does to the bodies: during play the snakes that ate grow, in
/// any other mode nothing happens.
pub open spec fn spec_spawn_segments(snakes: Seq<Snake>, segments: Seq<Segment>, game: GameView) -> (Seq<Snake>, Seq<Segment>, GameView) {
    match game.data {
        GameStateView::Play(play) => {
            let (grown, body, session) = spec_spawn_each(snakes, segments, play, snakes.len());
            (grown, body, GameView { data: GameStateView::Play(session), ..game })
        },
        _ => (snakes, segments, game),
    }
}

/// Whether every snake that ate can count one segment more.
pub open spec fn all_can_grow(snakes: Seq<Snake>) -> bool {
    forall|i: int| 0 <= i < snakes.len() && (#[trigger] snakes[i]).had_a_snack ==> snakes[i].segments < u32::MAX
}

/// Whether the bodies can take a frame: during play every snake that ate can
/// count one segment more.
pub open spec fn can_spawn_segments(snakes: Seq<Snake>, game: GameView) -> bool {
    game.data is Play ==> all_can_grow(snakes)
}

/// Lets the snakes that ate grow, as `spec_spawn_each` says.
pub fn spawn_segments_play(snakes: &mut Vec<Snake>, segments: &mut Vec<Segment>, play_data: &mut PlayData)
    requires
        all_can_grow(old(snakes)@),
    ensures
        (final(snakes)@, final(segments)@, final(play_data)@) == spec_spawn_each(
            old(snakes)@,
            old(segments)@,
            old(play_data)@,
            old(snakes)@.len(),
        ),
{
    let mut i: usize = 0;
    while i < snakes.len()
        invariant
            i <= snakes.len(),
            snakes@.len() == old(snakes)@.len(),
            (snakes@, segments@, play_data@) == spec_spawn_each(old(snakes)@, old(segments)@, old(play_data)@, i as nat),
            forall|k: int| i <= k < snakes.len() ==> #[trigger] snakes@[k] == old(snakes)@[k],
            all_can_grow(old(snakes)@),
        decreases snakes.len() - i,
    {
        let mut snake = snakes[i];
        assert(snake == old(snakes)@[i as int]);
        if snake.had_a_snack {
            segments.push(Segment::new(snake.id, snake.stage_coordinate));
            snake.segments += 1;
            snake.had_a_snack = false;
            let mut snake_data = play_data.snake_data(snake.id);
            snake_data.had_a_snack = true;
            play_data.set_snake_data(snake.id, snake_data);
        }
        snakes[i] = snake;
        i += 1;
    }
}

/// Takes the frame's growth, as `spec_spawn_segments` says.
pub fn spawn_segments(snakes: &mut Vec<Snake>, segments: &mut Vec<Segment>, game_state: &mut GameState)
    requires
        can_spawn_segments(old(snakes)@, old(game_state)@),
    ensures
        (final(snakes)@, final(segments)@, final(game_state)@) == spec_spawn_segments(
            old(snakes)@,
            old(segments)@,
            old(game_state)@,
        ),
{
    match &mut game_state.data {
        GameStateData::Play(play_data) => {
            spawn_segments_play(snakes, segments, play_data);
        },
        _ => {},
    }
}

/// The dynamic mask after the first `n` segments have had their turn: the
/// cell that a segment leaps from is given free.
pub open spec fn spec_freed(mask: Seq<Seq<bool>>, segments: Seq<Segment>, play: PlayView, n: nat) -> Seq<Seq<bool>>
    decreases n,
{
    if n == 0 {
        mask
    } else {
        let before = spec_freed(mask, segments, play, (n - 1) as nat);
        let segment = segments[n - 1];
        if segment.leaps(play.snake_data(segment.snake_id)) {
            grid_set(before, segment.coordinate, true)
        } else {
            before
        }
    }
}

/// The segments after a frame of the session `play`.
pub open spec fn spec_followed_all(segments: Seq<Segment>, play: PlayView) -> Seq<Segment> {
    Seq::new(segments.len(), |i: int| segments[i].followed(play.snake_data(segments[i].snake_id)))
}

/// Which segments are to be drawn anew after a frame of the session `play`.
pub open spec fn spec_redrawn_all(segments: Seq<Segment>, play: PlayView) -> Seq<bool> {
    Seq::new(segments.len(), |i: int| segments[i].redrawn(play.snake_data(segments[i].snake_id)))
}

/// A mirror with the notes for the segments taken off.
pub open spec fn spec_settled(data: SnakePlayData) -> SnakePlayData {
    SnakePlayData { refresh_segments: false, had_a_snack: false, ..data }
}

/// The session after the segments have followed: the cells they left are
/// free, and the notes for the segments are taken off every mirror.
pub open spec fn spec_segments_settled(segments: Seq<Segment>, play: PlayView) -> PlayView {
    PlayView {
        mask: spec_freed(play.mask, segments, play, segments.len()),
        snake1_data: spec_settled(play.snake1_data),
        snake2_data: spec_settled(play.snake2_data),
        snake3_data: spec_settled(play.snake3_data),
        ..play
    }
}

/// What a frame does to the segments: during play they follow, in any other
/// mode they rest.
pub open spec fn spec_move_segments(segments: Seq<Segment>, game: GameView) -> (Seq<Segment>, GameView, Seq<bool>) {
    match game.data {
        GameStateView::Play(play) => (
            spec_followed_all(segments, play),
            GameView { data: GameStateView::Play(spec_segments_settled(segments, play)), ..game },
            spec_redrawn_all(segments, play),
        ),
        _ => (segments, game, Seq::new(segments.len(), |i: int| false)),
    }
}

/// Lets one segment follow its snake: the segment becomes what
/// `Segment::followed` says, and the cell it leaps from is given free. The
/// result tells whether the segment is to be drawn anew.
pub fn follow_segment(segment: &mut Segment, play_data: &mut PlayData) -> (redraw: bool)
    ensures
        *final(segment) == old(segment).followed(old(play_data)@.snake_data(old(segment).snake_id)),
        redraw == old(segment).redrawn(old(play_data)@.snake_data(old(segment).snake_id)),
        final(play_data)@ == (PlayView {
            mask: if old(segment).leaps(old(play_data)@.snake_data(old(segment).snake_id)) {
                grid_set(old(play_data)@.mask, old(segment).coordinate, true)
            } else {
                old(play_data)@.mask
            },
            ..old(play_data)@
        }),
{
    let snake_data = play_data.snake_data(segment.snake_id);
    if !snake_data.refresh_segments {
        return false;
    }
    if segment.move_counter >= snake_data.segments {
        play_data.snakes_walkable_mask.set(&segment.coordinate, true);
        segment.coordinate = snake_data.previous_coordinate;
        segment.move_counter = 1;
        !snake_data.had_a_snack
    } else {
        segment.move_counter += 1;
        false
    }
}

/// Lets the segments follow their snakes, as `spec_followed_all` and
/// `spec_segments_settled` say. The result tells, segment by segment, which
/// are to be drawn anew.
pub fn move_segments_play(segments: &mut Vec<Segment>, play_data: &mut PlayData) -> (redraw: Vec<bool>)
    ensures
        final(segments)@ == spec_followed_all(old(segments)@, old(play_data)@),
        final(play_data)@ == spec_segments_settled(old(segments)@, old(play_data)@),
        redraw@ == spec_redrawn_all(old(segments)@, old(play_data)@),
{
    let ghost session = play_data@;
    let ghost body = segments@;
    let mut redraw: Vec<bool> = Vec::new();
    let mut i: usize = 0;
    while i < segments.len()
        invariant
            i <= segments.len(),
            segments@.len() == body.len(),
            redraw@.len() == i,
            forall|k: int| 0 <= k < i ==> #[trigger] segments@[k] == body[k].followed(
                session.snake_data(body[k].snake_id),
            ),
            forall|k: int| 0 <= k < i ==> #[trigger] redraw@[k] == body[k].redrawn(
                session.snake_data(body[k].snake_id),
            ),
            forall|k: int| i <= k < segments.len() ==> #[trigger] segments@[k] == body[k],
            play_data@ == (PlayView { mask: spec_freed(session.mask, body, session, i as nat), ..session }),
        decreases segments.len() - i,
    {
        let mut segment = segments[i];
        assert(segment == body[i as int]);
        assert(play_data@.snake_data(segment.snake_id) == session.snake_data(segment.snake_id));
        let drawn = follow_segment(&mut segment, play_data);
        redraw.push(drawn);
        segments[i] = segment;
        i += 1;
    }
    settle(play_data);
    assert(segments@ =~= spec_followed_all(body, session));
    assert(redraw@ =~= spec_redrawn_all(body, session));
    redraw
}

/// Takes the notes for the segments off every mirror.
fn settle(play_data: &mut PlayData)
    ensures
        final(play_data)@ == (PlayView {
            snake1_data: spec_settled(old(play_data)@.snake1_data),
            snake2_data: spec_settled(old(play_data)@.snake2_data),
            snake3_data: spec_settled(old(play_data)@.snake3_data),
            ..old(play_data)@
        }),
{
    play_data.snake1_data.refresh_segments = false;
    play_data.snake1_data.had_a_snack = false;
    play_data.snake2_data.refresh_segments = false;
    play_data.snake2_data.had_a_snack = false;
    play_data.snake3_data.refresh_segments = false;
    play_data.snake3_data.had_a_snack = false;
}

/// Takes the frame of the segments, as `spec_move_segments` says.
pub fn move_segments(segments: &mut Vec<Segment>, game_state: &mut GameState) -> (redraw: Vec<bool>)
    ensures
        (final(segments)@, final(game_state)@, redraw@) == spec_move_segments(
            old(segments)@,
            old(game_state)@,
        ),
{
    match &mut game_state.data {
        GameStateData::Play(play_data) => move_segments_play(segments, play_data),
        _ => {
            let mut redraw: Vec<bool> = Vec::new();
            let mut i: usize = 0;
            while i < segments.len()
                invariant
                    i <= segments.len(),
                    redraw@.len() == i,
                    forall|k: int| 0 <= k < i ==> !(#[trigger] redraw@[k]),
                decreases segments.len() - i,
            {
                redraw.push(false);
                i += 1;
            }
            assert(redraw@ =~= Seq::new(segments@.len(), |i: int| false));
            redraw
        },
    }
}

/// The segments that stay on the stage: all, or none once the game is in
/// `Reset`.
pub open spec fn spec_despawn_segments(segments: Seq<Segment>, game: GameView) -> Seq<Segment> {
    if game.data is Reset {
        Seq::empty()
    } else {
        segments
    }
}

/// Takes the segments off the stage once the game is in `Reset`.
pub fn despawn_segments(segments: &mut Vec<Segment>, game_state: &GameState)
    ensures
        final(segments)@ == spec_despawn_segments(old(segments)@, game_state@),
{
    match &game_state.data {
        GameStateData::Reset(_counter) => {
            segments.clear();
        },
        _ => {},
    }
}

/// Whether no snake is left on the floor: every snake that is in the game is
/// falling.
pub open spec fn spec_all_falling(snakes: Seq<Snake>) -> bool {
    forall|i: int| 0 <= i < snakes.len() ==> !((#[trigger] snakes[i]).active && !snakes[i].falling)
}

/// The game after the look at the snakes: during play the session notes
/// whether every snake in the game is falling.
pub open spec fn spec_evaluate_all_falling(snakes: Seq<Snake>, game: GameView) -> GameView {
    match game.data {
        GameStateView::Play(play) => GameView {
            data: GameStateView::Play(PlayView { all_falling: spec_all_falling(snakes), ..play }),
            ..game
        },
        _ => game,
    }
}

/// Notes in the session whether every snake in the game is falling. Outside
/// `Play` nothing is noted.
pub fn evaluate_all_falling(snakes: &Vec<Snake>, game_state: &mut GameState)
    ensures
        final(game_state)@ == spec_evaluate_all_falling(snakes@, old(game_state)@),
{
    match &mut game_state.data {
        GameStateData::Play(play_data) => {
            let mut all_falling = true;
            let mut i: usize = 0;
            while i < snakes.len()
                invariant
                    i <= snakes.len(),
                    all_falling == spec_all_falling(snakes@.take(i as int)),
                decreases snakes.len() - i,
            {
                if snakes[i].active && !snakes[i].falling {
                    all_falling = false;
                    assert(snakes@.take(i + 1)[i as int] == snakes@[i as int]);
                } else {
                    assert forall|k: int| 0 <= k < i + 1 implies !((#[trigger] snakes@.take(i + 1)[k]).active && !snakes@.take(i + 1)[k].falling) || !all_falling by {
                        if k < i {
                            assert(snakes@.take(i + 1)[k] == snakes@.take(i as int)[k]);
                        }
                    }
                }
                if !all_falling {
                    assert(!spec_all_falling(snakes@.take(i + 1))) by {
                        if spec_all_falling(snakes@.take(i + 1)) {
                            assert forall|k: int| 0 <= k < i implies !((#[trigger] snakes@.take(i as int)[k]).active && !snakes@.take(i as int)[k].falling) by {
                                assert(snakes@.take(i as int)[k] == snakes@.take(i + 1)[k]);
                            }
                        }
                    }
                }
                i += 1;
            }
            assert(snakes@.take(snakes.len() as int) =~= snakes@);
            play_data.all_falling = all_falling;
        },
        _ => {},
    }
}

} // verus!
