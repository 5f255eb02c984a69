//! Where the next snack goes.
//!
//! A snack may lie on any cell that is floor and that no snake occupies. One
//! of these cells is drawn at random; while there is none, the snack goes to
//! the top-left cell.

use vstd::prelude::*;
use crate::coordinate::{origin, StageCoordinate};
use crate::mask::{grid_get, StageWalkableMask};
use crate::stage::{Stage, StageView};

verus! {

/// Whether a snack may lie on `c`: the cell is on the stage, walkable in the
/// static mask of the stage and walkable in the dynamic mask.
pub open spec fn is_snack_candidate(stage: StageView, dynamic: Seq<Seq<bool>>, c: StageCoordinate) -> bool {
    &&& 0 <= c.x < stage.width
    &&& 0 <= c.y < stage.height
    &&& grid_get(dynamic, c)
    &&& grid_get(stage.walkable, c)
}

/// Whether there is a cell for a snack.
pub open spec fn has_snack_candidate(stage: StageView, dynamic: Seq<Seq<bool>>) -> bool {
    exists|c: StageCoordinate| is_snack_candidate(stage, dynamic, c)
}

/// Whether `c` may be chosen for the next snack: it is one of the cells for a
/// snack, or the top-left cell while there is none.
pub open spec fn is_snack_choice(stage: StageView, dynamic: Seq<Seq<bool>>, c: StageCoordinate) -> bool {
    if has_snack_candidate(stage, dynamic) {
        is_snack_candidate(stage, dynamic, c)
    } else {
        c == origin()
    }
}

/// Whether `a` comes before `b` when the cells are read row by row.
pub open spec fn reads_before(a: StageCoordinate, b: StageCoordinate) -> bool {
    a.y < b.y || (a.y == b.y && a.x < b.x)
}

/// Whether `list` holds the cells for a snack, each once, as they are read
/// row by row.
pub open spec fn is_candidate_list(stage: StageView, dynamic: Seq<Seq<bool>>, list: Seq<StageCoordinate>) -> bool {
    &&& forall|i: int| 0 <= i < list.len() ==> is_snack_candidate(stage, dynamic, #[trigger] list[i])
    &&& forall|c: StageCoordinate| is_snack_candidate(stage, dynamic, c) ==> list.contains(c)
    &&& forall|i: int, j: int| 0 <= i < j < list.len() ==> reads_before(#[trigger] list[i], #[trigger] list[j])
}

/// The choice among `candidates` that the draw `index` makes: the candidate
/// at that place, or the top-left cell where the list is empty.
pub open spec fn spec_choose_snack(candidates: Seq<StageCoordinate>, index: int) -> StageCoordinate {
    if candidates.len() == 0 {
        origin()
    } else {
        candidates[index]
    }
}

/// Draws a number below `len` with `rand::Rng::random_range` on the
/// generator that `rand::rng` hands out. The contract claims that the number
/// lies in the range, and nothing about which number it is. An empty range,
/// on which `random_range` panics, is left out.
#[verifier::external_body]
fn random_index(len: usize) -> (index: usize)
    requires
        len > 0,
    ensures
        index < len,
{
    rand::Rng::random_range(&mut rand::rng(), 0..len)
}

/// Makes the choice that the draw `index` stands for.
pub fn choose_snack(candidates: &Vec<StageCoordinate>, index: usize) -> (c: StageCoordinate)
    requires
        candidates.len() == 0 || index < candidates.len(),
    ensures
        c == spec_choose_snack(candidates@, index as int),
{
    if candidates.len() == 0 {
        StageCoordinate::new(0, 0)
    } else {
        candidates[index]
    }
}

impl Stage {
    /// Lists the cells on which a snack may lie, row by row.
    pub fn snack_candidates(&self, dynamic: &StageWalkableMask) -> (candidates: Vec<StageCoordinate>)
        requires
            self@.wf(),
        ensures
            is_candidate_list(self@, dynamic@, candidates@),
    {
        let mut candidates: Vec<StageCoordinate> = Vec::new();
        let mut y: usize = 0;
        while y < self.height
            invariant
                self@.wf(),
                y <= self.height,
                forall|i: int| 0 <= i < candidates.len() ==> is_snack_candidate(self@, dynamic@, #[trigger] candidates@[i])
                    && candidates@[i].y < y,
                forall|c: StageCoordinate| is_snack_candidate(self@, dynamic@, c) && c.y < y ==> candidates@.contains(c),
                forall|i: int, j: int| 0 <= i < j < candidates.len() ==> reads_before(#[trigger] candidates@[i], #[trigger] candidates@[j]),
            decreases self.height - y,
        {
            let mut x: usize = 0;
            while x < self.width
                invariant
                    self@.wf(),
                    y < self.height,
                    x <= self.width,
                    forall|i: int| 0 <= i < candidates.len() ==> is_snack_candidate(self@, dynamic@, #[trigger] candidates@[i])
                        && (candidates@[i].y < y || (candidates@[i].y == y && candidates@[i].x < x)),
                    forall|c: StageCoordinate| is_snack_candidate(self@, dynamic@, c) && (c.y < y || (c.y == y && c.x < x)) ==> candidates@.contains(c),
                    forall|i: int, j: int| 0 <= i < j < candidates.len() ==> reads_before(#[trigger] candidates@[i], #[trigger] candidates@[j]),
                decreases self.width - x,
            {
                let coordinate = StageCoordinate::new(x as i32, y as i32);
                let ghost before = candidates@;
                if dynamic.get(&coordinate) && self.walkable.get(&coordinate) {
                    candidates.push(coordinate);
                    assert(candidates@[before.len() as int] == coordinate);
                }
                assert forall|c: StageCoordinate| is_snack_candidate(self@, dynamic@, c) && (c.y < y || (c.y == y && c.x < x + 1)) implies candidates@.contains(c) by {
                    if c == coordinate {
                        assert(candidates@[before.len() as int] == c);
                    } else {
                        assert(before.contains(c));
                        let i = choose|i: int| 0 <= i < before.len() && before[i] == c;
                        assert(candidates@[i] == c);
                    }
                }
                x += 1;
            }
            y += 1;
        }
        candidates
    }

    /// Chooses the cell of the next snack at random among the cells that are
    /// floor and that the dynamic mask shows as free. While there is no such
    /// cell, the snack goes to the top-left cell.
    pub fn get_next_snack_coordinate(&self, dynamic: &StageWalkableMask) -> (c: StageCoordinate)
        requires
            self@.wf(),
        ensures
            is_snack_choice(self@, dynamic@, c),
            has_snack_candidate(self@, dynamic@) ==> grid_get(self@.walkable, c) && grid_get(dynamic@, c),
    {
        let candidates = self.snack_candidates(dynamic);
        if candidates.len() > 0 {
            let index = random_index(candidates.len());
            let c = choose_snack(&candidates, index);
            assert(is_snack_candidate(self@, dynamic@, candidates@[index as int]));
            c
        } else {
            assert forall|k: StageCoordinate| !is_snack_candidate(self@, dynamic@, k) by {
                if is_snack_candidate(self@, dynamic@, k) {
                    assert(candidates@.contains(k));
                }
            }
            choose_snack(&candidates, 0)
        }
    }
}

} // verus!
