//! Walkable masks: one boolean per cell of a stage.
//!
//! Two masks are in use. The static one tells floor from void and is built
//! while a stage is revealed. The dynamic one tells free cells from cells that
//! a snake occupies and changes with every move.

use vstd::prelude::*;
use crate::coordinate::StageCoordinate;

verus! {

/// Whether `grid` has an entry for `c`.
pub open spec fn grid_contains(grid: Seq<Seq<bool>>, c: StageCoordinate) -> bool {
    0 <= c.y < grid.len() && 0 <= c.x < grid[c.y as int].len()
}

/// The entry of `grid` at `c`; a cell outside the grid is not walkable.
pub open spec fn grid_get(grid: Seq<Seq<bool>>, c: StageCoordinate) -> bool {
    grid_contains(grid, c) && grid[c.y as int][c.x as int]
}

/// `grid` with the entry at `c` replaced by `value`; a write outside the grid
/// changes nothing.
pub open spec fn grid_set(grid: Seq<Seq<bool>>, c: StageCoordinate, value: bool) -> Seq<Seq<bool>> {
    if grid_contains(grid, c) {
        grid.update(c.y as int, grid[c.y as int].update(c.x as int, value))
    } else {
        grid
    }
}

/// The grid of `height` rows of `width` cells in which every cell is walkable.
pub open spec fn grid_filled(width: nat, height: nat) -> Seq<Seq<bool>> {
    Seq::new(height, |y: int| Seq::new(width, |x: int| true))
}

/// Whether `grid` has `height` rows of `width` cells each.
pub open spec fn grid_is_rect(grid: Seq<Seq<bool>>, width: nat, height: nat) -> bool {
    &&& grid.len() == height
    &&& forall|y: int| 0 <= y < height ==> (#[trigger] grid[y]).len() == width
}

/// One row of a mask.
#[derive(Debug)]
pub struct StageWalkableRow {
    pub tiles: Vec<bool>,
}

impl View for StageWalkableRow {
    type V = Seq<bool>;

    open spec fn view(&self) -> Seq<bool> {
        self.tiles@
    }
}

impl Clone for StageWalkableRow {
    fn clone(&self) -> (row: Self)
        ensures
            row@ == self@,
    {
        let tiles = self.tiles.clone();
        assert(tiles@ =~= self.tiles@);
        StageWalkableRow { tiles }
    }
}

/// A grid of booleans, one row per layout line.
#[derive(Debug)]
pub struct StageWalkableMask {
    pub rows: Vec<StageWalkableRow>,
}

impl View for StageWalkableMask {
    type V = Seq<Seq<bool>>;

    open spec fn view(&self) -> Seq<Seq<bool>> {
        Seq::new(self.rows@.len(), |y: int| self.rows@[y]@)
    }
}

impl Clone for StageWalkableMask {
    fn clone(&self) -> (mask: Self)
        ensures
            mask@ == self@,
    {
        let mut rows: Vec<StageWalkableRow> = Vec::new();
        let mut y: usize = 0;
        while y < self.rows.len()
            invariant
                y <= self.rows.len(),
                rows.len() == y,
                forall|k: int| 0 <= k < y ==> (#[trigger] rows@[k])@ == self.rows@[k]@,
            decreases self.rows.len() - y,
        {
            let row = self.rows[y].clone();
            rows.push(row);
            y += 1;
        }
        let mask = StageWalkableMask { rows };
        assert(mask@ =~= self@);
        mask
    }
}

impl StageWalkableMask {
    /// A mask of `height` rows of `width` cells, all walkable.
    pub fn new(width: usize, height: usize) -> (mask: Self)
        ensures
            mask@ == grid_filled(width as nat, height as nat),
    {
        let mut s: StageWalkableMask = StageWalkableMask { rows: Vec::new() };
        s.init(width, height);
        s
    }

    /// Resizes the mask to `height` rows of `width` cells and marks every cell
    /// walkable.
    pub fn init(&mut self, width: usize, height: usize)
        ensures
            final(self)@ == grid_filled(width as nat, height as nat),
    {
        self.rows.clear();
        let mut y: usize = 0;
        while y < height
            invariant
                y <= height,
                self.rows.len() == y,
                forall|k: int| 0 <= k < y ==> (#[trigger] self.rows@[k])@ == Seq::new(width as nat, |x: int| true),
            decreases height - y,
        {
            let tiles: Vec<bool> = vec![true; width];
            assert(tiles@ =~= Seq::new(width as nat, |x: int| true));
            self.rows.push(StageWalkableRow { tiles });
            y += 1;
        }
        assert(self@ =~= grid_filled(width as nat, height as nat));
    }

    /// Whether the mask has an entry for `coordinate`.
    pub fn contains(&self, coordinate: &StageCoordinate) -> (inside: bool)
        ensures
            inside == grid_contains(self@, *coordinate),
    {
        if coordinate.y < 0 || coordinate.x < 0 {
            return false;
        }
        let y: usize = coordinate.y as usize;
        if y >= self.rows.len() {
            return false;
        }
        let x: usize = coordinate.x as usize;
        x < self.rows[y].tiles.len()
    }

    /// Writes `value` at `coordinate`; a coordinate outside the mask is ignored.
    pub fn set(&mut self, coordinate: &StageCoordinate, value: bool)
        ensures
            final(self)@ == grid_set(old(self)@, *coordinate, value),
    {
        if !self.contains(coordinate) {
            return;
        }
        let y: usize = coordinate.y as usize;
        let x: usize = coordinate.x as usize;
        self.rows[y].tiles[x] = value;
        assert(self@ =~= grid_set(old(self)@, *coordinate, value));
    }

    /// Reads the entry at `coordinate`; a coordinate outside the mask is not
    /// walkable.
    pub fn get(&self, coordinate: &StageCoordinate) -> (walkable: bool)
        ensures
            walkable == grid_get(self@, *coordinate),
    {
        if !self.contains(coordinate) {
            return false;
        }
        self.rows[coordinate.y as usize].tiles[coordinate.x as usize]
    }

    /// The mask as text, one line per row: `'1'` for a walkable cell and `'0'`
    /// for any other.
    pub fn print(&self) -> (lines: Vec<Vec<char>>)
        ensures
            lines@.len() == self@.len(),
            forall|y: int| 0 <= y < self@.len() ==> (#[trigger] lines@[y])@ == mask_line(self@[y]),
    {
        let mut lines: Vec<Vec<char>> = Vec::new();
        let mut y: usize = 0;
        while y < self.rows.len()
            invariant
                y <= self.rows.len(),
                lines.len() == y,
                forall|k: int| 0 <= k < y ==> (#[trigger] lines@[k])@ == mask_line(self@[k]),
            decreases self.rows.len() - y,
        {
            let mut line: Vec<char> = Vec::new();
            let mut x: usize = 0;
            while x < self.rows[y].tiles.len()
                invariant
                    y < self.rows.len(),
                    x <= self.rows@[y as int].tiles.len(),
                    line.len() == x,
                    forall|k: int| 0 <= k < x ==> #[trigger] line@[k] == mask_symbol(self.rows@[y as int].tiles@[k]),
                decreases self.rows@[y as int].tiles.len() - x,
            {
                let c: char = if self.rows[y].tiles[x] { '1' } else { '0' };
                line.push(c);
                x += 1;
            }
            assert(line@ =~= mask_line(self@[y as int]));
            lines.push(line);
            y += 1;
        }
        lines
    }
}

/// The symbol that stands for one cell in the text form of a mask.
pub open spec fn mask_symbol(walkable: bool) -> char {
    if walkable { '1' } else { '0' }
}

/// The text form of one row of a mask.
pub open spec fn mask_line(row: Seq<bool>) -> Seq<char> {
    Seq::new(row.len(), |x: int| mask_symbol(row[x]))
}

} // verus!
