//! The stage: its layout, the reveal of its tiles, and the static mask.
//!
//! A layout is a rectangle of symbols. `A`, `B` and `C` are floor tiles of
//! three looks; `1`, `2` and `3` are floor tiles on which the snake of that id
//! starts; `*` is a floor tile on which the first snack lies; every other
//! symbol is void. The reveal walks the layout row by row and cell by cell,
//! ever faster, places the tiles and marks the void cells in the static mask.

use vstd::prelude::*;
use crate::coordinate::{origin, StageCoordinate};
use crate::mask::{grid_filled, grid_is_rect, grid_set, StageWalkableMask};

verus! {

/// The time between the first two tiles of a reveal, in nanoseconds.
pub const DEFAULT_STAGE_SETTING_INTERVAL: u64 = 500_000_000;

/// The reveal speeds up while the interval is above this, in nanoseconds.
pub const STAGE_SETTING_DECAY_FLOOR: u64 = 10_000_000;

/// The interval of a reveal that has stopped speeding up, in nanoseconds.
pub const STAGE_SETTING_FINAL_INTERVAL: u64 = 1_000_000;

/// Each interval is this many hundredths of the one before.
pub const STAGE_SETTING_DECAY_PERCENT: u64 = 86;

/// The time between two decorative snacks after a win, in nanoseconds.
pub const GLITTER_INTERVAL: u64 = 30_000_000;

/// Where a snake starts.
#[derive(Clone, Copy, Debug, PartialEq, Eq, Structural)]
pub struct SnakeSpawnPointData {
    pub snake_id: u32,
    pub spawn_point: StageCoordinate,
}

/// What the stage tells the snakes and the snacks.
#[derive(Clone, Copy, Debug, PartialEq, Eq, Structural)]
pub enum StageEventData {
    Empty,
    SetSnakeSpawnPoint(SnakeSpawnPointData),
    /// A snack appears at the coordinate; an earlier snack is gone.
    SpawnSnack(StageCoordinate),
    ClearSnack,
    /// The snake of this id ate the snack.
    SnackEaten(u32),
    /// The snake of this id left the floor.
    SnakeFalling(u32),
}

#[derive(Clone, Copy, Debug, PartialEq, Eq, Structural)]
pub struct StageEvent {
    pub data: StageEventData,
}

/// The look of a floor tile.
#[derive(Clone, Copy, Debug, PartialEq, Eq, Structural)]
pub enum TileKind {
    A,
    B,
    C,
}

/// What a layout symbol stands for.
#[derive(Clone, Copy, Debug, PartialEq, Eq, Structural)]
pub enum CellClass {
    Floor(TileKind),
    /// Floor on which the snake of this id starts.
    SpawnPoint(u32),
    /// Floor on which the first snack lies.
    Snack,
    Void,
}

pub open spec fn spec_classify(symbol: char) -> CellClass {
    if symbol == 'A' {
        CellClass::Floor(TileKind::A)
    } else if symbol == 'B' {
        CellClass::Floor(TileKind::B)
    } else if symbol == 'C' {
        CellClass::Floor(TileKind::C)
    } else if symbol == '1' {
        CellClass::SpawnPoint(1)
    } else if symbol == '2' {
        CellClass::SpawnPoint(2)
    } else if symbol == '3' {
        CellClass::SpawnPoint(3)
    } else if symbol == '*' {
        CellClass::Snack
    } else {
        CellClass::Void
    }
}

/// Reads a layout symbol.
pub fn classify(symbol: char) -> (class: CellClass)
    ensures
        class == spec_classify(symbol),
{
    match symbol {
        'A' => CellClass::Floor(TileKind::A),
        'B' => CellClass::Floor(TileKind::B),
        'C' => CellClass::Floor(TileKind::C),
        '1' => CellClass::SpawnPoint(1),
        '2' => CellClass::SpawnPoint(2),
        '3' => CellClass::SpawnPoint(3),
        '*' => CellClass::Snack,
        _ => CellClass::Void,
    }
}

/// What the reveal of one cell yields: the tile to place there, if the cell is
/// floor, and the event that the cell gives rise to, `Empty` if none.
#[derive(Clone, Copy, Debug, PartialEq, Eq, Structural)]
pub struct RevealStep {
    pub coordinate: StageCoordinate,
    pub tile: Option<TileKind>,
    pub event: StageEventData,
}

/// The reveal of a cell that holds `symbol`. Spawn points and the snack cell
/// get a tile of the first look.
pub open spec fn spec_reveal_step(symbol: char, coordinate: StageCoordinate) -> RevealStep {
    match spec_classify(symbol) {
        CellClass::Floor(kind) => RevealStep { coordinate, tile: Some(kind), event: StageEventData::Empty },
        CellClass::SpawnPoint(snake_id) => RevealStep {
            coordinate,
            tile: Some(TileKind::A),
            event: StageEventData::SetSnakeSpawnPoint(
                SnakeSpawnPointData { snake_id, spawn_point: coordinate },
            ),
        },
        CellClass::Snack => RevealStep {
            coordinate,
            tile: Some(TileKind::A),
            event: StageEventData::SpawnSnack(coordinate),
        },
        CellClass::Void => RevealStep { coordinate, tile: None, event: StageEventData::Empty },
    }
}

/// The progress of a reveal.
#[derive(Clone, Copy, Debug, PartialEq, Eq, Structural)]
pub struct StageSettingData {
    /// The time to wait before the next tile, in nanoseconds.
    pub interval: u64,
    /// The cell that comes next.
    pub x: usize,
    pub y: usize,
    /// When the last tile was placed, in nanoseconds.
    pub tile_placed_time: u64,
    pub in_progress: bool,
}

pub open spec fn spec_new_setting() -> StageSettingData {
    StageSettingData {
        interval: DEFAULT_STAGE_SETTING_INTERVAL,
        x: 0,
        y: 0,
        tile_placed_time: 0,
        in_progress: false,
    }
}

impl StageSettingData {
    pub fn new() -> (data: Self)
        ensures
            data == spec_new_setting(),
    {
        Self { interval: DEFAULT_STAGE_SETTING_INTERVAL, x: 0, y: 0, tile_placed_time: 0, in_progress: false }
    }
}

/// The interval that follows `interval`.
pub open spec fn spec_next_interval(interval: u64) -> u64 {
    if interval > STAGE_SETTING_DECAY_FLOOR {
        (interval * STAGE_SETTING_DECAY_PERCENT / 100) as u64
    } else {
        STAGE_SETTING_FINAL_INTERVAL
    }
}

/// Computes `spec_next_interval`.
pub fn next_interval(interval: u64) -> (next: u64)
    ensures
        next == spec_next_interval(interval),
{
    if interval > STAGE_SETTING_DECAY_FLOOR {
        let whole: u64 = interval / 100;
        let rest: u64 = interval % 100;
        assert(whole * 86 + rest * 86 / 100 == interval * 86 / 100) by (nonlinear_arith)
            requires
                whole == interval / 100,
                rest == interval % 100,
        ;
        assert(whole * 86 <= interval) by (nonlinear_arith)
            requires
                whole == interval / 100,
        ;
        whole * STAGE_SETTING_DECAY_PERCENT + rest * STAGE_SETTING_DECAY_PERCENT / 100
    } else {
        STAGE_SETTING_FINAL_INTERVAL
    }
}

/// Why a layout cannot be played.
#[derive(Clone, Copy, Debug, PartialEq, Eq, Structural)]
pub enum LayoutError {
    /// There is no layout for the stage.
    Missing,
    /// The layout has no row, or its first row has no cell.
    Empty,
    /// The rows differ in length.
    Ragged,
    /// The layout has more rows or columns than a coordinate can count.
    TooLarge,
}

/// The fault of a layout, if it has one. An empty layout is reported before
/// rows of different lengths, and those before a layout that is too large.
pub open spec fn spec_layout_fault(layout: Seq<Seq<char>>) -> Option<LayoutError> {
    if layout.len() == 0 || layout[0].len() == 0 {
        Some(LayoutError::Empty)
    } else if exists|y: int| 0 <= y < layout.len() && (#[trigger] layout[y]).len() != layout[0].len() {
        Some(LayoutError::Ragged)
    } else if layout.len() > i32::MAX || layout[0].len() > i32::MAX {
        Some(LayoutError::TooLarge)
    } else {
        None
    }
}

/// A layout as a grid of symbols.
pub open spec fn layout_view(layout: Seq<Vec<char>>) -> Seq<Seq<char>> {
    Seq::new(layout.len(), |y: int| layout[y]@)
}

/// The symbol of the layout at column `x` of row `y`; outside the layout
/// there is void.
pub open spec fn spec_symbol_at(layout: Seq<Seq<char>>, x: int, y: int) -> char {
    if 0 <= y < layout.len() && 0 <= x < layout[y].len() {
        layout[y][x]
    } else {
        '_'
    }
}

/// Checks a layout, as `spec_layout_fault` says.
pub fn check_layout(layout: &Vec<Vec<char>>) -> (result: Result<(), LayoutError>)
    ensures
        result == match spec_layout_fault(layout_view(layout@)) {
            Some(fault) => Err::<(), LayoutError>(fault),
            None => Ok(()),
        },
{
    let ghost grid = layout_view(layout@);
    if layout.len() == 0 {
        return Err(LayoutError::Empty);
    }
    let width: usize = layout[0].len();
    assert(grid[0] == layout@[0]@);
    if width == 0 {
        return Err(LayoutError::Empty);
    }
    let mut y: usize = 1;
    while y < layout.len()
        invariant
            1 <= y <= layout.len(),
            grid == layout_view(layout@),
            width == grid[0].len(),
            width > 0,
            forall|k: int| 0 <= k < y ==> (#[trigger] grid[k]).len() == width,
        decreases layout.len() - y,
    {
        if layout[y].len() != width {
            assert(grid[y as int].len() != grid[0].len());
            return Err(LayoutError::Ragged);
        }
        y += 1;
    }
    if layout.len() > 0x7fff_ffff || width > 0x7fff_ffff {
        return Err(LayoutError::TooLarge);
    }
    Ok(())
}

/// The stage that is played.
#[derive(Debug)]
pub struct Stage {
    pub id: u32,
    pub layout: Vec<Vec<char>>,
    pub width: usize,
    pub height: usize,
    pub stage_setting_data: StageSettingData,
    /// The static mask: a cell is walkable if it is floor.
    pub walkable: StageWalkableMask,
    pub snack_coordinate: StageCoordinate,
    /// When the snack was placed, in nanoseconds.
    pub snack_spawntime: u64,
}

/// A stage as a value.
pub struct StageView {
    pub id: u32,
    pub layout: Seq<Seq<char>>,
    pub width: usize,
    pub height: usize,
    pub setting: StageSettingData,
    pub walkable: Seq<Seq<bool>>,
    pub snack_coordinate: StageCoordinate,
    pub snack_spawntime: u64,
}

impl View for Stage {
    type V = StageView;

    open spec fn view(&self) -> StageView {
        StageView {
            id: self.id,
            layout: layout_view(self.layout@),
            width: self.width,
            height: self.height,
            setting: self.stage_setting_data,
            walkable: self.walkable@,
            snack_coordinate: self.snack_coordinate,
            snack_spawntime: self.snack_spawntime,
        }
    }
}

impl StageView {
    /// The stage is consistent: the layout is a rectangle of the stage's
    /// size, the mask has that size too, a coordinate can count the rows and
    /// the columns, and a reveal in progress stands on a cell of the layout.
    pub open spec fn wf(self) -> bool {
        &&& self.layout.len() == self.height
        &&& forall|y: int| 0 <= y < self.height ==> (#[trigger] self.layout[y]).len() == self.width
        &&& grid_is_rect(self.walkable, self.width as nat, self.height as nat)
        &&& self.width <= i32::MAX
        &&& self.height <= i32::MAX
        &&& self.setting.in_progress ==> self.setting.x < self.width && self.setting.y < self.height
    }

    /// The cell that the reveal comes to next.
    pub open spec fn cursor(self) -> StageCoordinate {
        StageCoordinate { x: self.setting.x as i32, y: self.setting.y as i32 }
    }

    /// The number of cells that the reveal has yet to come to.
    pub open spec fn tiles_left(self) -> int {
        if self.setting.in_progress {
            self.width * self.height - (self.setting.y * self.width + self.setting.x)
        } else {
            0
        }
    }

    /// Whether a tile is due at `time`: a reveal is in progress, and the
    /// interval since the last tile has passed or the reveal is
    /// fast-forwarded.
    pub open spec fn reveal_due(self, time: u64, fast_forward: bool) -> bool {
        self.setting.in_progress && (fast_forward || time >= self.setting.tile_placed_time
            + self.setting.interval)
    }

    /// What the reveal of the next cell yields.
    pub open spec fn next_step(self) -> RevealStep {
        spec_reveal_step(
            spec_symbol_at(self.layout, self.setting.x as int, self.setting.y as int),
            self.cursor(),
        )
    }

    /// The stage after the reveal of the next cell at `time`: a void cell is
    /// marked in the static mask, the snack cell is noted, the cursor moves on
    /// along the row, then to the next row, and the reveal ends after the last
    /// cell of the last row.
    pub open spec fn revealed(self, time: u64) -> StageView {
        let step = self.next_step();
        let setting = self.setting;
        StageView {
            walkable: if step.tile is None {
                grid_set(self.walkable, self.cursor(), false)
            } else {
                self.walkable
            },
            snack_coordinate: if step.event is SpawnSnack {
                self.cursor()
            } else {
                self.snack_coordinate
            },
            setting: StageSettingData {
                interval: spec_next_interval(setting.interval),
                tile_placed_time: time,
                x: if setting.x + 1 < self.width {
                    (setting.x + 1) as usize
                } else if setting.y + 1 < self.height {
                    0
                } else {
                    setting.x
                },
                y: if setting.x + 1 < self.width {
                    setting.y
                } else if setting.y + 1 < self.height {
                    (setting.y + 1) as usize
                } else {
                    setting.y
                },
                in_progress: setting.x + 1 < self.width || setting.y + 1 < self.height,
            },
            ..self
        }
    }

    /// The stage once the layout of the stage `stage_id` is loaded: the mask
    /// is all floor and the reveal begins at the top-left cell.
    pub open spec fn loaded(self, stage_id: u32, layout: Seq<Seq<char>>) -> StageView {
        StageView {
            id: stage_id,
            layout,
            width: layout[0].len() as usize,
            height: layout.len() as usize,
            setting: StageSettingData { in_progress: true, ..spec_new_setting() },
            walkable: grid_filled(layout[0].len(), layout.len()),
            ..self
        }
    }
}

/// The stage before any layout is loaded.
pub open spec fn spec_new_stage() -> StageView {
    StageView {
        id: 0,
        layout: Seq::empty(),
        width: 0,
        height: 0,
        setting: spec_new_setting(),
        walkable: Seq::empty(),
        snack_coordinate: origin(),
        snack_spawntime: 0,
    }
}

impl Stage {
    pub fn new() -> (stage: Self)
        ensures
            stage@ == spec_new_stage(),
            stage@.wf(),
    {
        let stage = Self {
            id: 0,
            layout: Vec::new(),
            stage_setting_data: StageSettingData::new(),
            width: 0,
            height: 0,
            walkable: StageWalkableMask::new(0, 0),
            snack_coordinate: StageCoordinate::new(0, 0),
            snack_spawntime: 0,
        };
        assert(stage@.layout =~= spec_new_stage().layout);
        assert(stage@.walkable =~= spec_new_stage().walkable);
        stage
    }

    /// Tells whether the stage is consistent, as `StageView::wf` says. The
    /// functions of this crate keep a stage consistent; the check is for a
    /// stage whose fields were set by hand.
    pub fn is_consistent(&self) -> (consistent: bool)
        ensures
            consistent == self@.wf(),
    {
        if self.layout.len() != self.height || self.walkable.rows.len() != self.height {
            return false;
        }
        if self.width > 0x7fff_ffff || self.height > 0x7fff_ffff {
            return false;
        }
        if self.stage_setting_data.in_progress && (self.stage_setting_data.x >= self.width
            || self.stage_setting_data.y >= self.height) {
            return false;
        }
        let mut y: usize = 0;
        while y < self.height
            invariant
                y <= self.height,
                self.layout.len() == self.height,
                self.walkable.rows.len() == self.height,
                forall|k: int| 0 <= k < y ==> (#[trigger] self@.layout[k]).len() == self.width,
                forall|k: int| 0 <= k < y ==> (#[trigger] self@.walkable[k]).len() == self.width,
            decreases self.height - y,
        {
            assert(self@.layout[y as int] == self.layout@[y as int]@);
            assert(self@.walkable[y as int] == self.walkable.rows@[y as int].tiles@);
            if self.layout[y].len() != self.width || self.walkable.rows[y].tiles.len() != self.width {
                return false;
            }
            y += 1;
        }
        true
    }

    /// Takes the layout of the stage `stage_id` and begins its reveal. A
    /// layout with a fault is refused and leaves the stage as it was.
    pub fn load_layout(&mut self, stage_id: u32, layout: Vec<Vec<char>>) -> (result: Result<(), LayoutError>)
        ensures
            match spec_layout_fault(layout_view(layout@)) {
                Some(fault) => result == Err::<(), LayoutError>(fault) && final(self)@ == old(self)@,
                None => result == Ok::<(), LayoutError>(()) && final(self)@ == old(self)@.loaded(
                    stage_id,
                    layout_view(layout@),
                ) && final(self)@.wf(),
            },
    {
        match check_layout(&layout) {
            Err(fault) => Err(fault),
            Ok(()) => {
                assert(layout_view(layout@)[0] == layout@[0]@);
                self.id = stage_id;
                self.layout = layout;
                self.calculate_height_and_width_from_layout();
                self.walkable.init(self.width, self.height);
                self.stage_setting_data = StageSettingData::new();
                self.stage_setting_data.in_progress = true;
                Ok(())
            },
        }
    }

    /// Takes the stage's size from its layout: the number of rows and the
    /// length of the first row, or nothing by nothing for no layout.
    pub fn calculate_height_and_width_from_layout(&mut self)
        ensures
            final(self)@ == (StageView {
                height: old(self)@.layout.len() as usize,
                width: if old(self)@.layout.len() == 0 {
                    0
                } else {
                    old(self)@.layout[0].len() as usize
                },
                ..old(self)@
            }),
    {
        if self.layout.len() == 0 {
            self.height = 0;
            self.width = 0;
            return;
        }
        assert(self@.layout[0] == self.layout@[0]@);
        self.height = self.layout.len();
        self.width = self.layout[0].len();
    }

    /// The number of cells that the reveal has yet to come to.
    pub fn get_tiles_left(&self) -> (left: u64)
        requires
            self@.wf(),
        ensures
            left == self@.tiles_left(),
    {
        if !self.stage_setting_data.in_progress {
            return 0;
        }
        let width: u64 = self.width as u64;
        let height: u64 = self.height as u64;
        let x: u64 = self.stage_setting_data.x as u64;
        let y: u64 = self.stage_setting_data.y as u64;
        assert(width * height <= 0x7fff_ffff * 0x7fff_ffff && y * width + x < width * height)
            by (nonlinear_arith)
            requires
                x < width <= 0x7fff_ffff,
                y < height <= 0x7fff_ffff,
        ;
        width * height - (y * width + x)
    }

    /// Reveals the next cell of the layout if a tile is due at `time`, and
    /// says what the cell yields. Nothing happens, and nothing is returned,
    /// while no reveal is in progress or the interval has not passed.
    pub fn update_set_stage(&mut self, time: u64, fast_forward: bool) -> (step: Option<RevealStep>)
        requires
            old(self)@.wf(),
        ensures
            final(self)@.wf(),
            old(self)@.reveal_due(time, fast_forward) ==> step == Some(old(self)@.next_step())
                && final(self)@ == old(self)@.revealed(time),
            !old(self)@.reveal_due(time, fast_forward) ==> step is None && final(self)@ == old(self)@,
    {
        if !self.stage_setting_data.in_progress {
            return None;
        }
        if !fast_forward {
            let placed: u64 = self.stage_setting_data.tile_placed_time;
            if time < placed || time - placed < self.stage_setting_data.interval {
                return None;
            }
        }
        let x: usize = self.stage_setting_data.x;
        let y: usize = self.stage_setting_data.y;
        let coordinate = StageCoordinate::new(x as i32, y as i32);
        assert(self@.layout[y as int] == self.layout@[y as int]@);
        let symbol: char = self.layout[y][x];
        let step = match classify(symbol) {
            CellClass::Floor(kind) => RevealStep {
                coordinate,
                tile: Some(kind),
                event: StageEventData::Empty,
            },
            CellClass::SpawnPoint(snake_id) => RevealStep {
                coordinate,
                tile: Some(TileKind::A),
                event: StageEventData::SetSnakeSpawnPoint(
                    SnakeSpawnPointData { snake_id, spawn_point: coordinate },
                ),
            },
            CellClass::Snack => {
                self.snack_coordinate = coordinate;
                RevealStep {
                    coordinate,
                    tile: Some(TileKind::A),
                    event: StageEventData::SpawnSnack(coordinate),
                }
            },
            CellClass::Void => {
                self.walkable.set(&coordinate, false);
                RevealStep { coordinate, tile: None, event: StageEventData::Empty }
            },
        };
        if x + 1 < self.width {
            self.stage_setting_data.x = x + 1;
        } else if y + 1 < self.height {
            self.stage_setting_data.x = 0;
            self.stage_setting_data.y = y + 1;
        } else {
            self.stage_setting_data.in_progress = false;
        }
        self.stage_setting_data.interval = next_interval(self.stage_setting_data.interval);
        self.stage_setting_data.tile_placed_time = time;
        Some(step)
    }
}

} // verus!
