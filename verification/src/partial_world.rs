//! The snapshot of the world as the agent knows it, handed from stage to
//! stage of the pipeline.

use crate::dirty_set::{in_bounds, Coord, DirtySet};
use crate::tile::{Content, Tile};
use vstd::prelude::*;

verus! {

/// The part of the day.
#[derive(Clone, Copy, Debug, PartialEq, Eq, Structural)]
pub enum DayTime {
    Morning,
    Afternoon,
    Night,
}

/// The weather.
#[derive(Clone, Copy, Debug, PartialEq, Eq, Structural)]
pub enum WeatherType {
    Sunny,
    Rainy,
    Foggy,
    TropicalMonsoon,
    TrentinoSnow,
}

/// The ambient conditions at the time of a snapshot.
#[derive(Debug)]
pub struct EnvironmentalConditions {
    pub time_of_day: DayTime,
    /// The time of day as a clock shows it.
    pub time_of_day_string: String,
    pub weather: WeatherType,
}

impl Clone for EnvironmentalConditions {
    /// The same conditions.
    fn clone(&self) -> (copy: EnvironmentalConditions)
        ensures
            copy == *self,
    {
        EnvironmentalConditions {
            time_of_day: self.time_of_day,
            time_of_day_string: self.time_of_day_string.clone(),
            weather: self.weather,
        }
    }
}

/// Why a snapshot cannot be worked on. Each of these is a breach of contract
/// by whoever produced the snapshot, and is fatal to the pipeline.
#[derive(Clone, Copy, Debug, PartialEq, Eq, Structural)]
pub enum PipelineError {
    /// Some row of the grid is not as long as the grid has rows.
    GridNotSquare,
    /// The agent stands outside the grid.
    RobotOutOfBounds,
    /// The grid has another size than the grid of the snapshot before it.
    GridSizeChanged,
    /// The cell that the agent stands on is not discovered.
    RobotTileUndiscovered,
}

/// Number of snapshots that may wait between the driver and the diff stage.
/// With one, the driver is held back as soon as the diff stage falls behind,
/// and the diff stage sees every snapshot.
pub const RAW_SNAPSHOT_CAPACITY: usize = 1;

/// A grid as a sequence of rows; an absent cell is undiscovered.
pub open spec fn grid_view(world: &Vec<Vec<Option<Tile>>>) -> Seq<Seq<Option<Tile>>> {
    Seq::new(world@.len(), |x: int| world@[x]@)
}

/// Whether every row of `grid` is as long as `grid` has rows.
pub open spec fn is_square(grid: Seq<Seq<Option<Tile>>>) -> bool {
    forall|x: int| 0 <= x < grid.len() ==> (#[trigger] grid[x]).len() == grid.len()
}

/// The snapshot of what the agent knows: the discovered part of the grid, the
/// agent itself and the ambient conditions, together with the cells whose
/// geometry has to be rebuilt.
#[derive(Debug)]
pub struct PartialWorld {
    /// The grid: `world[x][y]`, absent where undiscovered.
    pub world: Vec<Vec<Option<Tile>>>,
    /// The dirty cells.
    pub tiles_to_refresh: DirtySet,
    pub robot_position: Coord,
    pub energy: usize,
    /// The backpack: each kind of content with the amount carried.
    pub backpack: Vec<(Content, usize)>,
    pub env_cond: EnvironmentalConditions,
}

impl PartialWorld {
    /// The grid of the snapshot.
    pub open spec fn grid(&self) -> Seq<Seq<Option<Tile>>> {
        grid_view(&self.world)
    }

    /// Number of cells per side.
    pub open spec fn size(&self) -> int {
        self.world@.len() as int
    }

    /// What makes a snapshot fit for the pipeline: a square grid with the
    /// agent on it.
    pub open spec fn valid(&self) -> bool {
        is_square(self.grid()) && in_bounds(self.robot_position@, self.size())
    }

    /// Whether `other` shows the same world, whatever its dirty cells are.
    pub open spec fn same_state(&self, other: &PartialWorld) -> bool {
        &&& self.world == other.world
        &&& self.robot_position == other.robot_position
        &&& self.energy == other.energy
        &&& self.backpack == other.backpack
        &&& self.env_cond == other.env_cond
    }

    /// A snapshot as the driver takes it after a tick, with no cell marked
    /// dirty.
    pub fn new(
        world: Vec<Vec<Option<Tile>>>,
        robot_position: Coord,
        energy: usize,
        backpack: Vec<(Content, usize)>,
        env_cond: EnvironmentalConditions,
    ) -> (snapshot: PartialWorld)
        ensures
            snapshot.world == world,
            snapshot.tiles_to_refresh@ == Set::<(int, int)>::empty(),
            snapshot.robot_position == robot_position,
            snapshot.energy == energy,
            snapshot.backpack == backpack,
            snapshot.env_cond == env_cond,
    {
        PartialWorld {
            world,
            tiles_to_refresh: DirtySet::new(),
            robot_position,
            energy,
            backpack,
            env_cond,
        }
    }

    /// Checks that the snapshot is fit for the pipeline.
    pub fn validate(&self) -> (result: Result<(), PipelineError>)
        ensures
            result is Ok <==> self.valid(),
            result == Err::<(), PipelineError>(PipelineError::GridNotSquare) <==> !is_square(
                self.grid(),
            ),
            result == Err::<(), PipelineError>(PipelineError::RobotOutOfBounds) <==> is_square(
                self.grid(),
            ) && !in_bounds(self.robot_position@, self.size()),
    {
        let n = self.world.len();
        let mut x: usize = 0;
        while x < n
            invariant
                n == self.world@.len(),
                x <= n,
                forall|i: int| 0 <= i < x ==> (#[trigger] self.grid()[i]).len() == n,
            decreases n - x,
        {
            if self.world[x].len() != n {
                assert(self.grid()[x as int].len() != n);
                return Err(PipelineError::GridNotSquare);
            }
            x = x + 1;
        }
        if self.robot_position.x >= n as u64 || self.robot_position.y >= n as u64 {
            return Err(PipelineError::RobotOutOfBounds);
        }
        Ok(())
    }

    /// The cell that the agent stands on, or why there is none to give: the
    /// agent stands outside the grid, or on a cell that is not discovered.
    pub open spec fn robot_cell(&self) -> Result<Tile, PipelineError> {
        let x = self.robot_position.x as int;
        let y = self.robot_position.y as int;
        if x >= self.grid().len() || y >= self.grid()[x].len() {
            Err(PipelineError::RobotOutOfBounds)
        } else {
            match self.grid()[x][y] {
                Some(tile) => Ok(tile),
                None => Err(PipelineError::RobotTileUndiscovered),
            }
        }
    }

    /// The cell that the agent stands on.
    pub fn robot_tile(&self) -> (result: Result<Tile, PipelineError>)
        ensures
            result == self.robot_cell(),
    {
        let rows = self.world.len();
        if self.robot_position.x >= rows as u64 {
            return Err(PipelineError::RobotOutOfBounds);
        }
        let x = self.robot_position.x as usize;
        let columns = self.world[x].len();
        if self.robot_position.y >= columns as u64 {
            return Err(PipelineError::RobotOutOfBounds);
        }
        let y = self.robot_position.y as usize;
        match self.world[x][y] {
            Some(tile) => Ok(tile),
            None => Err(PipelineError::RobotTileUndiscovered),
        }
    }

    /// The backpack without the kinds of which nothing is carried, in the
    /// order of the backpack.
    pub fn carried(&self) -> (items: Vec<(Content, usize)>)
        ensures
            items@ == self.backpack@.filter(|entry: (Content, usize)| entry.1 != 0),
    {
        let ghost wanted = |entry: (Content, usize)| entry.1 != 0;
        let mut items: Vec<(Content, usize)> = Vec::new();
        let n = self.backpack.len();
        let mut i: usize = 0;
        while i < n
            invariant
                i <= n,
                n == self.backpack@.len(),
                wanted == |entry: (Content, usize)| entry.1 != 0,
                items@ == self.backpack@.take(i as int).filter(wanted),
            decreases n - i,
        {
            let entry = self.backpack[i];
            proof {
                let upto = self.backpack@.take(i as int);
                assert(self.backpack@.take(i + 1) =~= upto.push(entry));
                upto.lemma_filter_push(entry, wanted);
            }
            if entry.1 != 0 {
                items.push(entry);
            }
            i = i + 1;
        }
        assert(self.backpack@.take(n as int) =~= self.backpack@);
        items
    }
}

impl Clone for PartialWorld {
    /// A snapshot of the same world with the same dirty cells.
    fn clone(&self) -> (copy: PartialWorld)
        ensures
            copy.grid() == self.grid(),
            copy.tiles_to_refresh@ == self.tiles_to_refresh@,
            copy.robot_position == self.robot_position,
            copy.energy == self.energy,
            copy.backpack@ == self.backpack@,
            copy.env_cond == self.env_cond,
    {
        let mut backpack: Vec<(Content, usize)> = Vec::new();
        let n = self.backpack.len();
        let mut i: usize = 0;
        while i < n
            invariant
                i <= n,
                n == self.backpack@.len(),
                backpack@ == self.backpack@.take(i as int),
            decreases n - i,
        {
            backpack.push(self.backpack[i]);
            i = i + 1;
        }
        PartialWorld {
            world: copy_grid(&self.world),
            tiles_to_refresh: self.tiles_to_refresh.clone(),
            robot_position: self.robot_position,
            energy: self.energy,
            backpack,
            env_cond: self.env_cond.clone(),
        }
    }
}

/// A grid with the same cells as `world`.
pub fn copy_grid(world: &Vec<Vec<Option<Tile>>>) -> (copy: Vec<Vec<Option<Tile>>>)
    ensures
        grid_view(&copy) == grid_view(world),
{
    let n = world.len();
    let mut copy: Vec<Vec<Option<Tile>>> = Vec::new();
    let mut x: usize = 0;
    while x < n
        invariant
            x <= n,
            n == world@.len(),
            copy@.len() == x,
            forall|i: int| 0 <= i < x ==> (#[trigger] copy@[i])@ == world@[i]@,
        decreases n - x,
    {
        let len = world[x].len();
        let mut row: Vec<Option<Tile>> = Vec::new();
        let mut y: usize = 0;
        while y < len
            invariant
                x < n,
                n == world@.len(),
                y <= len,
                len == world@[x as int]@.len(),
                row@.len() == y,
                forall|j: int| 0 <= j < y ==> #[trigger] row@[j] == world@[x as int]@[j],
            decreases len - y,
        {
            row.push(world[x][y]);
            y = y + 1;
        }
        copy.push(row);
        x = x + 1;
    }
    copy
}

/// The dirty cells of all the snapshots `snapshots` together.
pub open spec fn merged_dirty(snapshots: Seq<PartialWorld>) -> Set<(int, int)>
    decreases snapshots.len(),
{
    if snapshots.len() == 0 {
        Set::empty()
    } else {
        merged_dirty(snapshots.drop_last()).union(snapshots.last().tiles_to_refresh@)
    }
}

/// A cell is among the merged dirty cells exactly if some snapshot marks it.
pub proof fn lemma_merged_dirty_is_union(snapshots: Seq<PartialWorld>, p: (int, int))
    ensures
        merged_dirty(snapshots).contains(p) <==> exists|i: int|
            0 <= i < snapshots.len() && (#[trigger] snapshots[i]).tiles_to_refresh@.contains(p),
    decreases snapshots.len(),
{
    if snapshots.len() > 0 {
        let earlier = snapshots.drop_last();
        lemma_merged_dirty_is_union(earlier, p);
        if exists|i: int|
            0 <= i < snapshots.len() && (#[trigger] snapshots[i]).tiles_to_refresh@.contains(p) {
            let i = choose|i: int|
                0 <= i < snapshots.len() && (#[trigger] snapshots[i]).tiles_to_refresh@.contains(p);
            if i < snapshots.len() - 1 {
                assert(earlier[i].tiles_to_refresh@.contains(p));
            }
        }
    }
}

/// Coalesces the snapshots drained from a channel, oldest first: the state is
/// that of the most recent one, the dirty cells are those of all of them. No
/// dirty cell is dropped with the snapshot that marked it.
pub fn merge_latest(queued: Vec<PartialWorld>) -> (merged: Option<PartialWorld>)
    ensures
        match merged {
            None => queued@.len() == 0,
            Some(world) => {
                &&& queued@.len() > 0
                &&& world.same_state(&queued@.last())
                &&& world.tiles_to_refresh@ == merged_dirty(queued@)
            },
        },
{
    let mut queued = queued;
    let ghost all = queued@;
    match queued.pop() {
        None => None,
        Some(newest) => {
            let mut newest = newest;
            let mut dirty = DirtySet::new();
            let n = queued.len();
            let mut i: usize = 0;
            while i < n
                invariant
                    i <= n,
                    n == queued@.len(),
                    dirty@ == merged_dirty(queued@.take(i as int)),
                decreases n - i,
            {
                dirty.extend(&queued[i].tiles_to_refresh);
                assert(queued@.take(i + 1).drop_last() =~= queued@.take(i as int));
                i = i + 1;
            }
            assert(queued@.take(n as int) =~= queued@);
            dirty.extend(&newest.tiles_to_refresh);
            newest.tiles_to_refresh = dirty;
            Some(newest)
        },
    }
}

} // verus!
