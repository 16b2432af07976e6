//! The diff stage: it compares each snapshot with the one before it and marks
//! the cells whose geometry has to be rebuilt.

use crate::dirty_set::{chebyshev, in_bounds, neighbourhood, Coord, DirtySet};
use crate::partial_world::{copy_grid, grid_view, is_square, PartialWorld, PipelineError};
use crate::tile::{same_cell, Tile};
use vstd::prelude::*;

verus! {

/// Whether the cell `c` of the grid `next` holds another value than it held
/// in `prev`. A cell that was undiscovered and is now discovered differs.
pub open spec fn differs(
    prev: Seq<Seq<Option<Tile>>>,
    next: Seq<Seq<Option<Tile>>>,
    c: (int, int),
) -> bool {
    in_bounds(c, next.len() as int) && prev[c.0][c.1] != next[c.0][c.1]
}

/// The cells of `next` to rebuild after `prev`: those within Chebyshev
/// distance 1 of a cell that differs.
pub open spec fn changed_region(
    prev: Seq<Seq<Option<Tile>>>,
    next: Seq<Seq<Option<Tile>>>,
) -> Set<(int, int)> {
    Set::new(
        |p: (int, int)|
            in_bounds(p, next.len() as int) && exists|c: (int, int)|
                #[trigger] differs(prev, next, c) && chebyshev(p, c) <= 1,
    )
}

/// The discovered cells of `grid`.
pub open spec fn discovered(grid: Seq<Seq<Option<Tile>>>) -> Set<(int, int)> {
    Set::new(|p: (int, int)| in_bounds(p, grid.len() as int) && grid[p.0][p.1] is Some)
}

/// The cells to build for the first snapshot: every discovered cell, and the
/// cells within Chebyshev distance 1 of the agent, discovered or not.
pub open spec fn first_region(grid: Seq<Seq<Option<Tile>>>, robot: (int, int)) -> Set<(int, int)> {
    discovered(grid).union(neighbourhood(robot, grid.len() as int))
}

/// The dirty cells of a snapshot with the grid `grid` and the agent at
/// `robot`, when `retained` is the grid of the snapshot before it, if any.
pub open spec fn dirty_cells(
    retained: Option<Seq<Seq<Option<Tile>>>>,
    grid: Seq<Seq<Option<Tile>>>,
    robot: (int, int),
) -> Set<(int, int)> {
    match retained {
        None => first_region(grid, robot),
        Some(prev) => changed_region(prev, grid),
    }
}

/// No change is missed: a cell that differs is among the cells to rebuild, and
/// so is every cell of the grid within Chebyshev distance 1 of it.
pub proof fn lemma_no_change_is_missed(
    prev: Seq<Seq<Option<Tile>>>,
    next: Seq<Seq<Option<Tile>>>,
    c: (int, int),
    p: (int, int),
)
    requires
        differs(prev, next, c),
        in_bounds(p, next.len() as int),
        chebyshev(p, c) <= 1,
    ensures
        changed_region(prev, next).contains(c),
        changed_region(prev, next).contains(p),
{
}

/// Nothing is rebuilt for nothing: a cell is left out if no cell within
/// Chebyshev distance 1 of it, itself included, differs.
pub proof fn lemma_unchanged_surroundings_stay_clean(
    prev: Seq<Seq<Option<Tile>>>,
    next: Seq<Seq<Option<Tile>>>,
    p: (int, int),
)
    requires
        forall|c: (int, int)| chebyshev(p, c) <= 1 ==> !#[trigger] differs(prev, next, c),
    ensures
        !changed_region(prev, next).contains(p),
{
}

/// Two equal grids leave nothing to rebuild.
pub proof fn lemma_equal_grids_leave_nothing(grid: Seq<Seq<Option<Tile>>>)
    ensures
        changed_region(grid, grid) == Set::<(int, int)>::empty(),
{
}

/// The first snapshot always has something to build: the cell of the agent
/// and the cells of the grid around it, even where nothing is discovered.
pub proof fn lemma_first_region_covers_agent(grid: Seq<Seq<Option<Tile>>>, robot: (int, int))
    requires
        in_bounds(robot, grid.len() as int),
    ensures
        first_region(grid, robot).contains(robot),
        neighbourhood(robot, grid.len() as int).subset_of(first_region(grid, robot)),
        first_region(grid, robot) != Set::<(int, int)>::empty(),
{
}

/// Whether the scan, which goes row by row, reaches `c` before `(x, y)`.
spec fn before(c: (int, int), x: int, y: int) -> bool {
    c.0 < x || (c.0 == x && c.1 < y)
}

/// The part of `changed_region` that is due to cells scanned before `(x, y)`.
spec fn scanned_region(
    prev: Seq<Seq<Option<Tile>>>,
    next: Seq<Seq<Option<Tile>>>,
    x: int,
    y: int,
) -> Set<(int, int)> {
    Set::new(
        |p: (int, int)|
            in_bounds(p, next.len() as int) && exists|c: (int, int)|
                #[trigger] differs(prev, next, c) && before(c, x, y) && chebyshev(p, c) <= 1,
    )
}

/// A scanned cell adds its neighbourhood if it differs, and nothing if not.
proof fn lemma_scan_step(
    prev: Seq<Seq<Option<Tile>>>,
    next: Seq<Seq<Option<Tile>>>,
    x: int,
    y: int,
)
    requires
        in_bounds((x, y), next.len() as int),
    ensures
        differs(prev, next, (x, y)) ==> scanned_region(prev, next, x, y + 1) == scanned_region(
            prev,
            next,
            x,
            y,
        ).union(neighbourhood((x, y), next.len() as int)),
        !differs(prev, next, (x, y)) ==> scanned_region(prev, next, x, y + 1) == scanned_region(
            prev,
            next,
            x,
            y,
        ),
{
}

/// Brings `prev` up to `next` and returns the cells to rebuild: those within
/// Chebyshev distance 1 of a cell whose value differed.
pub fn diff_grids(prev: &mut Vec<Vec<Option<Tile>>>, next: &Vec<Vec<Option<Tile>>>) -> (dirty:
    DirtySet)
    requires
        is_square(grid_view(old(prev))),
        is_square(grid_view(next)),
        old(prev)@.len() == next@.len(),
    ensures
        dirty@ == changed_region(grid_view(old(prev)), grid_view(next)),
        grid_view(final(prev)) == grid_view(next),
{
    let ghost before_scan = grid_view(prev);
    let ghost target = grid_view(next);
    let n = next.len();
    let mut dirty = DirtySet::new();
    let mut x: usize = 0;
    while x < n
        invariant
            x <= n,
            n == next@.len(),
            target == grid_view(next),
            is_square(target),
            is_square(before_scan),
            before_scan.len() == n,
            prev@.len() == n,
            is_square(grid_view(prev)),
            forall|i: int, j: int|
                0 <= i < n && 0 <= j < n ==> #[trigger] prev@[i]@[j] == if i < x {
                    target[i][j]
                } else {
                    before_scan[i][j]
                },
            dirty@ == scanned_region(before_scan, target, x as int, 0),
        decreases n - x,
    {
        let mut y: usize = 0;
        while y < n
            invariant
                x < n,
                y <= n,
                n == next@.len(),
                target == grid_view(next),
                is_square(target),
                is_square(before_scan),
                before_scan.len() == n,
                prev@.len() == n,
                is_square(grid_view(prev)),
                forall|i: int, j: int|
                    0 <= i < n && 0 <= j < n ==> #[trigger] prev@[i]@[j] == if before(
                        (i, j),
                        x as int,
                        y as int,
                    ) {
                        target[i][j]
                    } else {
                        before_scan[i][j]
                    },
                dirty@ == scanned_region(before_scan, target, x as int, y as int),
            decreases n - y,
        {
            proof {
                lemma_scan_step(before_scan, target, x as int, y as int);
                assert(grid_view(prev)[x as int].len() == n);
            }
            if !same_cell(&prev[x][y], &next[x][y]) {
                let ghost grid_before = grid_view(prev);
                prev[x][y] = next[x][y];
                dirty.insert_neighbourhood(x as u64, y as u64, n as u64);
                proof {
                    assert forall|i: int| 0 <= i < n implies (#[trigger] grid_view(prev)[i]).len()
                        == n by {
                        assert(grid_before[i].len() == n);
                    }
                }
            }
            y = y + 1;
        }
        x = x + 1;
    }
    assert forall|i: int| 0 <= i < n implies #[trigger] grid_view(prev)[i] == target[i] by {}
    dirty
}

/// The discovered cells that the scan reaches before `(x, y)`.
spec fn discovered_before(grid: Seq<Seq<Option<Tile>>>, x: int, y: int) -> Set<(int, int)> {
    Set::new(
        |p: (int, int)|
            in_bounds(p, grid.len() as int) && grid[p.0][p.1] is Some && before(p, x, y),
    )
}

/// The cells to build for a first snapshot: every discovered cell of `world`,
/// and the cells within Chebyshev distance 1 of `robot`.
pub fn first_dirty(world: &Vec<Vec<Option<Tile>>>, robot: Coord) -> (dirty: DirtySet)
    requires
        is_square(grid_view(world)),
    ensures
        dirty@ == first_region(grid_view(world), robot@),
{
    let ghost grid = grid_view(world);
    let n = world.len();
    let mut dirty = DirtySet::new();
    let mut x: usize = 0;
    while x < n
        invariant
            x <= n,
            n == world@.len(),
            grid == grid_view(world),
            is_square(grid),
            dirty@ == discovered_before(grid, x as int, 0),
        decreases n - x,
    {
        let mut y: usize = 0;
        while y < n
            invariant
                x < n,
                y <= n,
                n == world@.len(),
                grid == grid_view(world),
                is_square(grid),
                dirty@ == discovered_before(grid, x as int, y as int),
            decreases n - y,
        {
            assert(grid[x as int].len() == n);
            if world[x][y].is_some() {
                dirty.insert(x as u64, y as u64);
            }
            y = y + 1;
        }
        x = x + 1;
    }
    dirty.insert_neighbourhood(robot.x, robot.y, n as u64);
    dirty
}

/// The state of the diff stage: the grid of the snapshot that it saw last.
pub struct WorkerThread {
    world_copy: Option<Vec<Vec<Option<Tile>>>>,
}

impl WorkerThread {
    /// The grid of the snapshot seen last, if any was seen.
    pub closed spec fn retained(&self) -> Option<Seq<Seq<Option<Tile>>>> {
        match self.world_copy {
            Some(grid) => Some(grid_view(&grid)),
            None => None,
        }
    }

    /// The retained grid, if there is one, is square.
    pub closed spec fn wf(&self) -> bool {
        match self.world_copy {
            Some(grid) => is_square(grid_view(&grid)),
            None => true,
        }
    }

    /// Why the stage refuses `snapshot`, if it does: the snapshot is not fit
    /// for the pipeline, or its grid has another size than the retained one.
    pub open spec fn refusal(&self, snapshot: &PartialWorld) -> Option<PipelineError> {
        if !is_square(snapshot.grid()) {
            Some(PipelineError::GridNotSquare)
        } else if !in_bounds(snapshot.robot_position@, snapshot.size()) {
            Some(PipelineError::RobotOutOfBounds)
        } else if self.retained() matches Some(prev) && prev.len() != snapshot.size() {
            Some(PipelineError::GridSizeChanged)
        } else {
            None
        }
    }

    /// A stage that has seen no snapshot yet.
    pub fn new() -> (worker: WorkerThread)
        ensures
            worker.wf(),
            worker.retained() is None,
    {
        WorkerThread { world_copy: None }
    }

    /// Takes the next snapshot and hands it on with its dirty cells: for the
    /// first snapshot every discovered cell and the surroundings of the agent,
    /// afterwards the cells within Chebyshev distance 1 of a cell that differs
    /// from the snapshot before. The snapshot's grid is retained for the next
    /// call. A refused snapshot leaves the stage as it was.
    pub fn process(&mut self, new_world: PartialWorld) -> (result: Result<
        PartialWorld,
        PipelineError,
    >)
        requires
            old(self).wf(),
        ensures
            final(self).wf(),
            match result {
                Ok(annotated) => {
                    &&& old(self).refusal(&new_world) is None
                    &&& annotated.same_state(&new_world)
                    &&& annotated.tiles_to_refresh@ == dirty_cells(
                        old(self).retained(),
                        new_world.grid(),
                        new_world.robot_position@,
                    )
                    &&& final(self).retained() == Some(new_world.grid())
                },
                Err(error) => {
                    &&& old(self).refusal(&new_world) == Some(error)
                    &&& final(self).retained() == old(self).retained()
                },
            },
    {
        match new_world.validate() {
            Err(error) => {
                return Err(error);
            },
            Ok(()) => {},
        }
        let n = new_world.world.len();
        let retained = self.world_copy.take();
        match retained {
            None => {
                let dirty = first_dirty(&new_world.world, new_world.robot_position);
                self.world_copy = Some(copy_grid(&new_world.world));
                Ok(
                    PartialWorld {
                        world: new_world.world,
                        tiles_to_refresh: dirty,
                        robot_position: new_world.robot_position,
                        energy: new_world.energy,
                        backpack: new_world.backpack,
                        env_cond: new_world.env_cond,
                    },
                )
            },
            Some(mut prev) => {
                if prev.len() != n {
                    self.world_copy = Some(prev);
                    return Err(PipelineError::GridSizeChanged);
                }
                let dirty = diff_grids(&mut prev, &new_world.world);
                self.world_copy = Some(prev);
                Ok(
                    PartialWorld {
                        world: new_world.world,
                        tiles_to_refresh: dirty,
                        robot_position: new_world.robot_position,
                        energy: new_world.energy,
                        backpack: new_world.backpack,
                        env_cond: new_world.env_cond,
                    },
                )
            },
        }
    }
}

} // verus!
