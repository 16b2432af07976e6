use ragnarok::dirty_set::{Coord, DirtySet};
use ragnarok::partial_world::{
    merge_latest, DayTime, EnvironmentalConditions, PartialWorld, PipelineError, WeatherType,
};
use ragnarok::tile::{Content, Tile, TileType};

fn tile(elevation: usize) -> Option<Tile> {
    Some(Tile { tile_type: TileType::Sand, content: Content::Nothing, elevation })
}

fn world_of(size: usize, x: u64, y: u64, energy: usize, dirty: &[(u64, u64)]) -> PartialWorld {
    let mut tiles_to_refresh = DirtySet::new();
    for (cx, cy) in dirty.iter() {
        tiles_to_refresh.insert(*cx, *cy);
    }
    PartialWorld {
        world: vec![vec![tile(1); size]; size],
        tiles_to_refresh,
        robot_position: Coord { x, y },
        energy,
        backpack: Vec::new(),
        env_cond: EnvironmentalConditions {
            time_of_day: DayTime::Night,
            time_of_day_string: String::from("23:15"),
            weather: WeatherType::Foggy,
        },
    }
}

fn sorted(set: &DirtySet) -> Vec<(u64, u64)> {
    let mut cells: Vec<(u64, u64)> = set.to_vec().iter().map(|c| (c.x, c.y)).collect();
    cells.sort();
    cells
}

#[test]
fn a_square_grid_with_the_agent_on_it_is_valid() {
    assert_eq!(world_of(3, 0, 0, 0, &[]).validate(), Ok(()));
    assert_eq!(world_of(3, 2, 2, 0, &[]).validate(), Ok(()));
    assert_eq!(world_of(1, 0, 0, 0, &[]).validate(), Ok(()));
}

#[test]
fn validate_names_what_is_wrong() {
    assert_eq!(world_of(3, 3, 0, 0, &[]).validate(), Err(PipelineError::RobotOutOfBounds));
    assert_eq!(world_of(3, 0, 3, 0, &[]).validate(), Err(PipelineError::RobotOutOfBounds));
    assert_eq!(world_of(3, u64::MAX, 0, 0, &[]).validate(), Err(PipelineError::RobotOutOfBounds));
    assert_eq!(world_of(0, 0, 0, 0, &[]).validate(), Err(PipelineError::RobotOutOfBounds));
    let mut ragged = world_of(3, 0, 0, 0, &[]);
    ragged.world[2].push(None);
    assert_eq!(ragged.validate(), Err(PipelineError::GridNotSquare));
    let mut short = world_of(3, 0, 0, 0, &[]);
    short.world[0].clear();
    assert_eq!(short.validate(), Err(PipelineError::GridNotSquare));
    // wide, with the agent off it: the shape is named
    let mut wide = world_of(2, 5, 5, 0, &[]);
    wide.world[0].push(None);
    wide.world[1].push(None);
    assert_eq!(wide.validate(), Err(PipelineError::GridNotSquare));
}

#[test]
fn robot_tile_is_the_cell_under_the_agent() {
    let mut world = world_of(4, 1, 2, 0, &[]);
    world.world[1][2] =
        Some(Tile { tile_type: TileType::Hill, content: Content::Tree(3), elevation: 42 });
    assert_eq!(
        world.robot_tile(),
        Ok(Tile { tile_type: TileType::Hill, content: Content::Tree(3), elevation: 42 })
    );
}

#[test]
fn robot_tile_of_an_undiscovered_cell() {
    let mut world = world_of(4, 1, 2, 0, &[]);
    world.world[1][2] = None;
    assert_eq!(world.robot_tile(), Err(PipelineError::RobotTileUndiscovered));
}

#[test]
fn robot_tile_off_the_grid() {
    assert_eq!(world_of(4, 4, 0, 0, &[]).robot_tile(), Err(PipelineError::RobotOutOfBounds));
    assert_eq!(world_of(4, 0, 4, 0, &[]).robot_tile(), Err(PipelineError::RobotOutOfBounds));
    assert_eq!(world_of(0, 0, 0, 0, &[]).robot_tile(), Err(PipelineError::RobotOutOfBounds));
    // the row of the agent decides, whatever the other rows hold
    let mut ragged = world_of(3, 1, 2, 0, &[]);
    ragged.world[1].pop();
    assert_eq!(ragged.robot_tile(), Err(PipelineError::RobotOutOfBounds));
    ragged.world[1].push(tile(5));
    ragged.world[0].clear();
    assert_eq!(ragged.robot_tile().map(|t| t.elevation), Ok(5));
}

#[test]
fn carried_leaves_out_what_is_not_carried() {
    let mut world = world_of(1, 0, 0, 0, &[]);
    world.backpack = vec![
        (Content::Rock(0), 0),
        (Content::Tree(0), 3),
        (Content::Coin(0), 0),
        (Content::Fish(0), 1),
        (Content::Water(0), 0),
    ];
    assert_eq!(world.carried(), vec![(Content::Tree(0), 3), (Content::Fish(0), 1)]);
}

#[test]
fn carried_of_an_empty_backpack() {
    let mut world = world_of(1, 0, 0, 0, &[]);
    assert_eq!(world.carried(), Vec::new());
    world.backpack = vec![(Content::Rock(0), 0), (Content::Garbage(0), 0)];
    assert_eq!(world.carried(), Vec::new());
}

#[test]
fn carried_keeps_a_full_backpack_in_order() {
    let mut world = world_of(1, 0, 0, 0, &[]);
    world.backpack = vec![(Content::Bush(0), 9), (Content::Rock(0), 1), (Content::Bush(0), 2)];
    assert_eq!(world.carried(), world.backpack);
}

#[test]
fn merging_nothing_gives_nothing() {
    assert!(merge_latest(Vec::new()).is_none());
}

#[test]
fn merging_one_snapshot_gives_it_back() {
    let merged = merge_latest(vec![world_of(3, 1, 1, 77, &[(0, 0), (2, 2)])]).unwrap();
    assert_eq!(merged.energy, 77);
    assert_eq!(merged.robot_position, Coord { x: 1, y: 1 });
    assert_eq!(sorted(&merged.tiles_to_refresh), vec![(0, 0), (2, 2)]);
}

#[test]
fn merging_keeps_the_latest_state_and_every_dirty_cell() {
    let mut newest = world_of(5, 4, 3, 30, &[(4, 4)]);
    newest.world[0][0] = None;
    newest.backpack = vec![(Content::Coin(0), 5)];
    newest.env_cond.weather = WeatherType::Rainy;
    let expected_world = newest.world.clone();
    let queue = vec![
        world_of(5, 0, 0, 10, &[(0, 0), (0, 1)]),
        world_of(5, 1, 1, 20, &[]),
        world_of(5, 2, 2, 25, &[(0, 1), (3, 3)]),
        newest,
    ];
    let merged = merge_latest(queue).unwrap();
    assert_eq!(merged.energy, 30);
    assert_eq!(merged.robot_position, Coord { x: 4, y: 3 });
    assert_eq!(merged.world, expected_world);
    assert_eq!(merged.backpack, vec![(Content::Coin(0), 5)]);
    assert_eq!(merged.env_cond.weather, WeatherType::Rainy);
    assert_eq!(merged.env_cond.time_of_day, DayTime::Night);
    assert_eq!(merged.env_cond.time_of_day_string, "23:15");
    assert_eq!(sorted(&merged.tiles_to_refresh), vec![(0, 0), (0, 1), (3, 3), (4, 4)]);
}

#[test]
fn a_cell_marked_only_by_a_superseded_snapshot_is_kept() {
    let queue = vec![world_of(3, 0, 0, 1, &[(2, 1)]), world_of(3, 0, 0, 2, &[])];
    let merged = merge_latest(queue).unwrap();
    assert_eq!(merged.energy, 2);
    assert_eq!(sorted(&merged.tiles_to_refresh), vec![(2, 1)]);
}

#[test]
fn a_snapshot_can_be_cloned() {
    let world = world_of(2, 1, 0, 5, &[(1, 1)]);
    let copy = world.clone();
    assert_eq!(copy.world, world.world);
    assert_eq!(copy.energy, 5);
    assert_eq!(copy.robot_position, Coord { x: 1, y: 0 });
    assert_eq!(sorted(&copy.tiles_to_refresh), vec![(1, 1)]);
}
