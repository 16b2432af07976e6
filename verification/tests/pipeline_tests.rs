use ragnarok::dirty_set::{Coord, DirtySet};
use ragnarok::game_runner::{Action, GameRunner};
use ragnarok::gui::GUI;
use ragnarok::partial_world::{
    DayTime, EnvironmentalConditions, PartialWorld, WeatherType, RAW_SNAPSHOT_CAPACITY,
};
use ragnarok::robot_wrapper::{EventKind, RobotWrapper, TickWork};
use ragnarok::run_mode::RunMode;
use ragnarok::tile::{Content, Tile, TileType};
use ragnarok::worker_thread::WorkerThread;
use std::sync::mpsc::{channel, sync_channel, TryRecvError, TrySendError};

fn calm() -> EnvironmentalConditions {
    EnvironmentalConditions {
        time_of_day: DayTime::Morning,
        time_of_day_string: String::from("06:00"),
        weather: WeatherType::Sunny,
    }
}

fn raw(world: Vec<Vec<Option<Tile>>>, x: u64, y: u64, energy: usize) -> PartialWorld {
    PartialWorld::new(world, Coord { x, y }, energy, Vec::new(), calm())
}

fn seen(elevation: usize) -> Option<Tile> {
    Some(Tile { tile_type: TileType::Street, content: Content::Nothing, elevation })
}

fn sorted(set: &DirtySet) -> Vec<(u64, u64)> {
    let mut cells: Vec<(u64, u64)> = set.to_vec().iter().map(|c| (c.x, c.y)).collect();
    cells.sort();
    cells
}

#[test]
fn a_raw_snapshot_has_no_dirty_cells() {
    let world = vec![vec![seen(1), None], vec![None, seen(2)]];
    let snapshot = PartialWorld::new(
        world.clone(),
        Coord { x: 1, y: 1 },
        640,
        vec![(Content::Coin(0), 3)],
        calm(),
    );
    assert!(snapshot.tiles_to_refresh.is_empty());
    assert_eq!(snapshot.world, world);
    assert_eq!(snapshot.robot_position, Coord { x: 1, y: 1 });
    assert_eq!(snapshot.energy, 640);
    assert_eq!(snapshot.backpack, vec![(Content::Coin(0), 3)]);
    assert_eq!(snapshot.env_cond.time_of_day_string, "06:00");
}

#[test]
fn only_the_first_tick_observes_the_surroundings() {
    let mut wrapper = RobotWrapper::new();
    assert_eq!(wrapper.begin_tick(), TickWork::ObserveSurroundings);
    for _ in 0..5 {
        assert_eq!(wrapper.begin_tick(), TickWork::ProcessTick);
    }
}

#[test]
fn routine_notices_are_not_reported() {
    let wrapper = RobotWrapper::new();
    for kind in [
        EventKind::Ready,
        EventKind::Moved,
        EventKind::DayChanged,
        EventKind::EnergyRecharged,
        EventKind::TimeChanged,
    ] {
        assert!(!wrapper.handle_event(kind));
    }
    for kind in [
        EventKind::Terminated,
        EventKind::EnergyConsumed,
        EventKind::TileContentUpdated,
        EventKind::AddedToBackpack,
        EventKind::RemovedFromBackpack,
    ] {
        assert!(wrapper.handle_event(kind));
    }
}

#[test]
fn conditions_can_be_cloned() {
    let conditions = calm();
    let copy = conditions.clone();
    assert_eq!(copy.time_of_day, DayTime::Morning);
    assert_eq!(copy.time_of_day_string, "06:00");
    assert_eq!(copy.weather, WeatherType::Sunny);
}

#[test]
fn the_raw_channel_holds_one_snapshot() {
    assert_eq!(RAW_SNAPSHOT_CAPACITY, 1);
    let (tx, rx) = sync_channel::<PartialWorld>(RAW_SNAPSHOT_CAPACITY);
    assert!(tx.try_send(raw(vec![vec![None]], 0, 0, 1)).is_ok());
    // while the diff stage does not receive, no further snapshot gets in
    for energy in 2..5 {
        match tx.try_send(raw(vec![vec![None]], 0, 0, energy)) {
            Err(TrySendError::Full(refused)) => assert_eq!(refused.energy, energy),
            _ => panic!("a snapshot got in beyond the capacity"),
        }
    }
    assert_eq!(rx.try_recv().map(|w| w.energy).ok(), Some(1));
    assert!(tx.try_send(raw(vec![vec![None]], 0, 0, 9)).is_ok());
    assert_eq!(rx.try_recv().map(|w| w.energy).ok(), Some(9));
    assert!(matches!(rx.try_recv(), Err(TryRecvError::Empty)));
}

#[test]
fn a_closed_raw_channel_is_noticed() {
    let (tx, rx) = sync_channel::<PartialWorld>(RAW_SNAPSHOT_CAPACITY);
    drop(rx);
    assert!(matches!(
        tx.try_send(raw(vec![vec![None]], 0, 0, 1)),
        Err(TrySendError::Disconnected(_))
    ));
}

#[test]
fn snapshots_flow_from_the_driver_to_the_display() {
    let (raw_tx, raw_rx) = sync_channel::<PartialWorld>(RAW_SNAPSHOT_CAPACITY);
    let (annotated_tx, annotated_rx) = channel::<PartialWorld>();
    let (control_tx, control_rx) = channel::<RunMode>();

    let mut driver = GameRunner::new();
    let mut wrapper = RobotWrapper::new();
    let mut worker = WorkerThread::new();

    // the world as the robot discovers it, tick by tick
    let mut world: Vec<Vec<Option<Tile>>> = vec![vec![None; 6]; 6];
    world[0][0] = seen(0);
    let mut ticks = 0usize;

    // the first tick is forced before the loop starts
    assert_eq!(wrapper.begin_tick(), TickWork::ObserveSurroundings);
    raw_tx.try_send(raw(world.clone(), 0, 0, 100)).unwrap();
    annotated_tx.send(worker.process(raw_rx.try_recv().unwrap()).unwrap()).unwrap();
    let mut gui = GUI::new(annotated_rx.try_recv().unwrap());
    assert_eq!(sorted(&gui.world_copy.tiles_to_refresh), vec![(0, 0), (0, 1), (1, 0), (1, 1)]);
    assert_eq!(gui.take_dirty().len(), 4);

    // paused: nothing happens
    let queued: Vec<RunMode> = control_rx.try_iter().collect();
    assert_eq!(driver.next_action(&queued, 0), Action::Poll { wait_nanos: 5_000_000 });

    // the user asks for two ticks while the driver is busy: one is performed
    control_tx.send(gui.request_single_tick()).unwrap();
    control_tx.send(gui.request_single_tick()).unwrap();
    let queued: Vec<RunMode> = control_rx.try_iter().collect();
    assert_eq!(queued.len(), 2);
    assert_eq!(driver.next_action(&queued, 0), Action::Tick { wait_nanos: 0 });
    assert_eq!(wrapper.begin_tick(), TickWork::ProcessTick);
    ticks += 1;
    world[2][2] = seen(4);
    raw_tx.try_send(raw(world.clone(), 1, 1, 99)).unwrap();
    annotated_tx.send(worker.process(raw_rx.try_recv().unwrap()).unwrap()).unwrap();
    let queued: Vec<RunMode> = control_rx.try_iter().collect();
    assert_eq!(driver.next_action(&queued, 0), Action::Poll { wait_nanos: 5_000_000 });

    // continuous running: three ticks before the display draws again
    control_tx.send(gui.toggle_continuous_mode()).unwrap();
    for step in 0..3usize {
        let queued: Vec<RunMode> = control_rx.try_iter().collect();
        assert_eq!(driver.next_action(&queued, 1_000_000_000), Action::Tick { wait_nanos: 0 });
        assert_eq!(wrapper.begin_tick(), TickWork::ProcessTick);
        ticks += 1;
        world[5][step] = seen(1);
        raw_tx.try_send(raw(world.clone(), 1, 1, 98 - step)).unwrap();
        annotated_tx.send(worker.process(raw_rx.try_recv().unwrap()).unwrap()).unwrap();
    }
    assert_eq!(ticks, 4);

    // the display takes in four snapshots at once
    let drained: Vec<PartialWorld> = annotated_rx.try_iter().collect();
    assert_eq!(drained.len(), 4);
    gui.receive(drained);
    assert_eq!(gui.world_copy.energy, 96);
    assert_eq!(gui.world_copy.world, world);
    let mut expected = Vec::new();
    for x in 1..=3u64 {
        for y in 1..=3u64 {
            expected.push((x, y));
        }
    }
    for x in 4..=5u64 {
        for y in 0..=3u64 {
            expected.push((x, y));
        }
    }
    expected.sort();
    assert_eq!(sorted(&gui.world_copy.tiles_to_refresh), expected);

    // the window closes
    control_tx.send(gui.close_requested()).unwrap();
    let queued: Vec<RunMode> = control_rx.try_iter().collect();
    assert_eq!(driver.next_action(&queued, 0), Action::Exit);
    drop(raw_tx);
    assert!(matches!(raw_rx.try_recv(), Err(TryRecvError::Disconnected)));
}
