use ragnarok::dirty_set::{coord_to_robot_position, Coord, DirtySet};

fn sorted(set: &DirtySet) -> Vec<(u64, u64)> {
    let mut cells: Vec<(u64, u64)> = set.to_vec().iter().map(|c| (c.x, c.y)).collect();
    cells.sort();
    cells
}

#[test]
fn new_set_is_empty() {
    let set = DirtySet::new();
    assert!(set.is_empty());
    assert_eq!(set.len(), 0);
    assert!(!set.contains(0, 0));
    assert_eq!(set.to_vec(), Vec::<Coord>::new());
}

#[test]
fn insert_adds_one_cell_once() {
    let mut set = DirtySet::new();
    set.insert(3, 4);
    set.insert(3, 4);
    assert!(set.contains(3, 4));
    assert!(!set.contains(4, 3));
    assert!(!set.is_empty());
    assert_eq!(set.len(), 1);
    assert_eq!(sorted(&set), vec![(3, 4)]);
}

#[test]
fn coordinates_do_not_collide() {
    let mut set = DirtySet::new();
    set.insert(0, 1);
    set.insert(1, 0);
    set.insert(u64::MAX, 0);
    set.insert(0, u64::MAX);
    set.insert(u64::MAX, u64::MAX);
    assert_eq!(set.len(), 5);
    assert_eq!(
        sorted(&set),
        vec![(0, 1), (0, u64::MAX), (1, 0), (u64::MAX, 0), (u64::MAX, u64::MAX)]
    );
    assert!(!set.contains(0, 0));
    assert!(!set.contains(1, 1));
}

#[test]
fn clear_removes_everything() {
    let mut set = DirtySet::new();
    set.insert(1, 2);
    set.insert(5, 6);
    set.clear();
    assert!(set.is_empty());
    assert_eq!(set.len(), 0);
    assert!(!set.contains(1, 2));
}

#[test]
fn extend_is_the_union() {
    let mut a = DirtySet::new();
    a.insert(0, 0);
    a.insert(1, 1);
    let mut b = DirtySet::new();
    b.insert(1, 1);
    b.insert(2, 2);
    a.extend(&b);
    assert_eq!(sorted(&a), vec![(0, 0), (1, 1), (2, 2)]);
    assert_eq!(sorted(&b), vec![(1, 1), (2, 2)]);
}

#[test]
fn clone_holds_the_same_cells() {
    let mut a = DirtySet::new();
    a.insert(7, 8);
    a.insert(9, 10);
    let mut b = a.clone();
    assert_eq!(sorted(&b), vec![(7, 8), (9, 10)]);
    b.insert(0, 0);
    assert_eq!(a.len(), 2);
    assert_eq!(b.len(), 3);
}

#[test]
fn neighbourhood_in_the_middle_is_the_3x3_block() {
    let mut set = DirtySet::new();
    set.insert_neighbourhood(2, 3, 10);
    assert_eq!(
        sorted(&set),
        vec![(1, 2), (1, 3), (1, 4), (2, 2), (2, 3), (2, 4), (3, 2), (3, 3), (3, 4)]
    );
}

#[test]
fn neighbourhood_in_a_corner_stays_on_the_grid() {
    let mut set = DirtySet::new();
    set.insert_neighbourhood(0, 0, 10);
    assert_eq!(sorted(&set), vec![(0, 0), (0, 1), (1, 0), (1, 1)]);
    let mut set = DirtySet::new();
    set.insert_neighbourhood(9, 9, 10);
    assert_eq!(sorted(&set), vec![(8, 8), (8, 9), (9, 8), (9, 9)]);
}

#[test]
fn neighbourhood_on_an_edge_stays_on_the_grid() {
    let mut set = DirtySet::new();
    set.insert_neighbourhood(0, 5, 10);
    assert_eq!(sorted(&set), vec![(0, 4), (0, 5), (0, 6), (1, 4), (1, 5), (1, 6)]);
}

#[test]
fn neighbourhood_on_a_grid_of_one_cell() {
    let mut set = DirtySet::new();
    set.insert_neighbourhood(0, 0, 1);
    assert_eq!(sorted(&set), vec![(0, 0)]);
}

#[test]
fn neighbourhood_on_an_empty_grid_is_empty() {
    let mut set = DirtySet::new();
    set.insert_neighbourhood(0, 0, 0);
    assert!(set.is_empty());
}

#[test]
fn neighbourhood_of_a_cell_off_the_grid() {
    // just beyond the last row: the last row is within distance 1
    let mut set = DirtySet::new();
    set.insert_neighbourhood(10, 5, 10);
    assert_eq!(sorted(&set), vec![(9, 4), (9, 5), (9, 6)]);
    // further out: nothing is
    let mut set = DirtySet::new();
    set.insert_neighbourhood(11, 5, 10);
    assert!(set.is_empty());
    let mut set = DirtySet::new();
    set.insert_neighbourhood(u64::MAX, u64::MAX, 10);
    assert!(set.is_empty());
}

#[test]
fn neighbourhood_keeps_what_was_there() {
    let mut set = DirtySet::new();
    set.insert(7, 7);
    set.insert_neighbourhood(0, 0, 2);
    assert_eq!(sorted(&set), vec![(0, 0), (0, 1), (1, 0), (1, 1), (7, 7)]);
}

#[test]
fn surroundings_of_radius_two_is_the_5x5_block() {
    let mut set = DirtySet::new();
    set.insert_surroundings(5, 5, 2, 100);
    assert_eq!(set.len(), 25);
    for x in 3..=7 {
        for y in 3..=7 {
            assert!(set.contains(x, y));
        }
    }
    assert!(!set.contains(2, 5));
    assert!(!set.contains(8, 5));
    assert!(!set.contains(5, 2));
    assert!(!set.contains(5, 8));
}

#[test]
fn surroundings_of_radius_two_near_a_corner() {
    let mut set = DirtySet::new();
    set.insert_surroundings(1, 0, 2, 4);
    assert_eq!(
        sorted(&set),
        vec![
            (0, 0), (0, 1), (0, 2),
            (1, 0), (1, 1), (1, 2),
            (2, 0), (2, 1), (2, 2),
            (3, 0), (3, 1), (3, 2),
        ]
    );
}

#[test]
fn surroundings_of_radius_zero_is_the_cell() {
    let mut set = DirtySet::new();
    set.insert_surroundings(3, 3, 0, 5);
    assert_eq!(sorted(&set), vec![(3, 3)]);
    let mut set = DirtySet::new();
    set.insert_surroundings(5, 3, 0, 5);
    assert!(set.is_empty());
}

#[test]
fn surroundings_of_a_huge_radius_is_the_grid() {
    let mut set = DirtySet::new();
    set.insert_surroundings(1, 1, u64::MAX, 3);
    assert_eq!(set.len(), 9);
    let mut set = DirtySet::new();
    set.insert_surroundings(u64::MAX, u64::MAX, u64::MAX, 3);
    assert_eq!(set.len(), 9);
}

#[test]
fn to_vec_lists_each_cell_once() {
    let mut set = DirtySet::new();
    for x in 0..20u64 {
        for y in 0..20u64 {
            set.insert(x, y);
            set.insert(x, y);
        }
    }
    let cells = set.to_vec();
    assert_eq!(cells.len(), 400);
    let mut pairs: Vec<(u64, u64)> = cells.iter().map(|c| (c.x, c.y)).collect();
    pairs.sort();
    pairs.dedup();
    assert_eq!(pairs.len(), 400);
    assert_eq!(pairs[0], (0, 0));
    assert_eq!(pairs[399], (19, 19));
}

#[test]
fn coord_of_row_and_column() {
    assert_eq!(coord_to_robot_position(3, 9), Coord { x: 3, y: 9 });
    assert_eq!(coord_to_robot_position(0, 0), Coord { x: 0, y: 0 });
}
