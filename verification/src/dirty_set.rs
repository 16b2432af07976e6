//! The set of grid cells whose rendered geometry has to be rebuilt.

use std::collections::HashSet;
use vstd::prelude::*;
use vstd::std_specs::iter::IteratorSpec;

verus! {

broadcast use vstd::std_specs::hash::group_hash_axioms;

/// Whether `p` lies on a square grid with `size` cells per side.
pub open spec fn in_bounds(p: (int, int), size: int) -> bool {
    0 <= p.0 < size && 0 <= p.1 < size
}

/// The Chebyshev distance of two cells: the larger of their distances along
/// the two axes.
pub open spec fn chebyshev(p: (int, int), q: (int, int)) -> int {
    let dx = if p.0 >= q.0 { p.0 - q.0 } else { q.0 - p.0 };
    let dy = if p.1 >= q.1 { p.1 - q.1 } else { q.1 - p.1 };
    if dx >= dy { dx } else { dy }
}

/// The cells of a grid with `size` cells per side that lie within Chebyshev
/// distance `radius` of `c`.
pub open spec fn surroundings(c: (int, int), radius: int, size: int) -> Set<(int, int)> {
    Set::new(|p: (int, int)| in_bounds(p, size) && chebyshev(p, c) <= radius)
}

/// The cells of a grid with `size` cells per side that lie within Chebyshev
/// distance 1 of `c`: the part of the 3x3 block around `c` that is on the
/// grid.
pub open spec fn neighbourhood(c: (int, int), size: int) -> Set<(int, int)> {
    surroundings(c, 1, size)
}

/// The grid coordinate of the cell in row `row` and column `col`.
pub fn coord_to_robot_position(row: usize, col: usize) -> (position: Coord)
    ensures
        position@ == (row as int, col as int),
{
    Coord { x: row as u64, y: col as u64 }
}

/// A grid coordinate: `x` counts rows, `y` counts columns.
#[derive(Clone, Copy, Debug, PartialEq, Eq, Structural)]
pub struct Coord {
    pub x: u64,
    pub y: u64,
}

impl View for Coord {
    type V = (int, int);

    open spec fn view(&self) -> (int, int) {
        (self.x as int, self.y as int)
    }
}

/// The cells that occur in `cells`.
pub open spec fn cells_of(cells: Seq<Coord>) -> Set<(int, int)> {
    Set::new(|p: (int, int)| exists|i: int| 0 <= i < cells.len() && (#[trigger] cells[i])@ == p)
}

/// Number of values that one coordinate is given room for in a key.
const COORD_SPAN: u128 = 0x1_0000_0000_0000_0000;

/// The key under which the cell `(x, y)` is stored.
spec fn pack(x: int, y: int) -> int {
    x * 0x1_0000_0000_0000_0000 + y
}

/// The first coordinate of the cell stored under `key`.
spec fn key_x(key: u128) -> int {
    key as int / 0x1_0000_0000_0000_0000
}

/// The second coordinate of the cell stored under `key`.
spec fn key_y(key: u128) -> int {
    key as int % 0x1_0000_0000_0000_0000
}

/// A set of grid coordinates, viewed as a set of `(x, y)` pairs. Each cell is
/// stored under one key, and each key stands for one cell.
#[derive(Debug)]
pub struct DirtySet {
    keys: HashSet<u128>,
}

impl View for DirtySet {
    type V = Set<(int, int)>;

    closed spec fn view(&self) -> Set<(int, int)> {
        Set::new(
            |p: (int, int)|
                0 <= p.0 <= u64::MAX && 0 <= p.1 <= u64::MAX && self.keys@.contains(
                    pack(p.0, p.1) as u128,
                ),
        )
    }
}

impl Clone for DirtySet {
    /// A set of the same cells.
    fn clone(&self) -> (copy: DirtySet)
        ensures
            copy@ == self@,
    {
        let mut copy = DirtySet::new();
        copy.extend(self);
        copy
    }
}

impl DirtySet {
    /// The empty set.
    pub fn new() -> (s: DirtySet)
        ensures
            s@ == Set::<(int, int)>::empty(),
    {
        DirtySet { keys: HashSet::new() }
    }

    /// Adds the cell `(x, y)`.
    pub fn insert(&mut self, x: u64, y: u64)
        ensures
            final(self)@ == old(self)@.insert((x as int, y as int)),
    {
        let key: u128 = (x as u128) * COORD_SPAN + (y as u128);
        self.keys.insert(key);
    }

    /// Whether the cell `(x, y)` is in the set.
    pub fn contains(&self, x: u64, y: u64) -> (found: bool)
        ensures
            found == self@.contains((x as int, y as int)),
    {
        let key: u128 = (x as u128) * COORD_SPAN + (y as u128);
        self.keys.contains(&key)
    }

    /// Removes every cell.
    pub fn clear(&mut self)
        ensures
            final(self)@ == Set::<(int, int)>::empty(),
    {
        self.keys.clear();
    }

    /// Whether the set holds no cell.
    pub fn is_empty(&self) -> (empty: bool)
        ensures
            empty == (self@ == Set::<(int, int)>::empty()),
    {
        let empty = self.keys.is_empty();
        proof {
            if !empty {
                let key = choose|key: u128| self.keys@.contains(key);
                assert(self@.contains((key_x(key), key_y(key))));
            } else {
                assert(self@ =~= Set::<(int, int)>::empty());
            }
        }
        empty
    }

    /// Number of cells in the set.
    pub fn len(&self) -> (n: usize)
        ensures
            self@.finite(),
            n == self@.len(),
    {
        proof {
            let all = self.keys.iter().remaining().unref();
            vstd::seq_lib::seq_to_set_is_finite(all);
            lemma_view_of_keys(self.keys@, self@);
        }
        self.keys.len()
    }

    /// The cells of the set, each once, in no particular order.
    pub fn to_vec(&self) -> (cells: Vec<Coord>)
        ensures
            cells@.no_duplicates(),
            cells_of(cells@) == self@,
    {
        let mut cells: Vec<Coord> = Vec::new();
        let ghost all = self.keys.iter().remaining();
        for k in it: self.keys.iter()
            invariant
                it.seq() == all,
                all.unref().to_set() == self.keys@,
                all.no_duplicates(),
                cells@.len() == it.index(),
                forall|i: int|
                    0 <= i < cells@.len() ==> pack(
                        (#[trigger] cells@[i]).x as int,
                        cells@[i].y as int,
                    ) == *all[i],
        {
            let x: u128 = *k / COORD_SPAN;
            let y: u128 = *k % COORD_SPAN;
            cells.push(Coord { x: x as u64, y: y as u64 });
        }
        proof {
            assert forall|p: (int, int)| self@.contains(p) implies cells_of(cells@).contains(
                p,
            ) by {
                let key = pack(p.0, p.1) as u128;
                let i = choose|i: int| 0 <= i < all.unref().len() && all.unref()[i] == key;
                assert(cells@[i]@ == p);
            }
            assert forall|p: (int, int)| cells_of(cells@).contains(p) implies self@.contains(
                p,
            ) by {
                let i = choose|i: int| 0 <= i < cells@.len() && (#[trigger] cells@[i])@ == p;
                assert(all.unref()[i] == *all[i]);
            }
        }
        cells
    }

    /// Adds the cells of a grid with `size` cells per side that lie within
    /// Chebyshev distance 1 of `(x, y)`.
    pub fn insert_neighbourhood(&mut self, x: u64, y: u64, size: u64)
        ensures
            final(self)@ == old(self)@.union(neighbourhood((x as int, y as int), size as int)),
    {
        self.insert_surroundings(x, y, 1, size);
    }

    /// Adds the cells of a grid with `size` cells per side that lie within
    /// Chebyshev distance `radius` of `(x, y)`.
    pub fn insert_surroundings(&mut self, x: u64, y: u64, radius: u64, size: u64)
        ensures
            final(self)@ == old(self)@.union(
                surroundings((x as int, y as int), radius as int, size as int),
            ),
    {
        if size == 0 {
            return ;
        }
        let last: u64 = size - 1;
        let lo_x: u64 = if x < radius { 0 } else { x - radius };
        let hi_x: u64 = if x < last && radius < last - x { x + radius } else { last };
        let lo_y: u64 = if y < radius { 0 } else { y - radius };
        let hi_y: u64 = if y < last && radius < last - y { y + radius } else { last };
        let mut i: u64 = lo_x;
        while i <= hi_x
            invariant
                lo_x <= i,
                i <= hi_x + 1 || i == lo_x,
                hi_x < u64::MAX,
                hi_y < u64::MAX,
                self@ == old(self)@.union(block(lo_x as int, i as int, lo_y as int, hi_y + 1)),
            decreases hi_x + 1 - i,
        {
            let mut j: u64 = lo_y;
            while j <= hi_y
                invariant
                    lo_y <= j,
                    j <= hi_y + 1 || j == lo_y,
                    i <= hi_x < u64::MAX,
                    hi_y < u64::MAX,
                    self@ == old(self)@.union(
                        block(lo_x as int, i as int, lo_y as int, hi_y + 1),
                    ).union(block(i as int, i + 1, lo_y as int, j as int)),
                decreases hi_y + 1 - j,
            {
                self.insert(i, j);
                j = j + 1;
            }
            i = i + 1;
        }
    }

    /// Adds every cell of `other`.
    pub fn extend(&mut self, other: &DirtySet)
        ensures
            final(self)@ == old(self)@.union(other@),
    {
        let ghost all = other.keys.iter().remaining();
        proof {
            lemma_prefix_keys_all(all);
        }
        for k in it: other.keys.iter()
            invariant
                it.seq() == all,
                prefix_keys(all, all.len() as int) == other.keys@,
                self.keys@ == old(self).keys@.union(prefix_keys(all, it.index())),
        {
            self.keys.insert(*k);
        }
    }
}

/// The cells `(x, y)` with `lo_x <= x < end_x` and `lo_y <= y < end_y`.
spec fn block(lo_x: int, end_x: int, lo_y: int, end_y: int) -> Set<(int, int)> {
    Set::new(|p: (int, int)| lo_x <= p.0 < end_x && lo_y <= p.1 < end_y)
}

/// The cells stored under the keys `keys` are as many as the keys.
proof fn lemma_view_of_keys(keys: Set<u128>, cells: Set<(int, int)>)
    requires
        keys.finite(),
        forall|p: (int, int)|
            cells.contains(p) <==> 0 <= p.0 <= u64::MAX && 0 <= p.1 <= u64::MAX
                && keys.contains(pack(p.0, p.1) as u128),
    ensures
        cells.finite(),
        cells.len() == keys.len(),
    decreases keys.len(),
{
    if keys.len() == 0 {
        assert(cells =~= Set::<(int, int)>::empty());
    } else {
        let key = keys.choose();
        let p = (key_x(key), key_y(key));
        let rest = cells.remove(p);
        lemma_view_of_keys(keys.remove(key), rest);
    }
}

/// The keys among the first `n` items of `s`.
spec fn prefix_keys(s: Seq<&u128>, n: int) -> Set<u128> {
    Set::new(|key: u128| exists|i: int| 0 <= i < n && *#[trigger] s[i] == key)
}

/// All the items of `s` together hold the keys of `s`.
proof fn lemma_prefix_keys_all(s: Seq<&u128>)
    ensures
        prefix_keys(s, s.len() as int) == s.unref().to_set(),
{
    let whole = prefix_keys(s, s.len() as int);
    assert forall|key: u128| whole.contains(key) implies s.unref().to_set().contains(key) by {
        let i = choose|i: int| 0 <= i < s.len() && *#[trigger] s[i] == key;
        assert(s.unref()[i] == key);
    }
}

} // verus!
