//! A set of grid cells, stored in a hash set of integers.

use crate::utils::Vec2D;
use std::collections::HashSet;
use vstd::prelude::*;
use vstd::relations::injective_on;
use vstd::set_lib::{lemma_map_size, lemma_map_size_bound};

verus! {

broadcast use vstd::std_specs::hash::group_hash_axioms;

/// The integer under which a cell is stored: both coordinates shifted to
/// be non-negative, the column in the high half and the row in the low
/// half.
spec fn cell_key(c: Vec2D) -> u64 {
    ((c.x + 0x8000_0000) * 0x1_0000_0000 + (c.y + 0x8000_0000)) as u64
}

/// The cell stored under an integer.
spec fn key_cell(k: u64) -> Vec2D {
    Vec2D {
        x: (k / 0x1_0000_0000 - 0x8000_0000) as i32,
        y: (k % 0x1_0000_0000 - 0x8000_0000) as i32,
    }
}

/// Cells and the integers they are stored under correspond one to one.
proof fn lemma_key_bijection()
    ensures
        forall|c: Vec2D| #[trigger] key_cell(cell_key(c)) == c,
        forall|k: u64| #[trigger] cell_key(key_cell(k)) == k,
{
    assert forall|c: Vec2D| #[trigger] key_cell(cell_key(c)) == c by {
        let hi: int = c.x + 0x8000_0000;
        let lo: int = c.y + 0x8000_0000;
        let k: int = hi * 0x1_0000_0000 + lo;
        assert(0 <= hi < 0x1_0000_0000 && 0 <= lo < 0x1_0000_0000);
        assert(k / 0x1_0000_0000 == hi && k % 0x1_0000_0000 == lo);
    }
    assert forall|k: u64| #[trigger] cell_key(key_cell(k)) == k by {
        let hi: int = (k / 0x1_0000_0000) as int;
        let lo: int = (k % 0x1_0000_0000) as int;
        assert(0 <= hi < 0x1_0000_0000 && 0 <= lo < 0x1_0000_0000);
        assert(k == hi * 0x1_0000_0000 + lo);
    }
}

fn key_of(c: &Vec2D) -> (k: u64)
    ensures
        k == cell_key(*c),
{
    let hi: u64 = (c.x as i64 + 0x8000_0000) as u64;
    let lo: u64 = (c.y as i64 + 0x8000_0000) as u64;
    hi * 0x1_0000_0000 + lo
}

/// A finite set of cells with constant-time membership.
#[derive(Debug)]
pub struct CellSet {
    keys: HashSet<u64>,
}

impl View for CellSet {
    type V = Set<Vec2D>;

    closed spec fn view(&self) -> Set<Vec2D> {
        Set::new(|c: Vec2D| self.keys@.contains(cell_key(c)))
    }
}

impl CellSet {
    /// A finite set holds as many cells as there are integers stored.
    proof fn lemma_view_len(&self)
        requires
            self@.finite(),
        ensures
            self.keys@.finite(),
            self@.len() == self.keys@.len(),
    {
        lemma_key_bijection();
        let encode = |c: Vec2D| cell_key(c);
        assert(self@.map(encode) =~= self.keys@) by {
            assert forall|k: u64| self.keys@.contains(k) implies self@.map(encode).contains(
                k,
            ) by {
                assert(self@.contains(key_cell(k)) && encode(key_cell(k)) == k);
            }
        }
        assert(injective_on(encode, self@)) by {
            assert forall|a: Vec2D, b: Vec2D|
                self@.contains(a) && self@.contains(b) && #[trigger] encode(a) == #[trigger] encode(
                    b,
                ) implies a == b by {
                assert(key_cell(cell_key(a)) == a);
                assert(key_cell(cell_key(b)) == b);
            }
        }
        lemma_map_size_bound(self@, self.keys@, encode);
        lemma_map_size(self@, self.keys@, encode);
    }

    /// The empty set.
    pub fn new() -> (s: CellSet)
        ensures
            s@ == Set::<Vec2D>::empty(),
    {
        let s = CellSet { keys: HashSet::new() };
        assert(s@ =~= Set::<Vec2D>::empty());
        s
    }

    /// Whether `cell` is in the set.
    pub fn contains(&self, cell: &Vec2D) -> (found: bool)
        ensures
            found == self@.contains(*cell),
    {
        let k = key_of(cell);
        self.keys.contains(&k)
    }

    /// Adds `cell`; says whether it was new.
    pub fn insert(&mut self, cell: Vec2D) -> (added: bool)
        ensures
            final(self)@ == old(self)@.insert(cell),
            added == !old(self)@.contains(cell),
    {
        proof {
            lemma_key_bijection();
        }
        let k = key_of(&cell);
        let added = self.keys.insert(k);
        assert(self@ =~= old(self)@.insert(cell)) by {
            assert forall|c: Vec2D| cell_key(c) == cell_key(cell) implies c == cell by {
                assert(key_cell(cell_key(c)) == c);
                assert(key_cell(cell_key(cell)) == cell);
            }
        }
        added
    }

    /// Takes `cell` out; says whether it was there.
    pub fn remove(&mut self, cell: &Vec2D) -> (removed: bool)
        ensures
            final(self)@ == old(self)@.remove(*cell),
            removed == old(self)@.contains(*cell),
    {
        proof {
            lemma_key_bijection();
        }
        let k = key_of(cell);
        let removed = self.keys.remove(&k);
        assert(self@ =~= old(self)@.remove(*cell)) by {
            assert forall|c: Vec2D| cell_key(c) == cell_key(*cell) implies c == *cell by {
                assert(key_cell(cell_key(c)) == c);
                assert(key_cell(cell_key(*cell)) == *cell);
            }
        }
        removed
    }

    /// Empties the set.
    pub fn clear(&mut self)
        ensures
            final(self)@ == Set::<Vec2D>::empty(),
    {
        self.keys.clear();
        assert(self@ =~= Set::<Vec2D>::empty());
    }

    /// Number of cells in the set.
    pub fn len(&self) -> (n: usize)
        ensures
            self@.finite() ==> n == self@.len(),
    {
        proof {
            if self@.finite() {
                self.lemma_view_len();
            }
        }
        self.keys.len()
    }

    pub fn is_empty(&self) -> (empty: bool)
        ensures
            empty == (self@ == Set::<Vec2D>::empty()),
    {
        proof {
            lemma_key_bijection();
            if self.keys@.is_empty() {
                assert(self@ =~= Set::<Vec2D>::empty());
            } else {
                let k = choose|k: u64| self.keys@.contains(k);
                assert(self@.contains(key_cell(k)));
            }
        }
        self.keys.is_empty()
    }
}

} // verus!
