//! A finite set of board positions.
use vstd::prelude::*;

use crate::moves::Position;

verus! {

/// The positions of a list with one more at its end are those of the list
/// and the one added.
proof fn lemma_push_to_set(list: Seq<Position>, added: Position)
    ensures
        list.push(added).to_set() == list.to_set().insert(added),
{
    let longer = list.push(added);
    assert forall|p: Position| longer.to_set().contains(p) implies list.to_set().insert(
        added,
    ).contains(p) by {
        let j = choose|j: int| 0 <= j < longer.len() && longer[j] == p;
        assert(j < list.len() ==> list[j] == p);
    }
    assert forall|p: Position| list.to_set().insert(added).contains(p) implies longer.to_set(
    ).contains(p) by {
        if p == added {
            assert(longer[list.len() as int] == p);
        } else {
            let j = choose|j: int| 0 <= j < list.len() && list[j] == p;
            assert(longer[j] == p);
        }
    }
}

/// A set of positions, kept as a list in which no position occurs twice.
#[derive(Debug)]
pub struct PositionSet {
    items: Vec<Position>,
}

impl View for PositionSet {
    type V = Set<Position>;

    closed spec fn view(&self) -> Set<Position> {
        self.items@.to_set()
    }
}

impl PositionSet {
    #[verifier::type_invariant]
    spec fn distinct(&self) -> bool {
        self.items@.no_duplicates()
    }

    /// The empty set.
    pub fn new() -> (set: PositionSet)
        ensures
            set@ == Set::<Position>::empty(),
    {
        let set = PositionSet { items: Vec::new() };
        set
    }

    /// The number of positions in the set.
    pub fn len(&self) -> (count: usize)
        ensures
            count == self@.len(),
            self@.finite(),
    {
        proof {
            use_type_invariant(self);
            self.items@.unique_seq_to_set();
        }
        self.items.len()
    }

    /// Whether the set holds no position.
    pub fn is_empty(&self) -> (empty: bool)
        ensures
            empty == (self@ == Set::<Position>::empty()),
    {
        proof {
            if self.items@.len() == 0 {
                assert(self.items@.to_set() =~= Set::<Position>::empty());
            } else {
                assert(self.items@.to_set().contains(self.items@[0]));
            }
        }
        self.items.len() == 0
    }

    /// Whether the set holds the position.
    pub fn contains(&self, position: &Position) -> (found: bool)
        ensures
            found == self@.contains(*position),
    {
        let mut i: usize = 0;
        while i < self.items.len()
            invariant
                i <= self.items@.len(),
                forall|j: int| 0 <= j < i ==> self.items@[j] != *position,
            decreases self.items@.len() - i,
        {
            if self.items[i] == *position {
                return true;
            }
            i += 1;
        }
        false
    }

    /// Adds a position to the set. Returns whether it was new.
    pub fn insert(&mut self, position: Position) -> (added: bool)
        ensures
            final(self)@ == old(self)@.insert(position),
            added == !old(self)@.contains(position),
    {
        proof {
            use_type_invariant(&*self);
        }
        if self.contains(&position) {
            false
        } else {
            let ghost before = self.items@;
            let mut items: Vec<Position> = Vec::new();
            std::mem::swap(&mut items, &mut self.items);
            items.push(position);
            self.items = items;
            proof {
                lemma_push_to_set(before, position);
            }
            true
        }
    }

    /// Adds every position of another set to this one.
    pub fn extend(&mut self, other: &PositionSet)
        ensures
            final(self)@ == old(self)@.union(other@),
    {
        let mut i: usize = 0;
        while i < other.items.len()
            invariant
                i <= other.items@.len(),
                self@ == old(self)@.union(other.items@.take(i as int).to_set()),
            decreases other.items@.len() - i,
        {
            self.insert(other.items[i]);
            proof {
                let shorter = other.items@.take(i as int);
                assert(other.items@.take(i + 1) =~= shorter.push(other.items@[i as int]));
                lemma_push_to_set(shorter, other.items@[i as int]);
            }
            i += 1;
        }
        assert(other.items@.take(i as int) =~= other.items@);
    }

    /// The positions of the set as a list without repetitions, in no
    /// particular order.
    pub fn to_vec(&self) -> (list: Vec<Position>)
        ensures
            list@.no_duplicates(),
            list@.to_set() == self@,
    {
        proof {
            use_type_invariant(self);
        }
        self.items.clone()
    }
}

} // verus!
