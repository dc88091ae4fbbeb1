use vstd::prelude::*;

use crate::error::{RecordKind, StdError};
use crate::market::position::Position;

verus! {

/// A stored position under its id.
pub struct PositionEntry {
    pub id: u64,
    pub position: Position,
}

/// An entry of the owner index: `owner` holds position `id`.
pub struct OwnerKey {
    pub owner: String,
    pub id: u64,
}

/// The market's position storage: the id counter, the positions by id and
/// the index of position ids by owner.
pub struct PositionBook {
    count: u64,
    entries: Vec<PositionEntry>,
    index: Vec<OwnerKey>,
    positions: Ghost<Map<u64, Position>>,
    owners: Ghost<Set<(Seq<char>, u64)>>,
}

/// The index key of `owner` and `id`.
pub open spec fn owner_key(owner: String, id: u64) -> (Seq<char>, u64) {
    (owner@, id)
}

/// The ids that the owner index lists for `owner`.
pub open spec fn ids_of_owner(index: Set<(Seq<char>, u64)>, owner: Seq<char>) -> Set<u64> {
    Set::new(|id: u64| index.contains((owner, id)))
}

/// The error for an absent position id: not found, of kind `Position`.
pub open spec fn is_position_not_found(e: StdError) -> bool {
    e == StdError::NotFound { kind: RecordKind::Position }
}

/// Index and positions agree: the index holds `(owner, id)` exactly when
/// position `id` exists and belongs to `owner`.
pub open spec fn index_consistent(
    positions: Map<u64, Position>,
    index: Set<(Seq<char>, u64)>,
) -> bool {
    &&& forall|id: u64| #[trigger] positions.contains_key(id) ==> index.contains(
        (positions[id].owner@, id),
    )
    &&& forall|o: Seq<char>, id: u64| #[trigger] index.contains((o, id)) ==> positions.contains_key(
        id,
    ) && positions[id].owner@ == o
}

fn position_not_found_error() -> (e: StdError)
    ensures
        is_position_not_found(e),
{
    StdError::NotFound { kind: RecordKind::Position }
}

/// No two entries share an id.
pub open spec fn distinct_ids(entries: Seq<PositionEntry>) -> bool {
    forall|i: int, j: int| 0 <= i < j < entries.len() ==> #[trigger] entries[i].id != #[trigger] entries[j].id
}

/// Every entry's id is below `count`.
pub open spec fn ids_below(entries: Seq<PositionEntry>, count: u64) -> bool {
    forall|i: int| 0 <= i < entries.len() ==> #[trigger] entries[i].id < count
}

/// `positions` holds exactly the positions that `entries` lists, each under
/// its id.
pub open spec fn lists_exactly(positions: Map<u64, Position>, entries: Seq<PositionEntry>) -> bool {
    &&& forall|i: int| 0 <= i < entries.len() ==> {
        &&& positions.contains_key(#[trigger] entries[i].id)
        &&& positions[entries[i].id] == entries[i].position
    }
    &&& forall|id: u64| #[trigger] positions.contains_key(id) ==> exists|i: int|
        0 <= i < entries.len() && #[trigger] entries[i].id == id
}

impl PositionBook {
    /// The stored positions by id.
    pub closed spec fn positions(self) -> Map<u64, Position> {
        self.positions@
    }

    /// The owner index, as a set of (owner, id) keys.
    pub closed spec fn owner_index(self) -> Set<(Seq<char>, u64)> {
        self.owners@
    }

    /// The id that the next new position receives.
    pub closed spec fn count(self) -> u64 {
        self.count
    }

    pub closed spec fn wf(self) -> bool {
        &&& forall|i: int, j: int|
            0 <= i < j < self.entries@.len() ==> #[trigger] self.entries@[i].id
                != #[trigger] self.entries@[j].id
        &&& forall|i: int|
            0 <= i < self.entries@.len() ==> {
                &&& self.positions@.contains_key(#[trigger] self.entries@[i].id)
                &&& self.positions@[self.entries@[i].id] == self.entries@[i].position
            }
        &&& forall|id: u64|
            #[trigger] self.positions@.contains_key(id) ==> exists|i: int|
                0 <= i < self.entries@.len() && #[trigger] self.entries@[i].id == id
        &&& forall|i: int, j: int|
            0 <= i < j < self.index@.len() ==> owner_key(#[trigger] self.index@[i].owner, self.index@[i].id)
                != owner_key(#[trigger] self.index@[j].owner, self.index@[j].id)
        &&& forall|i: int|
            0 <= i < self.index@.len() ==> self.owners@.contains(
                owner_key(#[trigger] self.index@[i].owner, self.index@[i].id),
            )
        &&& forall|k: (Seq<char>, u64)|
            #[trigger] self.owners@.contains(k) ==> exists|i: int|
                0 <= i < self.index@.len() && owner_key(#[trigger] self.index@[i].owner, self.index@[i].id) == k
    }

    /// An empty book whose id counter starts at zero.
    pub fn new() -> (b: PositionBook)
        ensures
            b.wf(),
            b.count() == 0,
            b.positions() == Map::<u64, Position>::empty(),
            b.owner_index() == Set::<(Seq<char>, u64)>::empty(),
    {
        PositionBook {
            count: 0,
            entries: Vec::new(),
            index: Vec::new(),
            positions: Ghost(Map::empty()),
            owners: Ghost(Set::empty()),
        }
    }

    /// A book read back from storage: the id counter `count` and the stored
    /// entries, with the owner index rebuilt from the entries' owners.
    /// `None` when two entries share an id or an id is not below `count`.
    pub fn restore(count: u64, entries: Vec<PositionEntry>) -> (r: Option<PositionBook>)
        ensures
            r is Some <==> distinct_ids(entries@) && ids_below(entries@, count),
            r matches Some(b) ==> {
                &&& b.wf()
                &&& b.count() == count
                &&& lists_exactly(b.positions(), entries@)
                &&& index_consistent(b.positions(), b.owner_index())
            },
    {
        let mut book = PositionBook::new();
        let mut i: usize = 0;
        while i < entries.len()
            invariant
                book.wf(),
                i <= entries@.len(),
                distinct_ids(entries@.subrange(0, i as int)),
                ids_below(entries@.subrange(0, i as int), count),
                lists_exactly(book.positions(), entries@.subrange(0, i as int)),
                index_consistent(book.positions(), book.owner_index()),
            decreases entries@.len() - i,
        {
            let ghost prefix = entries@.subrange(0, i as int);
            let id = entries[i].id;
            if id >= count {
                proof {
                    assert(entries@[i as int].id == id);
                }
                return None;
            }
            if book.find_entry(id).is_some() {
                proof {
                    let j = choose|j: int| 0 <= j < prefix.len() && #[trigger] prefix[j].id == id;
                    assert(entries@[j].id == entries@[i as int].id);
                }
                return None;
            }
            let position = entries[i].position.clone();
            let owner = position.owner.clone();
            let ghost p0 = book.positions();
            let ghost o0 = book.owner_index();
            book.save_with_id(position, id);
            book.index_insert(owner, id);
            proof {
                let next = entries@.subrange(0, i + 1);
                assert forall|a: int, b: int| 0 <= a < b < next.len() implies #[trigger] next[a].id != #[trigger] next[b].id by {
                    if b == i as int {
                        assert(next[a] == prefix[a]);
                        assert(p0.contains_key(prefix[a].id));
                    } else {
                        assert(next[a] == prefix[a] && next[b] == prefix[b]);
                    }
                }
                assert forall|a: int| 0 <= a < next.len() implies #[trigger] next[a].id < count by {
                    if a < i as int {
                        assert(next[a] == prefix[a]);
                    }
                }
                assert forall|a: int| 0 <= a < next.len() implies {
                    &&& book.positions().contains_key(#[trigger] next[a].id)
                    &&& book.positions()[next[a].id] == next[a].position
                } by {
                    if a < i as int {
                        assert(next[a] == prefix[a]);
                        assert(p0.contains_key(prefix[a].id));
                    }
                }
                assert forall|k: u64| #[trigger] book.positions().contains_key(k) implies exists|a: int|
                    0 <= a < next.len() && #[trigger] next[a].id == k by {
                    if k == id {
                        assert(next[i as int].id == k);
                    } else {
                        let a = choose|a: int| 0 <= a < prefix.len() && #[trigger] prefix[a].id == k;
                        assert(next[a] == prefix[a]);
                    }
                }
                assert forall|k: u64| #[trigger] book.positions().contains_key(k) implies book.owner_index().contains(
                    (book.positions()[k].owner@, k)) by {
                    if k != id {
                        assert(p0.contains_key(k));
                    }
                }
                assert forall|o: Seq<char>, k: u64| #[trigger] book.owner_index().contains((o, k)) implies
                    book.positions().contains_key(k) && book.positions()[k].owner@ == o by {
                    if (o, k) != owner_key(entries@[i as int].position.owner, id) {
                        assert(o0.contains((o, k)));
                    }
                }
            }
            i = i + 1;
        }
        proof {
            assert(entries@.subrange(0, entries@.len() as int) =~= entries@);
        }
        book.count = count;
        Some(book)
    }

    /// The id that the next new position receives.
    pub fn position_count(&self) -> (c: u64)
        ensures
            c == self.count(),
    {
        self.count
    }

    fn find_entry(&self, id: u64) -> (r: Option<usize>)
        requires
            self.wf(),
        ensures
            match r {
                Some(i) => i < self.entries@.len() && self.entries@[i as int].id == id,
                None => !self.positions().contains_key(id),
            },
    {
        let mut i: usize = 0;
        while i < self.entries.len()
            invariant
                self.wf(),
                i <= self.entries@.len(),
                forall|j: int| 0 <= j < i ==> self.entries@[j].id != id,
            decreases self.entries@.len() - i,
        {
            if self.entries[i].id == id {
                return Some(i);
            }
            i = i + 1;
        }
        None
    }

    fn find_key(&self, owner: &String, id: u64) -> (r: Option<usize>)
        requires
            self.wf(),
        ensures
            match r {
                Some(i) => i < self.index@.len() && owner_key(self.index@[i as int].owner, self.index@[i as int].id)
                    == owner_key(*owner, id),
                None => !self.owner_index().contains(owner_key(*owner, id)),
            },
    {
        let mut i: usize = 0;
        while i < self.index.len()
            invariant
                self.wf(),
                i <= self.index@.len(),
                forall|j: int|
                    0 <= j < i ==> owner_key(#[trigger] self.index@[j].owner, self.index@[j].id)
                        != owner_key(*owner, id),
            decreases self.index@.len() - i,
        {
            if self.index[i].id == id && self.index[i].owner == *owner {
                return Some(i);
            }
            i = i + 1;
        }
        None
    }

    /// The position stored under `id`, or a not-found error.
    pub fn load(&self, id: u64) -> (r: Result<Position, StdError>)
        requires
            self.wf(),
        ensures
            self.positions().contains_key(id) ==> r == Ok::<Position, StdError>(self.positions()[id]),
            !self.positions().contains_key(id) ==> (r matches Err(e) && is_position_not_found(e)),
    {
        match self.find_entry(id) {
            Some(i) => Ok(self.entries[i].position.clone()),
            None => Err(position_not_found_error()),
        }
    }

    /// Stores `position` under `id`, replacing what was there; the owner index
    /// and the counter are left as they are.
    pub fn save_with_id(&mut self, position: Position, id: u64)
        requires
            old(self).wf(),
        ensures
            final(self).wf(),
            final(self).positions() == old(self).positions().insert(id, position),
            final(self).owner_index() == old(self).owner_index(),
            final(self).count() == old(self).count(),
    {
        let ghost p = position;
        let ghost old_entries = self.entries@;
        let ghost w: int;
        match self.find_entry(id) {
            Some(i) => {
                self.entries.set(i, PositionEntry { id, position });
                proof { w = i as int; }
            },
            None => {
                self.entries.push(PositionEntry { id, position });
                proof { w = old_entries.len() as int; }
            },
        }
        self.positions = Ghost(self.positions@.insert(id, p));
        proof {
            assert(0 <= w < self.entries@.len() && self.entries@[w].id == id);
            assert forall|k: u64| #[trigger] self.positions@.contains_key(k) implies exists|i: int|
                0 <= i < self.entries@.len() && #[trigger] self.entries@[i].id == k by {
                if k == id {
                    assert(self.entries@[w].id == k);
                } else {
                    let v = choose|i: int| 0 <= i < old_entries.len() && old_entries[i].id == k;
                    assert(self.entries@[v].id == k);
                }
            }
        }
    }

    fn index_insert(&mut self, owner: String, id: u64)
        requires
            old(self).wf(),
        ensures
            final(self).wf(),
            final(self).owner_index() == old(self).owner_index().insert(owner_key(owner, id)),
            final(self).positions() == old(self).positions(),
            final(self).count() == old(self).count(),
    {
        let ghost k = owner_key(owner, id);
        match self.find_key(&owner, id) {
            Some(_) => {
                assert(self.owners@.insert(k) =~= self.owners@);
            },
            None => {
                self.index.push(OwnerKey { owner, id });
                self.owners = Ghost(self.owners@.insert(k));
                proof {
                    assert forall|x: (Seq<char>, u64)| #[trigger] self.owners@.contains(x) implies exists|i: int|
                        0 <= i < self.index@.len() && owner_key(#[trigger] self.index@[i].owner, self.index@[i].id) == x by {
                        if x == k {
                            let w = (self.index@.len() - 1) as int;
                            assert(owner_key(self.index@[w].owner, self.index@[w].id) == x);
                        } else {
                            let w = choose|i: int| 0 <= i < old(self).index@.len() && owner_key(old(self).index@[i].owner, old(self).index@[i].id) == x;
                            assert(owner_key(self.index@[w].owner, self.index@[w].id) == x);
                        }
                    }
                }
            },
        }
    }

    fn index_remove(&mut self, owner: &String, id: u64)
        requires
            old(self).wf(),
        ensures
            final(self).wf(),
            final(self).owner_index() == old(self).owner_index().remove(owner_key(*owner, id)),
            final(self).positions() == old(self).positions(),
            final(self).count() == old(self).count(),
    {
        let ghost k = owner_key(*owner, id);
        match self.find_key(owner, id) {
            Some(i) => {
                let ghost old_index = self.index@;
                self.index.remove(i);
                self.owners = Ghost(self.owners@.remove(k));
                proof {
                    assert forall|a: int, b: int|
                        0 <= a < b < self.index@.len() implies owner_key(#[trigger] self.index@[a].owner, self.index@[a].id)
                            != owner_key(#[trigger] self.index@[b].owner, self.index@[b].id) by {
                        let a0 = if a < i { a } else { a + 1 };
                        let b0 = if b < i { b } else { b + 1 };
                        assert(self.index@[a] == old_index[a0]);
                        assert(self.index@[b] == old_index[b0]);
                    }
                    assert forall|a: int| 0 <= a < self.index@.len() implies self.owners@.contains(
                        owner_key(#[trigger] self.index@[a].owner, self.index@[a].id)) by {
                        let a0 = if a < i { a } else { a + 1 };
                        assert(self.index@[a] == old_index[a0]);
                    }
                    assert forall|x: (Seq<char>, u64)| #[trigger] self.owners@.contains(x) implies exists|a: int|
                        0 <= a < self.index@.len() && owner_key(#[trigger] self.index@[a].owner, self.index@[a].id) == x by {
                        let w = choose|a: int| 0 <= a < old_index.len() && owner_key(old_index[a].owner, old_index[a].id) == x;
                        assert(w != i);
                        let w1 = if w < i { w } else { w - 1 };
                        assert(self.index@[w1] == old_index[w]);
                    }
                }
            },
            None => {
                assert(self.owners@.remove(k) =~= self.owners@);
            },
        }
    }

    fn entries_remove(&mut self, id: u64)
        requires
            old(self).wf(),
        ensures
            final(self).wf(),
            final(self).positions() == old(self).positions().remove(id),
            final(self).owner_index() == old(self).owner_index(),
            final(self).count() == old(self).count(),
    {
        match self.find_entry(id) {
            Some(i) => {
                let ghost old_entries = self.entries@;
                self.entries.remove(i);
                self.positions = Ghost(self.positions@.remove(id));
                proof {
                    assert forall|a: int, b: int|
                        0 <= a < b < self.entries@.len() implies #[trigger] self.entries@[a].id
                            != #[trigger] self.entries@[b].id by {
                        let a0 = if a < i { a } else { a + 1 };
                        let b0 = if b < i { b } else { b + 1 };
                        assert(self.entries@[a] == old_entries[a0]);
                        assert(self.entries@[b] == old_entries[b0]);
                    }
                    assert forall|a: int| 0 <= a < self.entries@.len() implies {
                        &&& self.positions@.contains_key(#[trigger] self.entries@[a].id)
                        &&& self.positions@[self.entries@[a].id] == self.entries@[a].position
                    } by {
                        let a0 = if a < i { a } else { a + 1 };
                        assert(self.entries@[a] == old_entries[a0]);
                        assert(a0 != i);
                    }
                    assert forall|k: u64| #[trigger] self.positions@.contains_key(k) implies exists|a: int|
                        0 <= a < self.entries@.len() && #[trigger] self.entries@[a].id == k by {
                        let w = choose|a: int| 0 <= a < old_entries.len() && old_entries[a].id == k;
                        assert(w != i);
                        let w1 = if w < i { w } else { w - 1 };
                        assert(self.entries@[w1] == old_entries[w]);
                    }
                }
            },
            None => {
                assert(self.positions@.remove(id) =~= self.positions@);
            },
        }
    }

    /// Stores `position` under the next id, indexes it under its owner and
    /// advances the counter; returns the id.
    pub fn save(&mut self, position: Position) -> (id: u64)
        requires
            old(self).wf(),
            old(self).count() < u64::MAX,
        ensures
            final(self).wf(),
            id == old(self).count(),
            final(self).count() == old(self).count() + 1,
            final(self).positions() == old(self).positions().insert(id, position),
            final(self).owner_index() == old(self).owner_index().insert(owner_key(position.owner, id)),
    {
        let id = self.count;
        let owner = position.owner.clone();
        self.save_with_id(position, id);
        self.index_insert(owner, id);
        self.count = id + 1;
        id
    }

    /// Removes position `id` and its owner index entry; a not-found error when
    /// there is no such position.
    pub fn close(&mut self, id: u64) -> (r: Result<(), StdError>)
        requires
            old(self).wf(),
        ensures
            final(self).wf(),
            final(self).count() == old(self).count(),
            old(self).positions().contains_key(id) ==> {
                &&& r == Ok::<(), StdError>(())
                &&& final(self).positions() == old(self).positions().remove(id)
                &&& final(self).owner_index() == old(self).owner_index().remove(
                    owner_key(old(self).positions()[id].owner, id),
                )
            },
            !old(self).positions().contains_key(id) ==> {
                &&& r matches Err(e) && is_position_not_found(e)
                &&& final(self).positions() == old(self).positions()
                &&& final(self).owner_index() == old(self).owner_index()
            },
    {
        let position = match self.load(id) {
            Ok(p) => p,
            Err(e) => return Err(e),
        };
        self.entries_remove(id);
        self.index_remove(&position.owner, id);
        Ok(())
    }

    /// Hands position `id` to `new_owner`, moving its owner index entry; a
    /// not-found error when there is no such position.
    pub fn transfer(&mut self, id: u64, new_owner: String) -> (r: Result<(), StdError>)
        requires
            old(self).wf(),
        ensures
            final(self).wf(),
            final(self).count() == old(self).count(),
            old(self).positions().contains_key(id) ==> {
                &&& r == Ok::<(), StdError>(())
                &&& final(self).positions() == old(self).positions().insert(
                    id,
                    Position { owner: new_owner, ..old(self).positions()[id] },
                )
                &&& final(self).owner_index() == old(self).owner_index().remove(
                    owner_key(old(self).positions()[id].owner, id),
                ).insert(owner_key(new_owner, id))
            },
            !old(self).positions().contains_key(id) ==> {
                &&& r matches Err(e) && is_position_not_found(e)
                &&& final(self).positions() == old(self).positions()
                &&& final(self).owner_index() == old(self).owner_index()
            },
    {
        let mut position = match self.load(id) {
            Ok(p) => p,
            Err(e) => return Err(e),
        };
        self.index_remove(&position.owner, id);
        self.index_insert(new_owner.clone(), id);
        position.owner = new_owner;
        self.save_with_id(position, id);
        Ok(())
    }

    /// The ids of all stored positions, in no particular order.
    pub fn ids(&self) -> (v: Vec<u64>)
        requires
            self.wf(),
        ensures
            v@.to_set() == self.positions().dom(),
    {
        let mut v: Vec<u64> = Vec::new();
        let mut i: usize = 0;
        while i < self.entries.len()
            invariant
                self.wf(),
                i <= self.entries@.len(),
                v@.len() == i,
                forall|j: int| 0 <= j < i ==> v@[j] == self.entries@[j].id,
            decreases self.entries@.len() - i,
        {
            v.push(self.entries[i].id);
            i = i + 1;
        }
        proof {
            assert forall|k: u64| v@.to_set().contains(k) <==> self.positions().dom().contains(k) by {
                if self.positions().dom().contains(k) {
                    let w = choose|a: int| 0 <= a < self.entries@.len() && self.entries@[a].id == k;
                    assert(v@[w] == k);
                }
                if v@.to_set().contains(k) {
                    let w = choose|a: int| 0 <= a < v@.len() && v@[a] == k;
                    assert(self.entries@[w].id == k);
                }
            }
            assert(v@.to_set() =~= self.positions().dom());
        }
        v
    }

    /// The ids that the owner index lists for `owner`, in no particular order.
    pub fn ids_of(&self, owner: &String) -> (v: Vec<u64>)
        requires
            self.wf(),
        ensures
            v@.to_set() == ids_of_owner(self.owner_index(), owner@),
    {
        let mut v: Vec<u64> = Vec::new();
        let mut i: usize = 0;
        while i < self.index.len()
            invariant
                self.wf(),
                i <= self.index@.len(),
                forall|k: u64| v@.contains(k) <==> exists|j: int|
                    0 <= j < i && #[trigger] owner_key(self.index@[j].owner, self.index@[j].id) == (owner@, k),
            decreases self.index@.len() - i,
        {
            if self.index[i].owner == *owner {
                let ghost v0 = v@;
                v.push(self.index[i].id);
                proof {
                    assert forall|k: u64| v@.contains(k) <==> exists|j: int|
                        0 <= j < i + 1 && #[trigger] owner_key(self.index@[j].owner, self.index@[j].id) == (owner@, k) by {
                        if v@.contains(k) && !v0.contains(k) {
                            assert(k == self.index@[i as int].id);
                            assert(owner_key(self.index@[i as int].owner, self.index@[i as int].id) == (owner@, k));
                        }
                        if exists|j: int| 0 <= j < i + 1 && #[trigger] owner_key(self.index@[j].owner, self.index@[j].id) == (owner@, k) {
                            let j = choose|j: int| 0 <= j < i + 1 && #[trigger] owner_key(self.index@[j].owner, self.index@[j].id) == (owner@, k);
                            if j == i {
                                assert(v@[v@.len() - 1] == k);
                            } else {
                                assert(v0.contains(k));
                                let w = choose|w: int| 0 <= w < v0.len() && v0[w] == k;
                                assert(v@[w] == k);
                            }
                        }
                    }
                }
            } else {
                proof {
                    assert forall|k: u64| v@.contains(k) <==> exists|j: int|
                        0 <= j < i + 1 && #[trigger] owner_key(self.index@[j].owner, self.index@[j].id) == (owner@, k) by {
                        if exists|j: int| 0 <= j < i + 1 && #[trigger] owner_key(self.index@[j].owner, self.index@[j].id) == (owner@, k) {
                            let j = choose|j: int| 0 <= j < i + 1 && #[trigger] owner_key(self.index@[j].owner, self.index@[j].id) == (owner@, k);
                            assert(j != i);
                        }
                    }
                }
            }
            i = i + 1;
        }
        proof {
            assert forall|k: u64| v@.to_set().contains(k) <==> ids_of_owner(self.owner_index(), owner@).contains(k) by {
                if ids_of_owner(self.owner_index(), owner@).contains(k) {
                    let w = choose|a: int| 0 <= a < self.index@.len() && owner_key(self.index@[a].owner, self.index@[a].id) == (owner@, k);
                    assert(owner_key(self.index@[w].owner, self.index@[w].id) == (owner@, k));
                }
                if v@.contains(k) {
                    let j = choose|j: int| 0 <= j < self.index@.len() && #[trigger] owner_key(self.index@[j].owner, self.index@[j].id) == (owner@, k);
                    assert(self.owners@.contains(owner_key(self.index@[j].owner, self.index@[j].id)));
                }
            }
            assert(v@.to_set() =~= ids_of_owner(self.owner_index(), owner@));
        }
        v
    }
}

} // verus!
