//! The connections of a server, by connection ID.

use vstd::prelude::*;

verus! {

/// A table from connection IDs to what belongs to each connection.
pub struct ConnectionTable<T> {
    entries: Vec<(Vec<u8>, T)>,
}

/// Whether the entry at `i` has the connection ID `id`.
spec fn has_id<T>(entries: Seq<(Vec<u8>, T)>, i: int, id: Seq<u8>) -> bool {
    0 <= i < entries.len() && entries[i].0@ == id
}

spec fn position<T>(entries: Seq<(Vec<u8>, T)>, id: Seq<u8>) -> int {
    choose|i: int| has_id(entries, i, id)
}

impl<T> View for ConnectionTable<T> {
    type V = Map<Seq<u8>, T>;

    closed spec fn view(&self) -> Map<Seq<u8>, T> {
        Map::new(
            |id: Seq<u8>| exists|i: int| has_id(self.entries@, i, id),
            |id: Seq<u8>| self.entries@[position(self.entries@, id)].1,
        )
    }
}

fn same_bytes(a: &[u8], b: &[u8]) -> (same: bool)
    ensures
        same <==> a@ == b@,
{
    if a.len() != b.len() {
        return false;
    }
    for i in 0..a.len()
        invariant
            a@.len() == b@.len(),
            a@.take(i as int) == b@.take(i as int),
    {
        if a[i] != b[i] {
            return false;
        }
        assert(a@.take(i + 1) =~= a@.take(i as int).push(a@[i as int]));
        assert(b@.take(i + 1) =~= b@.take(i as int).push(b@[i as int]));
    }
    assert(a@.take(a@.len() as int) =~= a@);
    assert(b@.take(b@.len() as int) =~= b@);
    true
}

impl<T> ConnectionTable<T> {
    /// No connection ID stands in the table twice.
    pub closed spec fn wf(&self) -> bool {
        forall|i: int, j: int|
            #![trigger self.entries@[i], self.entries@[j]]
            0 <= i < j < self.entries@.len() ==> self.entries@[i].0@ != self.entries@[j].0@
    }

    proof fn lemma_entry(&self, i: int)
        requires
            self.wf(),
            0 <= i < self.entries@.len(),
        ensures
            self@.contains_key(self.entries@[i].0@),
            self@[self.entries@[i].0@] == self.entries@[i].1,
    {
        let id = self.entries@[i].0@;
        assert(has_id(self.entries@, i, id));
        let j = position(self.entries@, id);
        assert(has_id(self.entries@, j, id));
        assert(i == j);
    }

    /// No connection.
    pub fn new() -> (table: Self)
        ensures
            table.wf(),
            table@ == Map::<Seq<u8>, T>::empty(),
    {
        let table = ConnectionTable { entries: Vec::new() };
        assert(table@ =~= Map::<Seq<u8>, T>::empty());
        table
    }

    fn find(&self, id: &[u8]) -> (found: Option<usize>)
        ensures
            match found {
                Some(i) => has_id(self.entries@, i as int, id@),
                None => !self@.contains_key(id@),
            },
    {
        for i in 0..self.entries.len()
            invariant
                forall|j: int| 0 <= j < i ==> !has_id(self.entries@, j, id@),
        {
            if same_bytes(self.entries[i].0.as_slice(), id) {
                return Some(i);
            }
        }
        None
    }

    /// Returns what belongs to the connection with the given ID.
    pub fn get(&self, id: &[u8]) -> (value: Option<&T>)
        requires
            self.wf(),
        ensures
            match value {
                Some(value) => self@.contains_key(id@) && *value == self@[id@],
                None => !self@.contains_key(id@),
            },
    {
        match self.find(id) {
            Some(i) => {
                proof {
                    self.lemma_entry(i as int);
                }
                Some(&self.entries[i].1)
            },
            None => None,
        }
    }

    /// Removes the connection with the given ID and returns what belonged to
    /// it.
    pub fn remove(&mut self, id: &[u8]) -> (value: Option<T>)
        requires
            old(self).wf(),
        ensures
            final(self).wf(),
            final(self)@ == old(self)@.remove(id@),
            value == (if old(self)@.contains_key(id@) {
                Some(old(self)@[id@])
            } else {
                None
            }),
    {
        match self.find(id) {
            Some(i) => {
                proof {
                    self.lemma_entry(i as int);
                }
                let ghost before = *self;
                let (_, value) = self.entries.remove(i);
                proof {
                    let after = *self;
                    assert forall|other: Seq<u8>| #[trigger]
                        after@.contains_key(other) implies other != id@ && before@.contains_key(other) && after@[other] == before@[other] by {
                        let j = position(after.entries@, other);
                        assert(has_id(after.entries@, j, other));
                        after.lemma_entry(j);
                        let k = if j < i { j } else { j + 1 };
                        assert(after.entries@[j] == before.entries@[k]);
                        before.lemma_entry(k);
                    }
                    assert forall|other: Seq<u8>| #[trigger]
                        before@.contains_key(other) && other != id@ implies after@.contains_key(other) by {
                        let k = position(before.entries@, other);
                        assert(has_id(before.entries@, k, other));
                        let j = if k < i { k } else { k - 1 };
                        assert(after.entries@[j] == before.entries@[k]);
                        assert(has_id(after.entries@, j, other));
                    }
                    assert(after@ =~= before@.remove(id@));
                }
                Some(value)
            },
            None => {
                assert(self@ =~= old(self)@.remove(id@));
                None
            },
        }
    }

    /// Puts a connection into the table, in place of one that has the same ID.
    pub fn insert(&mut self, id: Vec<u8>, value: T)
        requires
            old(self).wf(),
        ensures
            final(self).wf(),
            final(self)@ == old(self)@.insert(id@, value),
    {
        let _ = self.remove(id.as_slice());
        let ghost before = *self;
        let ghost key = id@;
        assert forall|i: int| 0 <= i < before.entries@.len() implies before.entries@[i].0@
            != key by {
            before.lemma_entry(i);
        }
        self.entries.push((id, value));
        proof {
            let after = *self;
            let last = before.entries@.len() as int;
            assert(after.wf());
            after.lemma_entry(last);
            assert forall|other: Seq<u8>| #[trigger]
                after@.contains_key(other) && other != key implies before@.contains_key(other)
                && after@[other] == before@[other] by {
                let j = position(after.entries@, other);
                assert(has_id(after.entries@, j, other));
                assert(j != last);
                assert(after.entries@[j] == before.entries@[j]);
                after.lemma_entry(j);
                before.lemma_entry(j);
            }
            assert forall|other: Seq<u8>| #[trigger]
                before@.contains_key(other) implies after@.contains_key(other) by {
                let j = position(before.entries@, other);
                assert(has_id(before.entries@, j, other));
                assert(after.entries@[j] == before.entries@[j]);
                assert(has_id(after.entries@, j, other));
            }
            assert(after@ =~= before@.insert(key, value));
            assert(before@.insert(key, value) =~= old(self)@.insert(key, value));
        }
    }
}

} // verus!
