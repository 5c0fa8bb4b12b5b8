//! The mapping from object id to tracked object: an unordered, unique-key
//! association vector whose mathematical value is a `Map`.

use vstd::prelude::*;

use crate::object::{ObjectView, TacviewObject};

verus! {

/// No two entries share an id.
pub open spec fn keys_unique(s: Seq<(u64, TacviewObject)>) -> bool {
    forall|i: int, j: int| 0 <= i < j < s.len() ==> s[i].0 != s[j].0
}

/// The mapping an entry sequence denotes; later entries win, which is
/// immaterial once keys are unique.
pub open spec fn as_map(s: Seq<(u64, TacviewObject)>) -> Map<u64, ObjectView>
    decreases s.len(),
{
    if s.len() == 0 {
        Map::empty()
    } else {
        as_map(s.drop_last()).insert(s.last().0, s.last().1@)
    }
}

pub proof fn lemma_unique_drop_last(s: Seq<(u64, TacviewObject)>)
    requires
        keys_unique(s),
        s.len() > 0,
    ensures
        keys_unique(s.drop_last()),
{
    assert forall|i: int, j: int| 0 <= i < j < s.drop_last().len() implies s.drop_last()[i].0
        != s.drop_last()[j].0 by {
        assert(s.drop_last()[i] == s[i]);
        assert(s.drop_last()[j] == s[j]);
    }
}

/// A key is in the denoted map exactly when some entry carries it.
pub proof fn lemma_as_map_dom(s: Seq<(u64, TacviewObject)>)
    ensures
        forall|k: u64|
            as_map(s).dom().contains(k) <==> exists|i: int| 0 <= i < s.len() && s[i].0 == k,
    decreases s.len(),
{
    if s.len() == 0 {
    } else {
        lemma_as_map_dom(s.drop_last());
        assert forall|k: u64| as_map(s).dom().contains(k) implies exists|i: int|
            0 <= i < s.len() && s[i].0 == k by {
            if k == s.last().0 {
                assert(s[s.len() - 1].0 == k);
            } else {
                assert(as_map(s.drop_last()).dom().contains(k));
                let i = choose|i: int| 0 <= i < s.drop_last().len() && s.drop_last()[i].0 == k;
                assert(s.drop_last()[i] == s[i]);
                assert(s[i].0 == k);
            }
        }
        assert forall|k: u64| (exists|i: int| 0 <= i < s.len() && s[i].0 == k) implies as_map(
            s,
        ).dom().contains(k) by {
            let i = choose|i: int| 0 <= i < s.len() && s[i].0 == k;
            if i == s.len() - 1 {
                assert(as_map(s).dom().contains(s.last().0));
            } else {
                assert(s.drop_last()[i].0 == k);
                assert(exists|j: int| 0 <= j < s.drop_last().len() && s.drop_last()[j].0 == k);
                assert(as_map(s.drop_last()).dom().contains(k));
            }
        }
    }
}

/// With unique keys, entry `i` denotes the binding of its id.
pub proof fn lemma_as_map_index(s: Seq<(u64, TacviewObject)>, i: int)
    requires
        keys_unique(s),
        0 <= i < s.len(),
    ensures
        as_map(s).dom().contains(s[i].0),
        as_map(s)[s[i].0] == s[i].1@,
    decreases s.len(),
{
    if i == s.len() - 1 {
    } else {
        lemma_unique_drop_last(s);
        lemma_as_map_index(s.drop_last(), i);
        assert(s.drop_last()[i] == s[i]);
        assert(s[i].0 != s.last().0);
    }
}

/// With unique keys, removing entry `i` removes exactly its binding.
pub proof fn lemma_as_map_remove(s: Seq<(u64, TacviewObject)>, i: int)
    requires
        keys_unique(s),
        0 <= i < s.len(),
    ensures
        keys_unique(s.remove(i)),
        as_map(s.remove(i)) == as_map(s).remove(s[i].0),
    decreases s.len(),
{
    assert forall|x: int, y: int| 0 <= x < y < s.remove(i).len() implies s.remove(i)[x].0
        != s.remove(i)[y].0 by {
        if x < i {
            assert(s.remove(i)[x] == s[x]);
        } else {
            assert(s.remove(i)[x] == s[x + 1]);
        }
        if y < i {
            assert(s.remove(i)[y] == s[y]);
        } else {
            assert(s.remove(i)[y] == s[y + 1]);
        }
    }
    if i == s.len() - 1 {
        assert(s.remove(i) =~= s.drop_last());
        lemma_unique_drop_last(s);
        lemma_as_map_dom(s.drop_last());
        assert(!as_map(s.drop_last()).dom().contains(s[i].0)) by {
            if as_map(s.drop_last()).dom().contains(s[i].0) {
                let j = choose|j: int|
                    0 <= j < s.drop_last().len() && s.drop_last()[j].0 == s[i].0;
                assert(s[j].0 == s[i].0);
            }
        }
        assert(as_map(s.remove(i)) =~= as_map(s).remove(s[i].0));
    } else {
        lemma_unique_drop_last(s);
        lemma_as_map_remove(s.drop_last(), i);
        assert(s.remove(i).drop_last() =~= s.drop_last().remove(i));
        assert(s.remove(i).last() == s.last());
        assert(s.remove(i).len() == s.len() - 1);
        assert(s[i].0 != s.last().0);
        assert(as_map(s.remove(i)) == as_map(s.drop_last().remove(i)).insert(
            s.last().0,
            s.last().1@,
        ));
        assert(as_map(s.remove(i)) =~= as_map(s).remove(s[i].0));
    }
}

/// Appending a fresh key adds exactly its binding.
pub proof fn lemma_as_map_push(s: Seq<(u64, TacviewObject)>, k: u64, v: TacviewObject)
    requires
        keys_unique(s),
        forall|i: int| 0 <= i < s.len() ==> s[i].0 != k,
    ensures
        keys_unique(s.push((k, v))),
        as_map(s.push((k, v))) == as_map(s).insert(k, v@),
{
    assert forall|x: int, y: int| 0 <= x < y < s.push((k, v)).len() implies s.push((k, v))[x].0
        != s.push((k, v))[y].0 by {
        assert(s.push((k, v))[x] == s[x]);
        if y < s.len() {
            assert(s.push((k, v))[y] == s[y]);
        }
    }
    assert(s.push((k, v)).drop_last() =~= s);
    assert(s.push((k, v)).last() == (k, v));
    assert(as_map(s.push((k, v))) == as_map(s).insert(k, v@));
}

/// The object mapping: unordered, keyed by the feed-assigned 64-bit id.
#[derive(Debug)]
pub struct ObjectMap {
    pub entries: Vec<(u64, TacviewObject)>,
}

impl View for ObjectMap {
    type V = Map<u64, ObjectView>;

    open spec fn view(&self) -> Map<u64, ObjectView> {
        as_map(self.entries@)
    }
}

impl ObjectMap {
    /// The representation invariant: ids are unique.
    pub open spec fn wf(&self) -> bool {
        keys_unique(self.entries@)
    }

    pub fn new() -> (r: ObjectMap)
        ensures
            r.wf(),
            r@ == Map::<u64, ObjectView>::empty(),
    {
        ObjectMap { entries: Vec::new() }
    }

    fn index_of(&self, id: u64) -> (r: Option<usize>)
        ensures
            match r {
                Some(i) => i < self.entries@.len() && self.entries@[i as int].0 == id,
                None => forall|j: int| 0 <= j < self.entries@.len() ==> self.entries@[j].0 != id,
            },
    {
        let mut i: usize = 0;
        while i < self.entries.len()
            invariant
                i <= self.entries.len(),
                forall|j: int| 0 <= j < i ==> self.entries@[j].0 != id,
            decreases self.entries.len() - i,
        {
            if self.entries[i].0 == id {
                return Some(i);
            }
            i += 1;
        }
        None
    }

    /// Whether an object with this id is present.
    pub fn contains(&self, id: u64) -> (r: bool)
        requires
            self.wf(),
        ensures
            r == self@.dom().contains(id),
    {
        proof {
            lemma_as_map_dom(self.entries@);
        }
        self.index_of(id).is_some()
    }

    /// The object with this id, if present.
    pub fn get(&self, id: u64) -> (r: Option<&TacviewObject>)
        requires
            self.wf(),
        ensures
            match r {
                Some(o) => self@.dom().contains(id) && o@ == self@[id],
                None => !self@.dom().contains(id),
            },
    {
        proof {
            lemma_as_map_dom(self.entries@);
        }
        match self.index_of(id) {
            Some(i) => {
                proof {
                    lemma_as_map_index(self.entries@, i as int);
                }
                Some(&self.entries[i].1)
            },
            None => None,
        }
    }

    /// Removes and returns the object with this id, if present.
    pub fn take(&mut self, id: u64) -> (r: Option<TacviewObject>)
        requires
            old(self).wf(),
        ensures
            final(self).wf(),
            final(self)@ == old(self)@.remove(id),
            match r {
                Some(o) => old(self)@.dom().contains(id) && o@ == old(self)@[id],
                None => !old(self)@.dom().contains(id) && final(self)@ == old(self)@,
            },
    {
        proof {
            lemma_as_map_dom(self.entries@);
        }
        match self.index_of(id) {
            Some(i) => {
                proof {
                    lemma_as_map_index(self.entries@, i as int);
                    lemma_as_map_remove(self.entries@, i as int);
                }
                let (_removed_id, object) = self.entries.remove(i);
                Some(object)
            },
            None => {
                proof {
                    assert(old(self)@.remove(id) =~= old(self)@);
                }
                None
            },
        }
    }

    /// Removes the object with this id; a no-op if it is absent.
    pub fn remove(&mut self, id: u64)
        requires
            old(self).wf(),
        ensures
            final(self).wf(),
            final(self)@ == old(self)@.remove(id),
            !final(self)@.dom().contains(id),
    {
        let _dropped = self.take(id);
    }

    /// Installs an object under an id that is not yet present.
    pub fn insert_new(&mut self, id: u64, object: TacviewObject)
        requires
            old(self).wf(),
            !old(self)@.dom().contains(id),
        ensures
            final(self).wf(),
            final(self)@ == old(self)@.insert(id, object@),
    {
        let ghost s0 = self.entries@;
        let ghost v0 = object;
        proof {
            lemma_as_map_dom(s0);
            assert forall|i: int| 0 <= i < s0.len() implies s0[i].0 != id by {
                if s0[i].0 == id {
                    assert(as_map(s0).dom().contains(id));
                }
            }
            lemma_as_map_push(s0, id, v0);
        }
        self.entries.push((id, object));
        proof {
            assert(self.entries@ =~= s0.push((id, v0)));
        }
    }

    /// The number of tracked objects.
    pub fn len(&self) -> (n: usize)
        ensures
            n == self.entries@.len(),
    {
        self.entries.len()
    }
}

} // verus!
