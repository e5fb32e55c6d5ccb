//! Sets of peer identifiers, and tables keyed by them, both kept in the order
//! in which the identifiers were added.
use crate::text::same;
use vstd::prelude::*;

verus! {

/// A peer identifier, as a specification sees it.
pub type Id = Seq<char>;

/// The identifiers `ids` with `id` taken out, the others in their order.
pub open spec fn without(ids: Seq<Id>, id: Id) -> Seq<Id> {
    if ids.contains(id) {
        ids.remove(ids.index_of(id))
    } else {
        ids
    }
}

/// The identifiers `ids` with `id` added behind them unless it is among them.
pub open spec fn with(ids: Seq<Id>, id: Id) -> Seq<Id> {
    if ids.contains(id) {
        ids
    } else {
        ids.push(id)
    }
}

/// What is left after taking `id` out: the other identifiers, each once.
pub proof fn lemma_without(ids: Seq<Id>, id: Id)
    requires
        ids.no_duplicates(),
    ensures
        without(ids, id).no_duplicates(),
        forall|other: Id| #[trigger]
            without(ids, id).contains(other) <==> ids.contains(other) && other != id,
{
    if ids.contains(id) {
        let at = ids.index_of(id);
        let rest = ids.remove(at);
        assert forall|other: Id| #[trigger] rest.contains(other) implies ids.contains(other) && other
            != id by {
            let i = rest.index_of(other);
            if i < at {
                assert(ids[i] == other);
            } else {
                assert(ids[i + 1] == other);
            }
        }
        assert forall|other: Id| ids.contains(other) && other != id implies #[trigger] rest.contains(
            other,
        ) by {
            let i = ids.index_of(other);
            if i < at {
                assert(rest[i] == other);
            } else {
                assert(rest[i - 1] == other);
            }
        }
    }
}

/// What `with` holds: the identifiers there were, and `id`, each once.
pub proof fn lemma_with(ids: Seq<Id>, id: Id)
    requires
        ids.no_duplicates(),
    ensures
        with(ids, id).no_duplicates(),
        forall|other: Id| #[trigger]
            with(ids, id).contains(other) <==> ids.contains(other) || other == id,
{
    if !ids.contains(id) {
        let more = ids.push(id);
        assert forall|other: Id| #[trigger] more.contains(other) implies ids.contains(other) || other
            == id by {
            let i = more.index_of(other);
            if i < ids.len() {
                assert(ids[i] == other);
            }
        }
        assert forall|other: Id| ids.contains(other) || other == id implies #[trigger] more.contains(
            other,
        ) by {
            if other == id {
                assert(more[ids.len() as int] == id);
            } else {
                let i = ids.index_of(other);
                assert(more[i] == other);
            }
        }
    }
}

/// Taking `id` out keeps exactly the others, in their order.
pub proof fn without_is_a_filter(ids: Seq<Id>, id: Id)
    requires
        ids.no_duplicates(),
    ensures
        without(ids, id) == ids.filter(|other: Id| other != id),
    decreases ids.len(),
{
    reveal(Seq::filter);
    let keep = |other: Id| other != id;
    if ids.len() > 0 {
        let shorter = ids.drop_last();
        assert forall|i: int, j: int| 0 <= i < shorter.len() && 0 <= j < shorter.len() && i != j
            implies shorter[i] != shorter[j] by {
            assert(ids[i] != ids[j]);
        }
        without_is_a_filter(shorter, id);
        if ids.last() == id {
            assert(!shorter.contains(id)) by {
                if shorter.contains(id) {
                    let i = shorter.index_of(id);
                    assert(ids[i] == ids[ids.len() - 1]);
                }
            }
            assert(ids[ids.len() - 1] == id);
            assert(ids.contains(id));
            assert(ids.index_of(id) == ids.len() - 1);
            assert(ids.remove(ids.len() - 1) =~= shorter);
        } else if shorter.contains(id) {
            let at = shorter.index_of(id);
            assert(ids[at] == id);
            assert(ids.contains(id));
            assert(ids.index_of(id) == at);
            assert(ids.remove(at) =~= shorter.remove(at).push(ids.last()));
        } else {
            assert(!ids.contains(id)) by {
                if ids.contains(id) {
                    let i = ids.index_of(id);
                    assert(shorter[i] == id);
                }
            }
            assert(ids =~= shorter.push(ids.last()));
        }
    }
}

/// Adding `id` puts it behind the others unless it is among them, and taking it out
/// again gives back what there was.
pub proof fn adding_is_undone_by_taking_out(ids: Seq<Id>, id: Id)
    requires
        ids.no_duplicates(),
    ensures
        ids.contains(id) ==> with(ids, id) == ids,
        !ids.contains(id) ==> with(ids, id) == ids.push(id) && without(with(ids, id), id) == ids,
        !ids.contains(id) ==> without(ids, id) == ids,
{
    if !ids.contains(id) {
        let more = ids.push(id);
        assert(more[ids.len() as int] == id);
        assert(more.contains(id));
        let at = more.index_of(id);
        assert(at == ids.len()) by {
            if at < ids.len() {
                assert(ids[at] == id);
            }
        }
        assert(more.remove(at) =~= ids);
    }
}

/// A set of peer identifiers.
pub struct PeerSet {
    ids: Vec<String>,
}

impl View for PeerSet {
    type V = Seq<Id>;

    closed spec fn view(&self) -> Seq<Id> {
        self.ids@.map_values(|id: String| id@)
    }
}

impl PeerSet {
    /// No identifier occurs twice.
    pub open spec fn wf(&self) -> bool {
        self@.no_duplicates()
    }

    /// The empty set.
    pub fn new() -> (set: PeerSet)
        ensures
            set@ == Seq::<Id>::empty(),
            set.wf(),
    {
        let set = PeerSet { ids: Vec::new() };
        assert(set@ =~= Seq::<Id>::empty());
        set
    }

    /// How many identifiers there are.
    pub fn len(&self) -> (n: usize)
        ensures
            n == self@.len(),
    {
        self.ids.len()
    }

    /// The identifier at a place in the order of adding.
    pub fn get(&self, at: usize) -> (id: &String)
        requires
            at < self@.len(),
        ensures
            id@ == self@[at as int],
    {
        &self.ids[at]
    }

    /// Where an identifier stands, if it is there.
    fn position(&self, id: &str) -> (found: Option<usize>)
        ensures
            match found {
                Some(at) => at < self@.len() && self@[at as int] == id@,
                None => !self@.contains(id@),
            },
    {
        let mut at: usize = 0;
        while at < self.ids.len()
            invariant
                at <= self.ids@.len(),
                forall|i: int| 0 <= i < at ==> self@[i] != id@,
            decreases self.ids@.len() - at,
        {
            if same(self.ids[at].as_str(), id) {
                return Some(at);
            }
            at = at + 1;
        }
        None
    }

    /// Whether an identifier is in the set.
    pub fn contains(&self, id: &str) -> (found: bool)
        ensures
            found == self@.contains(id@),
    {
        match self.position(id) {
            Some(at) => {
                assert(self@[at as int] == id@);
                true
            },
            None => false,
        }
    }

    /// Adds an identifier; answers whether it was new.
    pub fn insert(&mut self, id: String) -> (new: bool)
        requires
            old(self).wf(),
        ensures
            final(self).wf(),
            final(self)@ == with(old(self)@, id@),
            new == !old(self)@.contains(id@),
    {
        proof {
            lemma_with(self@, id@);
        }
        if self.contains(id.as_str()) {
            return false;
        }
        let ghost before = self@;
        let ghost added = id@;
        self.ids.push(id);
        assert(self@ =~= before.push(added));
        true
    }

    /// Takes an identifier out; answers whether it was there.
    pub fn remove(&mut self, id: &str) -> (found: bool)
        requires
            old(self).wf(),
        ensures
            final(self).wf(),
            final(self)@ == without(old(self)@, id@),
            found == old(self)@.contains(id@),
    {
        proof {
            lemma_without(self@, id@);
        }
        match self.position(id) {
            Some(at) => {
                let ghost before = self@;
                let _ = self.ids.remove(at);
                assert(self@ =~= before.remove(at as int));
                assert(before.index_of(id@) == at);
                true
            },
            None => false,
        }
    }
}

/// A table with one value for each of some peer identifiers.
pub struct PeerMap<V> {
    keys: PeerSet,
    values: Vec<V>,
}

impl<V> View for PeerMap<V> {
    type V = Map<Id, V>;

    closed spec fn view(&self) -> Map<Id, V> {
        Map::new(|id: Id| self.keys@.contains(id), |id: Id| self.values@[self.keys@.index_of(id)])
    }
}

impl<V> PeerMap<V> {
    /// The identifiers that have a value, in the order in which they got one.
    pub closed spec fn ids(&self) -> Seq<Id> {
        self.keys@
    }

    /// One value for each identifier, and no identifier twice.
    pub closed spec fn wf(&self) -> bool {
        &&& self.keys.wf()
        &&& self.keys@.len() == self.values@.len()
    }

    /// The empty table.
    pub fn new() -> (table: PeerMap<V>)
        ensures
            table.wf(),
            table.ids() == Seq::<Id>::empty(),
            table@ == Map::<Id, V>::empty(),
    {
        let table = PeerMap { keys: PeerSet::new(), values: Vec::new() };
        assert(table@ =~= Map::<Id, V>::empty());
        table
    }

    /// How many identifiers have a value.
    pub fn len(&self) -> (n: usize)
        ensures
            n == self.ids().len(),
    {
        self.keys.len()
    }

    /// The identifier at a place in the order of adding.
    pub fn id(&self, at: usize) -> (id: &String)
        requires
            at < self.ids().len(),
        ensures
            id@ == self.ids()[at as int],
    {
        self.keys.get(at)
    }

    /// Whether an identifier has a value.
    pub fn contains(&self, id: &str) -> (found: bool)
        ensures
            found == self@.contains_key(id@),
    {
        self.keys.contains(id)
    }

    /// The value of an identifier.
    pub fn get(&self, id: &str) -> (found: Option<&V>)
        requires
            self.wf(),
        ensures
            match found {
                Some(value) => self@.contains_key(id@) && *value == self@[id@],
                None => !self@.contains_key(id@),
            },
    {
        match self.keys.position(id) {
            Some(at) => {
                assert(self.keys@[at as int] == id@);
                assert(self.keys@.index_of(id@) == at);
                Some(&self.values[at])
            },
            None => None,
        }
    }

    /// The value of an identifier, to be changed in place.
    pub fn get_mut(&mut self, id: &str) -> (found: Option<&mut V>)
        requires
            old(self).wf(),
        ensures
            final(self).wf(),
            final(self).ids() == old(self).ids(),
            match found {
                Some(value) => {
                    &&& old(self)@.contains_key(id@)
                    &&& *value == old(self)@[id@]
                    &&& final(self)@ == old(self)@.insert(id@, *final(value))
                },
                None => !old(self)@.contains_key(id@) && final(self)@ == old(self)@,
            },
    {
        match self.keys.position(id) {
            Some(at) => {
                assert(self.keys@[at as int] == id@);
                assert(self.keys@.index_of(id@) == at);
                Some(&mut self.values[at])
            },
            None => None,
        }
    }

    /// Gives an identifier a value, in place of the one it may have.
    pub fn insert(&mut self, id: String, value: V)
        requires
            old(self).wf(),
        ensures
            final(self).wf(),
            final(self).ids() == with(old(self).ids(), id@),
            final(self)@ == old(self)@.insert(id@, value),
    {
        let ghost before = *self;
        match self.keys.position(id.as_str()) {
            Some(at) => {
                assert(self.keys@[at as int] == id@);
                assert(self.keys@.index_of(id@) == at);
                self.values.set(at, value);
            },
            None => {
                let ghost added = id@;
                proof {
                    lemma_with(before.keys@, added);
                }
                let _ = self.keys.insert(id);
                self.values.push(value);
                assert forall|other: Id| before.keys@.contains(other) implies self.keys@.index_of(other)
                    == before.keys@.index_of(other) by {
                    let i = before.keys@.index_of(other);
                    assert(self.keys@[i] == other);
                }
                assert(self.keys@[before.keys@.len() as int] == added);
                assert(self.keys@.index_of(added) == before.keys@.len());
            },
        }
        assert(self@ =~= before@.insert(id@, value));
    }

    /// Takes an identifier and its value out.
    pub fn remove(&mut self, id: &str) -> (found: Option<V>)
        requires
            old(self).wf(),
        ensures
            final(self).wf(),
            final(self).ids() == without(old(self).ids(), id@),
            final(self)@ == old(self)@.remove(id@),
            match found {
                Some(value) => old(self)@.contains_key(id@) && value == old(self)@[id@],
                None => !old(self)@.contains_key(id@),
            },
    {
        let ghost before = *self;
        proof {
            lemma_without(before.keys@, id@);
        }
        match self.keys.position(id) {
            Some(at) => {
                assert(self.keys@[at as int] == id@);
                assert(self.keys@.index_of(id@) == at);
                let _ = self.keys.remove(id);
                let value = self.values.remove(at);
                assert forall|other: Id| self.keys@.contains(other) implies self.values@[self.keys@.index_of(
                    other,
                )] == before.values@[before.keys@.index_of(other)] by {
                    let i = self.keys@.index_of(other);
                    if i < at {
                        assert(before.keys@[i] == other);
                        assert(before.keys@.index_of(other) == i);
                    } else {
                        assert(before.keys@[i + 1] == other);
                        assert(before.keys@.index_of(other) == i + 1);
                    }
                }
                assert(self@ =~= before@.remove(id@));
                Some(value)
            },
            None => {
                assert(self@ =~= before@.remove(id@));
                None
            },
        }
    }
}

} // verus!
