//! The registry: entries found by identifier, with the unknown entry as the
//! answer for every identifier that is absent.

use vstd::prelude::*;
use vstd::set_lib::{lemma_int_range, lemma_set_subset_finite, set_int_range};

use crate::id::{Id, Identifiable};

verus! {

/// Where in a registry's list of entries each identifier stands: a
/// `hashbrown::HashMap` from identifier to place. Nothing is known of it but
/// what the functions below say.
#[verifier::external_body]
pub struct IdIndex {
    places: hashbrown::HashMap<Id, usize>,
}

/// The places that an index holds, by identifier.
pub uninterp spec fn indexed(index: IdIndex) -> Map<Id, usize>;

impl IdIndex {
    /// `hashbrown::HashMap::new`: a map that holds nothing.
    #[verifier::external_body]
    fn new() -> (fresh: IdIndex)
        ensures
            indexed(fresh) == (Map::<Id, usize>::empty()),
    {
        IdIndex { places: hashbrown::HashMap::new() }
    }

    /// `hashbrown::HashMap::insert`: the identifier then stands at `place`, all
    /// others where they stood.
    #[verifier::external_body]
    fn insert(&mut self, id: Id, place: usize)
        ensures
            indexed(*final(self)) == indexed(*old(self)).insert(id, place),
    {
        self.places.insert(id, place);
    }

    /// `hashbrown::HashMap::get`: the place of an identifier that the map
    /// holds, and nothing for one that it does not hold.
    #[verifier::external_body]
    fn get(&self, id: Id) -> (place: Option<usize>)
        ensures
            place == if indexed(*self).contains_key(id) {
                Some(indexed(*self)[id])
            } else {
                None
            },
    {
        self.places.get(&id).copied()
    }

    /// `hashbrown::HashMap::len`: the number of identifiers that the map holds.
    #[verifier::external_body]
    fn len(&self) -> (count: usize)
        ensures
            count == indexed(*self).dom().len(),
    {
        self.places.len()
    }
}

/// A registry of entries of one kind.
pub trait Dex<I: Identifiable> {
    /// The entries of the registry, by identifier.
    spec fn entries(&self) -> Map<Id, I>;

    /// Every entry is stored under its own identifier.
    proof fn keyed_by_id(&self)
        ensures
            keyed(self.entries()),
    ;

    /// The entry stored under `id`, if there is one.
    fn try_get(&self, id: &Id) -> (found: Option<&I>)
        ensures
            found is Some <==> self.entries().contains_key(*id),
            found is Some ==> *found.unwrap() == self.entries()[*id],
    ;

    /// The entry that stands for a missing one.
    fn unknown(&self) -> (entry: &I)
        requires
            self.entries().contains_key(I::UNKNOWN),
        ensures
            *entry == self.entries()[I::UNKNOWN],
    ;

    /// The entry stored under `id`, and the unknown entry where there is none.
    fn get(&self, id: &Id) -> (entry: &I)
        requires
            self.entries().contains_key(*id) || self.entries().contains_key(I::UNKNOWN),
        ensures
            *entry == resolve(self.entries(), *id),
            !self.entries().contains_key(*id) ==> *entry == self.entries()[I::UNKNOWN],
    {
        match self.try_get(id) {
            Some(entry) => entry,
            None => self.unknown(),
        }
    }

    /// Whether the registry has the entry that stands for a missing one. A
    /// registry without it is not fit for [`Self::unknown`], nor for
    /// [`Self::get`] with an identifier that it does not hold: this is to be
    /// found out when the registry is built.
    fn has_unknown(&self) -> (has: bool)
        ensures
            has == self.entries().contains_key(I::UNKNOWN),
    {
        self.try_get(&I::UNKNOWN).is_some()
    }

    /// The number of entries.
    fn len(&self) -> (count: usize)
        ensures
            self.entries().dom().finite(),
            count == self.entries().len(),
    ;

    /// Whether the registry holds no entry at all.
    fn is_empty(&self) -> (empty: bool)
        ensures
            empty == (self.entries().len() == 0),
    {
        self.len() == 0
    }
}

/// Identifiers are few: every set of them is finite.
pub proof fn lemma_ids_finite(ids: Set<Id>)
    ensures
        ids.finite(),
{
    let narrow = |i: int| i as Id;
    let all = set_int_range(0, 0x1_0000).map(narrow);
    lemma_int_range(0, 0x1_0000);
    set_int_range(0, 0x1_0000).lemma_map_finite(narrow);
    assert forall|id: Id| ids.contains(id) implies all.contains(id) by {
        assert(set_int_range(0, 0x1_0000).contains(id as int) && narrow(id as int) == id);
    }
    lemma_set_subset_finite(all, ids);
}

/// Every entry of `entries` is stored under its own identifier.
pub open spec fn keyed<I: Identifiable>(entries: Map<Id, I>) -> bool {
    forall|id: Id| #[trigger] entries.contains_key(id) ==> entries[id].spec_id() == id
}

/// What a search for `id` finds in `entries`.
pub open spec fn lookup<I>(entries: Map<Id, I>, id: Id) -> Option<I> {
    if entries.contains_key(id) {
        Some(entries[id])
    } else {
        None
    }
}

/// The entry that answers for `id`: its own, or the unknown entry.
pub open spec fn resolve<I: Identifiable>(entries: Map<Id, I>, id: Id) -> I {
    if entries.contains_key(id) {
        entries[id]
    } else {
        entries[I::UNKNOWN]
    }
}

/// The registry that a list of entries makes: each entry is stored under its
/// own identifier, one after another, so that of two entries with one
/// identifier the later one stays.
pub open spec fn loaded<I: Identifiable>(list: Seq<I>) -> Map<Id, I> {
    list.fold_left(
        Map::empty(),
        |entries: Map<Id, I>, entry: I| entries.insert(entry.spec_id(), entry),
    )
}

/// Whether `list` holds the entries of `entries` and nothing else, each of
/// them once.
pub open spec fn lists<I: Identifiable>(list: Seq<I>, entries: Map<Id, I>) -> bool {
    &&& forall|place: int|
        0 <= place < list.len() ==> entries.contains_key((#[trigger] list[place]).spec_id())
            && entries[list[place].spec_id()] == list[place]
    &&& forall|id: Id| #[trigger]
        entries.contains_key(id) ==> exists|place: int|
            0 <= place < list.len() && (#[trigger] list[place]).spec_id() == id
    &&& forall|one: int, other: int|
        0 <= one < other < list.len() ==> (#[trigger] list[one]).spec_id() != (
        #[trigger] list[other]).spec_id()
}

/// The letter in lower case, for a letter of the alphabet of twenty-six in
/// upper case; every other character as it is.
pub open spec fn lowered(c: char) -> char {
    if 'A' <= c <= 'Z' {
        ((c as u8) + 32) as char
    } else {
        c
    }
}

/// Whether two names are the same but for the case of their letters.
pub open spec fn same_but_for_case(one: Seq<char>, other: Seq<char>) -> bool {
    &&& one.len() == other.len()
    &&& forall|at: int| 0 <= at < one.len() ==> lowered(#[trigger] one[at]) == lowered(other[at])
}

/// `str::eq_ignore_ascii_case`: whether the two strings are the same once
/// the letters `A` to `Z` are put in lower case.
#[verifier::external_body]
fn eq_ignore_ascii_case(one: &str, other: &str) -> (same: bool)
    ensures
        same == same_but_for_case(one@, other@),
{
    one.eq_ignore_ascii_case(other)
}

/// A list of the entries of a registry makes that registry again.
pub proof fn lemma_listed_loads<I: Identifiable>(list: Seq<I>, entries: Map<Id, I>)
    requires
        lists(list, entries),
    ensures
        loaded(list) == entries,
    decreases list.len(),
{
    if list.len() == 0 {
        assert(entries =~= Map::<Id, I>::empty());
    } else {
        let last = list.last();
        let before = entries.remove(last.spec_id());
        assert(lists(list.drop_last(), before)) by {
            assert forall|id: Id| #[trigger] before.contains_key(id) implies exists|place: int|
                0 <= place < list.drop_last().len() && (#[trigger] list.drop_last()[place]).spec_id()
                    == id by {
                let place = choose|place: int|
                    0 <= place < list.len() && (#[trigger] list[place]).spec_id() == id;
                assert(list.drop_last()[place].spec_id() == id);
            }
        }
        lemma_listed_loads(list.drop_last(), before);
        assert(entries.contains_key(last.spec_id()));
        assert(before.insert(last.spec_id(), last) =~= entries);
    }
}

/// A registry that keeps its entries in a list and finds them through a hash
/// map from identifier to place in the list.
pub struct BasicDex<I: Identifiable> {
    list: Vec<I>,
    index: IdIndex,
}

impl<I: Identifiable> BasicDex<I> {
    #[verifier::type_invariant]
    spec fn well_formed(self) -> bool {
        &&& forall|id: Id| #[trigger]
            indexed(self.index).contains_key(id) ==> indexed(self.index)[id] < self.list.len()
                && self.list[indexed(self.index)[id] as int].spec_id() == id
        &&& forall|place: int|
            0 <= place < self.list.len() ==> indexed(self.index).contains_key(
                #[trigger] self.list[place].spec_id(),
            ) && indexed(self.index)[self.list[place].spec_id()] == place
    }

    /// A registry of the entries of `list`, each stored under its own
    /// identifier. Of two entries with one identifier the later one stays.
    pub fn new(list: Vec<I>) -> (dex: Self)
        ensures
            dex.entries() == loaded(list@),
    {
        let mut dex = BasicDex::default();
        let ghost all = list@;
        for entry in entries: list
            invariant
                entries.seq() == all,
                dex.entries() == loaded(all.take(entries.index() as int)),
        {
            assert(all.take(entries.index() + 1).drop_last() == all.take(entries.index() as int));
            dex.insert(entry);
        }
        assert(all.take(all.len() as int) == all);
        dex
    }

    /// The entries of the registry as a list, each of them once.
    pub fn into_inner(self) -> (list: Vec<I>)
        ensures
            lists(list@, self.entries()),
    {
        proof {
            use_type_invariant(&self);
            assert(lists(self.list@, self.entries()));
        }
        self.list
    }

    /// The entries of the registry, each of them once.
    pub fn values(&self) -> (list: &Vec<I>)
        ensures
            lists(list@, self.entries()),
    {
        proof {
            use_type_invariant(self);
            assert(lists(self.list@, self.entries()));
        }
        &self.list
    }

    /// An entry whose name is `name` but for the case of its letters, if
    /// there is one.
    pub fn try_get_named(&self, name: &str) -> (found: Option<&I>)
        ensures
            match found {
                Some(entry) => self.entries().contains_key(entry.spec_id())
                    && self.entries()[entry.spec_id()] == *entry && same_but_for_case(
                    entry.spec_name(),
                    name@,
                ),
                None => forall|id: Id|
                    self.entries().contains_key(id) ==> !same_but_for_case(
                        #[trigger] self.entries()[id].spec_name(),
                        name@,
                    ),
            },
    {
        proof {
            use_type_invariant(self);
        }
        for place in 0..self.list.len()
            invariant
                self.well_formed(),
                forall|before: int|
                    0 <= before < place ==> !same_but_for_case(
                        #[trigger] self.list@[before].spec_name(),
                        name@,
                    ),
        {
            if eq_ignore_ascii_case(self.list[place].name(), name) {
                assert(indexed(self.index).contains_key(self.list@[place as int].spec_id()));
                return Some(&self.list[place]);
            }
        }
        None
    }

    /// Stores `entry` under its own identifier and hands back the entry that
    /// stood there before.
    pub fn insert(&mut self, entry: I) -> (displaced: Option<I>)
        ensures
            final(self).entries() == old(self).entries().insert(entry.spec_id(), entry),
            displaced == lookup(old(self).entries(), entry.spec_id()),
    {
        let mut whole = BasicDex::default();
        core::mem::swap(self, &mut whole);
        proof {
            use_type_invariant(&whole);
        }
        let BasicDex { mut list, mut index } = whole;
        let id: Id = *entry.id();
        let displaced = match index.get(id) {
            Some(place) => {
                list.push(entry);
                Some(list.swap_remove(place))
            },
            None => {
                index.insert(id, list.len());
                list.push(entry);
                None
            },
        };
        *self = BasicDex { list, index };
        assert(final(self).entries() =~= old(self).entries().insert(entry.spec_id(), entry));
        displaced
    }
}

impl<I: Identifiable> Default for BasicDex<I> {
    /// A registry without entries.
    fn default() -> (dex: Self)
        ensures
            dex.entries() == Map::<Id, I>::empty(),
    {
        let dex = BasicDex { list: Vec::new(), index: IdIndex::new() };
        assert(dex.entries() =~= Map::<Id, I>::empty());
        dex
    }
}

impl<I: Identifiable> Dex<I> for BasicDex<I> {
    closed spec fn entries(&self) -> Map<Id, I> {
        Map::new(
            |id: Id|
                indexed(self.index).contains_key(id) && indexed(self.index)[id] < self.list.len()
                    && self.list[indexed(self.index)[id] as int].spec_id() == id,
            |id: Id| self.list[indexed(self.index)[id] as int],
        )
    }

    proof fn keyed_by_id(&self) {
    }

    fn try_get(&self, id: &Id) -> (found: Option<&I>) {
        proof {
            use_type_invariant(self);
        }
        match self.index.get(*id) {
            Some(place) => Some(&self.list[place]),
            None => None,
        }
    }

    fn unknown(&self) -> (entry: &I) {
        proof {
            use_type_invariant(self);
        }
        let place: usize = self.index.get(I::UNKNOWN).unwrap();
        &self.list[place]
    }

    fn len(&self) -> (count: usize) {
        proof {
            use_type_invariant(self);
        }
        let count: usize = self.index.len();
        proof {
            lemma_ids_finite(self.entries().dom());
            assert(self.entries().dom() =~= indexed(self.index).dom());
        }
        count
    }
}

} // verus!
