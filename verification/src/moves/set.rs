//! The moves of one pokemon, four at most: by identifier in the saved form,
//! and borrowed from the registry of moves in the live form.

use arrayvec::ArrayVec;
use vstd::prelude::*;

use crate::dex::Dex;
use crate::id::Id;
use crate::moves::owned::{OwnedMove, SavedMove};
use crate::moves::{Move, PP};

verus! {

/// How many moves a pokemon can hold.
pub const MOVE_SET_SIZE: usize = 4;

/// The moves of a saved pokemon, four at most.
pub type SavedMoveSet = ArrayVec<SavedMove, MOVE_SET_SIZE>;

/// `arrayvec::ArrayVec`: a vector that holds its items in place, up to a
/// fixed number of them.
#[verifier::external_type_specification]
#[verifier::external_body]
#[verifier::reject_recursive_types(T)]
pub struct ExArrayVec<T, const CAP: usize>(ArrayVec<T, CAP>);

/// The moves that a saved set holds, in their order.
pub uninterp spec fn saved_slots(set: ArrayVec<SavedMove, MOVE_SET_SIZE>) -> Seq<SavedMove>;

/// The moves that the slots of a live set hold, in their order.
pub uninterp spec fn owned_slots(set: ArrayVec<OwnedMove<'_>, MOVE_SET_SIZE>) -> Seq<OwnedMove<'_>>;

/// `ArrayVec::new`: a saved set without moves.
#[verifier::external_body]
pub(crate) fn saved_new() -> (set: SavedMoveSet)
    ensures
        saved_slots(set) == Seq::<SavedMove>::empty(),
{
    ArrayVec::new()
}

/// `ArrayVec::push`, which panics on a full vector: the move comes last.
#[verifier::external_body]
pub(crate) fn saved_push(set: &mut SavedMoveSet, slot: SavedMove)
    requires
        saved_slots(*old(set)).len() < MOVE_SET_SIZE,
    ensures
        saved_slots(*final(set)) == saved_slots(*old(set)).push(slot),
{
    set.push(slot)
}

/// `ArrayVec::as_slice`: the moves of a saved set, which are never more than
/// it has room for.
#[verifier::external_body]
pub(crate) fn saved_as_slice(set: &SavedMoveSet) -> (all: &[SavedMove])
    ensures
        all@ == saved_slots(*set),
        all@.len() <= MOVE_SET_SIZE,
{
    set.as_slice()
}

/// `ArrayVec::as_mut_slice`: the moves of a saved set, to be written to; what
/// is written there is what the set holds afterwards.
#[verifier::external_body]
pub(crate) fn saved_as_mut_slice(set: &mut SavedMoveSet) -> (all: &mut [SavedMove])
    ensures
        all@ == saved_slots(*old(set)),
        final(all)@ == saved_slots(*final(set)),
{
    set.as_mut_slice()
}

/// `ArrayVec::new`: no slot is taken.
#[verifier::external_body]
fn owned_slots_new<'d>() -> (set: ArrayVec<OwnedMove<'d>, MOVE_SET_SIZE>)
    ensures
        owned_slots(set) == Seq::<OwnedMove<'d>>::empty(),
{
    ArrayVec::new()
}

/// `ArrayVec::push`, which panics on a full vector: the move takes the next
/// slot.
#[verifier::external_body]
fn owned_slots_push<'d>(set: &mut ArrayVec<OwnedMove<'d>, MOVE_SET_SIZE>, slot: OwnedMove<'d>)
    requires
        owned_slots(*old(set)).len() < MOVE_SET_SIZE,
    ensures
        owned_slots(*final(set)) == owned_slots(*old(set)).push(slot),
{
    set.push(slot)
}

/// `ArrayVec::as_slice`: the slots that are taken, which are never more than
/// there are.
#[verifier::external_body]
fn owned_slots_as_slice<'a, 'd>(
    set: &'a ArrayVec<OwnedMove<'d>, MOVE_SET_SIZE>,
) -> (all: &'a [OwnedMove<'d>])
    ensures
        all@ == owned_slots(*set),
        all@.len() <= MOVE_SET_SIZE,
{
    set.as_slice()
}

/// `ArrayVec::as_mut_slice`: the slots that are taken, to be written to; what
/// is written there is what the slots hold afterwards.
#[verifier::external_body]
fn owned_slots_as_mut_slice<'a, 'd>(
    set: &'a mut ArrayVec<OwnedMove<'d>, MOVE_SET_SIZE>,
) -> (all: &'a mut [OwnedMove<'d>])
    ensures
        all@ == owned_slots(*old(set)),
        final(all)@ == owned_slots(*final(set)),
{
    set.as_mut_slice()
}

/// The live moves of one pokemon, in at most four slots.
#[derive(Debug)]
pub struct OwnedMoveSet<'d>(ArrayVec<OwnedMove<'d>, MOVE_SET_SIZE>);

/// The slots after the move `m` was added: it takes the next slot while one
/// is free; in a full set it takes the place of the move at `index`, and
/// without an index that names a slot the set stays as it is.
pub open spec fn added<'d>(
    set: Seq<OwnedMove<'d>>,
    index: Option<usize>,
    m: &Move,
) -> Seq<OwnedMove<'d>> {
    if set.len() < MOVE_SET_SIZE {
        set.push(OwnedMove::fresh(m))
    } else {
        match index {
            Some(index) if index < set.len() => set.update(index as int, OwnedMove::fresh(m)),
            _ => set,
        }
    }
}

/// The live forms of the moves of `saved` that `moves` holds, in their
/// order: a move that it does not hold is left out.
pub open spec fn resolved(saved: Seq<SavedMove>, moves: Map<Id, Move>) -> Seq<OwnedMove<'static>> {
    saved.filter_map(|s: SavedMove| s.resolved(moves))
}

/// No more moves are resolved than were saved.
pub proof fn lemma_resolved_len(saved: Seq<SavedMove>, moves: Map<Id, Move>)
    ensures
        resolved(saved, moves).len() <= saved.len(),
    decreases saved.len(),
{
    if saved.len() > 0 {
        lemma_resolved_len(saved.drop_last(), moves);
    }
}

impl<'d> View for OwnedMoveSet<'d> {
    type V = Seq<OwnedMove<'d>>;

    closed spec fn view(&self) -> Seq<OwnedMove<'d>> {
        owned_slots(self.0)
    }
}

impl<'d> Clone for OwnedMoveSet<'d> {
    fn clone(&self) -> (copy: Self)
        ensures
            copy@ == self@,
    {
        let all = owned_slots_as_slice(&self.0);
        let mut copy = OwnedMoveSet::new();
        for at in 0..all.len()
            invariant
                all@.len() <= MOVE_SET_SIZE,
                copy@ == all@.take(at as int),
        {
            owned_slots_push(&mut copy.0, all[at]);
            assert(all@.take(at + 1) == all@.take(at as int).push(all@[at as int]));
        }
        assert(all@.take(all@.len() as int) == all@);
        copy
    }
}

impl<'d> core::ops::Deref for OwnedMoveSet<'d> {
    type Target = [OwnedMove<'d>];

    /// The moves of the set, in their slots.
    fn deref(&self) -> (all: &[OwnedMove<'d>])
        ensures
            all@ == self@,
    {
        owned_slots_as_slice(&self.0)
    }
}

impl<'d> Default for OwnedMoveSet<'d> {
    fn default() -> (set: Self)
        ensures
            set@ == Seq::<OwnedMove<'d>>::empty(),
    {
        OwnedMoveSet::new()
    }
}

impl<'d> OwnedMoveSet<'d> {
    /// A set without moves.
    pub fn new() -> (set: Self)
        ensures
            set@ == Seq::<OwnedMove<'d>>::empty(),
    {
        OwnedMoveSet(owned_slots_new())
    }

    /// Resolves the saved moves against the registry of moves. A move that
    /// the registry does not hold is left out; the others keep their order.
    pub fn init<D: Dex<Move>>(saved: &SavedMoveSet, dex: &'d D) -> (live: Option<Self>)
        ensures
            live is Some,
            live.unwrap()@ == resolved(saved_slots(*saved), dex.entries()),
    {
        let saved = saved_as_slice(saved);
        let mut set = OwnedMoveSet::new();
        for at in 0..saved.len()
            invariant
                saved@.len() <= MOVE_SET_SIZE,
                set@ == resolved(saved@.take(at as int), dex.entries()),
        {
            assert(saved@.take(at + 1).drop_last() == saved@.take(at as int));
            proof {
                lemma_resolved_len(saved@.take(at as int), dex.entries());
            }
            if let Some(slot) = saved[at].init(dex) {
                owned_slots_push(&mut set.0, slot);
            }
        }
        assert(saved@.take(saved.len() as int) == saved@);
        Some(set)
    }

    /// How many moves the set holds.
    pub fn len(&self) -> (len: usize)
        ensures
            len == self@.len(),
            len <= MOVE_SET_SIZE,
    {
        owned_slots_as_slice(&self.0).len()
    }

    /// Whether the set holds no move.
    pub fn is_empty(&self) -> (empty: bool)
        ensures
            empty == (self@.len() == 0),
    {
        self.len() == 0
    }

    /// Whether every slot is taken.
    pub fn is_full(&self) -> (full: bool)
        ensures
            full == (self@.len() >= MOVE_SET_SIZE),
    {
        owned_slots_as_slice(&self.0).len() == MOVE_SET_SIZE
    }

    /// The move in the slot `index`, if the slot is taken.
    pub fn get(&self, index: usize) -> (slot: Option<&OwnedMove<'d>>)
        ensures
            slot is Some <==> index < self@.len(),
            slot is Some ==> *slot.unwrap() == self@[index as int],
    {
        let all = owned_slots_as_slice(&self.0);
        if index < all.len() {
            Some(&all[index])
        } else {
            None
        }
    }

    /// Adds a move with its full number of uses. While a slot is free the
    /// move takes the next one. In a full set it replaces the move at `index`;
    /// without an index that names a slot nothing happens.
    pub fn add(&mut self, index: Option<usize>, m: &'d Move)
        ensures
            final(self)@ == added(old(self)@, index, m),
            old(self)@.len() == MOVE_SET_SIZE && index is None ==> final(self)@ == old(self)@,
            old(self)@.len() == MOVE_SET_SIZE && index is Some && index.unwrap() < MOVE_SET_SIZE
                ==> final(self)@ == old(self)@.update(index.unwrap() as int, OwnedMove::fresh(m)),
    {
        let slot = OwnedMove::from(m);
        if self.is_full() {
            if let Some(index) = index {
                let all = owned_slots_as_mut_slice(&mut self.0);
                if index < all.len() {
                    all[index] = slot;
                }
            }
        } else {
            owned_slots_push(&mut self.0, slot);
        }
    }

    /// Gives every move `amount` uses back, or all of them where no amount is
    /// named.
    pub fn restore(&mut self, amount: Option<PP>)
        ensures
            final(self)@ == old(self)@.map_values(|slot: OwnedMove<'d>| slot.restored(amount)),
    {
        let all = owned_slots_as_mut_slice(&mut self.0);
        let ghost before = all@;
        let count: usize = all.len();
        for at in 0..count
            invariant
                count == before.len(),
                all@.len() == before.len(),
                forall|i: int| 0 <= i < at ==> all@[i] == before[i].restored(amount),
                forall|i: int| at <= i < before.len() ==> all@[i] == before[i],
        {
            let mut slot = all[at];
            slot.restore(amount);
            all[at] = slot;
        }
        assert(all@ =~= before.map_values(|slot: OwnedMove<'d>| slot.restored(amount)));
    }

    /// The saved form of the set: each move by its identifier, with the uses
    /// that are left.
    pub fn uninit(self) -> (saved: SavedMoveSet)
        ensures
            saved_slots(saved) == self@.map_values(|slot: OwnedMove<'d>| slot.saved()),
    {
        let all = owned_slots_as_slice(&self.0);
        let mut saved = saved_new();
        for at in 0..all.len()
            invariant
                all@.len() <= MOVE_SET_SIZE,
                saved_slots(saved).len() == at,
                forall|i: int| 0 <= i < at ==> saved_slots(saved)[i] == all@[i].saved(),
        {
            saved_push(&mut saved, all[at].uninit());
        }
        assert(saved_slots(saved) =~= self@.map_values(|slot: OwnedMove<'d>| slot.saved()));
        saved
    }
}

/// The moves of a pokemon in either form, as far as both forms allow the
/// same thing: to put a move in the place of another.
pub trait MoveSlots {
    /// A move in the form in which the set holds it.
    type Slot;

    /// The moves of the set, in their order.
    spec fn held(&self) -> Seq<Self::Slot>;

    /// Puts `slot` in the place of the move at `index`. An index that names
    /// no move of the set changes nothing.
    fn replace(&mut self, index: usize, slot: Self::Slot)
        ensures
            final(self).held() == replaced(old(self).held(), index, slot),
    ;
}

/// The moves after the move at `index` made way for `slot`.
pub open spec fn replaced<S>(set: Seq<S>, index: usize, slot: S) -> Seq<S> {
    if index < set.len() {
        set.update(index as int, slot)
    } else {
        set
    }
}

impl MoveSlots for SavedMoveSet {
    type Slot = SavedMove;

    open spec fn held(&self) -> Seq<SavedMove> {
        saved_slots(*self)
    }

    fn replace(&mut self, index: usize, slot: SavedMove) {
        let all = saved_as_mut_slice(self);
        if index < all.len() {
            all[index] = slot;
        }
    }
}

impl<'d> MoveSlots for OwnedMoveSet<'d> {
    type Slot = OwnedMove<'d>;

    open spec fn held(&self) -> Seq<OwnedMove<'d>> {
        self@
    }

    fn replace(&mut self, index: usize, slot: OwnedMove<'d>) {
        let all = owned_slots_as_mut_slice(&mut self.0);
        if index < all.len() {
            all[index] = slot;
        }
    }
}

} // verus!
