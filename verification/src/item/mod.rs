//! Items: what a player carries or a pokemon holds.

use vstd::prelude::*;

use crate::id::{Id, Identifiable};

pub mod stack;



verus! {

/// The identifier of an item.
pub type ItemId = Id;

/// How many of an item one stack holds.
pub type StackSize = u16;

/// How an item piles up.
#[derive(Debug, Clone, Copy, PartialEq, Eq, Structural)]
pub enum Stackable {
    /// There is at most one of it.
    Unique,
    /// Each one is a stack of its own.
    Singular,
    /// So many make one stack.
    Stackable(StackSize),
}

/// An item as the registry of items describes it.
#[derive(Debug, Clone)]
pub struct Item {
    pub id: ItemId,
    pub name: String,
    pub description: String,
    pub stackable: Stackable,
    pub consume: bool,
}

impl Item {
    /// Whether a use of the item uses it up.
    pub fn should_consume(&self) -> (consume: bool)
        ensures
            consume == self.consume,
    {
        self.consume
    }
}

impl Identifiable for Item {
    const UNKNOWN: Id = 0;

    open spec fn spec_id(&self) -> Id {
        self.id
    }

    open spec fn spec_name(&self) -> Seq<char> {
        self.name@
    }

    fn id(&self) -> (id: &Id) {
        &self.id
    }

    fn name(&self) -> (name: &str) {
        self.name.as_str()
    }
}

} // verus!
