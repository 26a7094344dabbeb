//! A number of one item.

use vstd::prelude::*;

use crate::dex::Dex;
use crate::item::{Item, ItemId, Stackable};

verus! {

/// A number of one item. The item is an identifier in the saved form and a
/// borrow from the registry of items in the live form.
#[derive(Debug, Clone, Copy)]
pub struct ItemStack<I> {
    pub item: I,
    pub count: usize,
}

/// A stack as it is saved.
pub type SavedItemStack = ItemStack<ItemId>;

/// How many are taken out of `count` where `wanted` are asked for: as many
/// as there are, at most.
pub open spec fn taken(count: usize, wanted: usize) -> usize {
    if wanted > count {
        count
    } else {
        wanted
    }
}

/// The count after `more` were added, which stops at the largest count.
pub open spec fn raised(count: usize, more: usize) -> usize {
    if count + more > usize::MAX {
        usize::MAX
    } else {
        (count + more) as usize
    }
}

impl<I: Copy> ItemStack<I> {
    /// A stack of none of the item.
    pub fn from(item: I) -> (stack: Self)
        ensures
            stack.item == item,
            stack.count == 0,
    {
        ItemStack { item, count: 0 }
    }

    fn take_gt(&mut self, count: usize) -> (stack: Self)
        requires
            count <= old(self).count,
        ensures
            stack.item == old(self).item,
            stack.count == count,
            final(self).item == old(self).item,
            final(self).count == old(self).count - count,
    {
        self.count -= count;
        ItemStack { item: self.item, count }
    }

    /// Takes `count` of the item out of the stack, if it holds as many;
    /// otherwise nothing is taken.
    pub fn try_take(&mut self, count: usize) -> (stack: Option<Self>)
        ensures
            stack is Some <==> count <= old(self).count,
            stack is Some ==> stack.unwrap().item == old(self).item && stack.unwrap().count
                == count,
            final(self).item == old(self).item,
            final(self).count == if count <= old(self).count {
                (old(self).count - count) as usize
            } else {
                old(self).count
            },
    {
        if count > self.count {
            None
        } else {
            Some(self.take_gt(count))
        }
    }

    /// Takes `count` of the item out of the stack, or all that it holds where
    /// it holds less.
    pub fn take(&mut self, count: usize) -> (stack: Self)
        ensures
            stack.item == old(self).item,
            stack.count == taken(old(self).count, count),
            final(self).item == old(self).item,
            final(self).count == old(self).count - taken(old(self).count, count),
    {
        if count > self.count {
            let stack = ItemStack { item: self.item, count: self.count };
            self.count = 0;
            stack
        } else {
            self.take_gt(count)
        }
    }
}

impl<'d> ItemStack<&'d Item> {
    /// Whether a use of one of the items succeeds: the stack must hold one.
    pub open spec fn usable(self) -> bool {
        self.count > 0
    }

    /// The number of full stacks that the items make.
    pub open spec fn spec_stacks(self) -> nat {
        match self.item.stackable {
            Stackable::Unique | Stackable::Singular => self.count as nat,
            Stackable::Stackable(size) => (self.count / size as usize) as nat,
        }
    }

    /// Whether the stack takes more: a stack of an item of which there is at
    /// most one takes none once it holds any.
    pub open spec fn takes_more(self) -> bool {
        !(self.item.stackable == Stackable::Unique && self.count != 0)
    }

    /// Uses one of the items. This succeeds where the stack holds one, and
    /// takes it away where the item is used up by a use.
    pub fn try_use(&mut self) -> (used: bool)
        ensures
            used == old(self).usable(),
            final(self).item == old(self).item,
            final(self).count == if old(self).usable() && old(self).item.consume {
                (old(self).count - 1) as usize
            } else {
                old(self).count
            },
    {
        if self.count > 0 {
            if self.item.should_consume() {
                self.count -= 1;
            }
            true
        } else {
            false
        }
    }

    /// Adds `count` of the item, unless the stack takes no more. The count
    /// stops at the largest that a stack can hold.
    pub fn add(&mut self, count: usize) -> (added: bool)
        ensures
            added == old(self).takes_more(),
            final(self).item == old(self).item,
            final(self).count == if old(self).takes_more() {
                raised(old(self).count, count)
            } else {
                old(self).count
            },
    {
        if matches!(self.item.stackable, Stackable::Unique) && self.count != 0 {
            return false;
        }
        self.count = self.count.saturating_add(count);
        true
    }

    /// The number of full stacks that the items make: for an item that piles
    /// up, the count by the size of a stack; for any other, the count.
    pub fn stacks(&self) -> (stacks: usize)
        requires
            self.item.stackable matches Stackable::Stackable(size) ==> size > 0,
        ensures
            stacks == self.spec_stacks(),
    {
        match self.item.stackable {
            Stackable::Unique | Stackable::Singular => self.count,
            Stackable::Stackable(size) => self.count / size as usize,
        }
    }

    /// The saved form of the stack: the identifier of the item, and the
    /// count.
    pub fn uninit(self) -> (saved: SavedItemStack)
        ensures
            saved.item == self.item.id,
            saved.count == self.count,
    {
        ItemStack { item: self.item.id, count: self.count }
    }
}

impl ItemStack<ItemId> {
    /// Resolves the stack against the registry of items. There is no live
    /// stack of an item that the registry does not hold.
    pub fn init<'d, D: Dex<Item>>(self, dex: &'d D) -> (live: Option<ItemStack<&'d Item>>)
        ensures
            live is Some <==> dex.entries().contains_key(self.item),
            live is Some ==> *live.unwrap().item == dex.entries()[self.item]
                && live.unwrap().count == self.count,
    {
        match dex.try_get(&self.item) {
            Some(item) => Some(ItemStack { item, count: self.count }),
            None => None,
        }
    }
}

} // verus!
