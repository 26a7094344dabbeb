use pokedex::dex::BasicDex;
use pokedex::item::stack::{ItemStack, SavedItemStack};
use pokedex::item::{Item, Stackable};

fn item(id: u16, stackable: Stackable, consume: bool) -> Item {
    Item {
        id,
        name: "Potion".to_owned(),
        description: "Heals a little".to_owned(),
        stackable,
        consume,
    }
}

#[test]
fn take_more_than_held_takes_all() {
    let potion = item(7, Stackable::Stackable(10), true);
    let mut stack = ItemStack { item: &potion, count: 6 };
    let taken = stack.take(10);
    assert_eq!(taken.count, 6);
    assert_eq!(taken.item.id, 7);
    assert_eq!(stack.count, 0);
}

#[test]
fn try_take_more_than_held_takes_nothing() {
    let potion = item(7, Stackable::Stackable(10), true);
    let mut stack = ItemStack { item: &potion, count: 6 };
    assert!(stack.try_take(10).is_none());
    assert_eq!(stack.count, 6);
}

#[test]
fn take_and_try_take_within_the_count() {
    let mut stack: SavedItemStack = ItemStack { item: 7, count: 6 };
    let taken = stack.take(4);
    assert_eq!((taken.item, taken.count, stack.count), (7, 4, 2));
    let taken = stack.try_take(2).unwrap();
    assert_eq!((taken.item, taken.count, stack.count), (7, 2, 0));
    let taken = stack.try_take(0).unwrap();
    assert_eq!((taken.count, stack.count), (0, 0));
    assert!(stack.try_take(1).is_none());
}

#[test]
fn from_makes_a_stack_of_none() {
    let stack = ItemStack::from(12u16);
    assert_eq!((stack.item, stack.count), (12, 0));
}

#[test]
fn a_unique_item_is_added_once() {
    let key = item(1, Stackable::Unique, false);
    let mut stack = ItemStack { item: &key, count: 0 };
    assert!(stack.add(1));
    assert_eq!(stack.count, 1);
    assert!(!stack.add(1));
    assert_eq!(stack.count, 1);
}

#[test]
fn add_stops_at_the_largest_count() {
    let potion = item(7, Stackable::Stackable(10), true);
    let mut stack = ItemStack { item: &potion, count: usize::MAX - 2 };
    assert!(stack.add(5));
    assert_eq!(stack.count, usize::MAX);
    let mut stack = ItemStack { item: &potion, count: 3 };
    assert!(stack.add(5));
    assert_eq!(stack.count, 8);
}

#[test]
fn stacks_divides_only_what_piles_up() {
    let potion = item(7, Stackable::Stackable(10), true);
    assert_eq!(ItemStack { item: &potion, count: 35 }.stacks(), 3);
    assert_eq!(ItemStack { item: &potion, count: 9 }.stacks(), 0);
    let ball = item(8, Stackable::Singular, true);
    assert_eq!(ItemStack { item: &ball, count: 35 }.stacks(), 35);
    let key = item(9, Stackable::Unique, false);
    assert_eq!(ItemStack { item: &key, count: 1 }.stacks(), 1);
}

#[test]
fn try_use_takes_one_of_what_is_used_up() {
    let potion = item(7, Stackable::Stackable(10), true);
    let mut stack = ItemStack { item: &potion, count: 2 };
    assert!(stack.try_use());
    assert_eq!(stack.count, 1);
    assert!(stack.try_use());
    assert_eq!(stack.count, 0);
    assert!(!stack.try_use());
    assert_eq!(stack.count, 0);
}

#[test]
fn try_use_leaves_what_is_not_used_up() {
    let rod = item(3, Stackable::Unique, false);
    let mut stack = ItemStack { item: &rod, count: 1 };
    assert!(stack.try_use());
    assert_eq!(stack.count, 1);
    let mut none = ItemStack { item: &rod, count: 0 };
    assert!(!none.try_use());
    assert_eq!(none.count, 0);
}

#[test]
fn a_stack_goes_live_and_back() {
    let mut dex = BasicDex::default();
    dex.insert(item(7, Stackable::Stackable(10), true));
    let saved: SavedItemStack = ItemStack { item: 7, count: 4 };
    let live = saved.init(&dex).unwrap();
    assert_eq!(live.item.id, 7);
    assert_eq!(live.count, 4);
    let back = live.uninit();
    assert_eq!((back.item, back.count), (7, 4));
}

#[test]
fn a_stack_of_an_item_that_is_not_registered_does_not_go_live() {
    let mut dex = BasicDex::default();
    dex.insert(item(7, Stackable::Stackable(10), true));
    dex.insert(item(0, Stackable::Singular, false));
    let saved: SavedItemStack = ItemStack { item: 8, count: 4 };
    assert!(saved.init(&dex).is_none());
}
