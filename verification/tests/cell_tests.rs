use amqp_link::cell::{Cell, CellStore};

#[test]
fn new_store_is_empty() {
    let store: CellStore<u32> = CellStore::new();
    assert_eq!(store.len(), 0);
}

#[test]
fn new_cell_holds_its_value() {
    let mut store: CellStore<u32> = CellStore::new();
    let cell = Cell::new(&mut store, 7);
    assert_eq!(store.len(), 1);
    assert!(cell.is_live(&store));
    assert_eq!(*cell.get_ref(&store), 7);
    assert_eq!(cell.strong_count(&store), 1);
}

#[test]
fn clone_counts_and_does_not_copy() {
    let mut store: CellStore<String> = CellStore::new();
    let cell = Cell::new(&mut store, String::from("state"));
    let second = cell.clone(&mut store);
    let third = second.clone(&mut store);
    assert_eq!(store.len(), 1);
    assert_eq!(cell.strong_count(&store), 3);
    assert!(cell.same(&second));
    assert!(second.same(&third));
    assert_eq!(third.get_ref(&store), "state");
}

#[test]
fn write_through_one_clone_is_seen_through_all() {
    let mut store: CellStore<u32> = CellStore::new();
    let root = Cell::new(&mut store, 1);
    let mut first = root.clone(&mut store);
    let second = root.clone(&mut store);
    let third = second.clone(&mut store);
    *first.get_mut(&mut store) = 42;
    assert_eq!(*root.get_ref(&store), 42);
    assert_eq!(*first.get_ref(&store), 42);
    assert_eq!(*second.get_ref(&store), 42);
    assert_eq!(*third.get_ref(&store), 42);
    assert_eq!(root.strong_count(&store), 4);
}

#[test]
fn write_leaves_other_values_alone() {
    let mut store: CellStore<u32> = CellStore::new();
    let mut a = Cell::new(&mut store, 1);
    let b = Cell::new(&mut store, 2);
    assert!(!a.same(&b));
    *a.get_mut(&mut store) += 10;
    assert_eq!(*a.get_ref(&store), 11);
    assert_eq!(*b.get_ref(&store), 2);
    assert_eq!(b.strong_count(&store), 1);
}

#[test]
fn downgrade_does_not_count() {
    let mut store: CellStore<u32> = CellStore::new();
    let cell = Cell::new(&mut store, 5);
    let weak = cell.downgrade();
    assert_eq!(cell.strong_count(&store), 1);
    assert_eq!(weak.strong_count(&store), 1);
}

#[test]
fn upgrade_succeeds_while_a_strong_handle_lives() {
    let mut store: CellStore<u32> = CellStore::new();
    let cell = Cell::new(&mut store, 5);
    let other = cell.clone(&mut store);
    let weak = cell.downgrade();
    cell.release(&mut store);
    let mut upgraded = weak.upgrade(&mut store).expect("the value is alive");
    assert!(upgraded.same(&other));
    assert_eq!(other.strong_count(&store), 2);
    *upgraded.get_mut(&mut store) = 6;
    assert_eq!(*other.get_ref(&store), 6);
}

#[test]
fn upgrade_fails_after_the_last_strong_handle() {
    let mut store: CellStore<u32> = CellStore::new();
    let cell = Cell::new(&mut store, 5);
    let other = cell.clone(&mut store);
    let weak = cell.downgrade();
    cell.release(&mut store);
    assert!(other.is_live(&store));
    other.release(&mut store);
    assert_eq!(weak.strong_count(&store), 0);
    assert!(weak.upgrade(&mut store).is_none());
    assert!(weak.upgrade(&mut store).is_none());
    assert_eq!(weak.strong_count(&store), 0);
}

#[test]
fn a_gone_value_is_not_brought_back_by_new_ones() {
    let mut store: CellStore<u32> = CellStore::new();
    let cell = Cell::new(&mut store, 5);
    let weak = cell.downgrade();
    cell.release(&mut store);
    let fresh = Cell::new(&mut store, 9);
    assert!(weak.upgrade(&mut store).is_none());
    assert_eq!(*fresh.get_ref(&store), 9);
    assert_eq!(store.len(), 2);
}

#[test]
fn release_drops_the_count_by_one() {
    let mut store: CellStore<u32> = CellStore::new();
    let cell = Cell::new(&mut store, 5);
    let second = cell.clone(&mut store);
    let third = cell.clone(&mut store);
    second.release(&mut store);
    assert_eq!(cell.strong_count(&store), 2);
    third.release(&mut store);
    assert_eq!(cell.strong_count(&store), 1);
    assert_eq!(*cell.get_ref(&store), 5);
}

#[test]
fn a_handle_of_another_store_is_not_live() {
    let mut one: CellStore<u32> = CellStore::new();
    let other: CellStore<u32> = CellStore::new();
    let cell = Cell::new(&mut one, 5);
    assert!(!cell.is_live(&other));
    assert_eq!(cell.strong_count(&other), 0);
}
