use std::sync::atomic::{AtomicUsize, Ordering};
use std::sync::Arc;
use v5_stream::sync_cell::SyncCell;

struct Counted {
    drops: Arc<AtomicUsize>,
}

impl Drop for Counted {
    fn drop(&mut self) {
        self.drops.fetch_add(1, Ordering::SeqCst);
    }
}

#[test]
fn a_value_is_dropped_once_by_whoever_holds_it_last() {
    let drops = Arc::new(AtomicUsize::new(0));
    let mut cell = SyncCell::new(Some(Box::new(Counted { drops: drops.clone() })));
    let taken = cell.swap(Some(Box::new(Counted { drops: drops.clone() })));
    assert_eq!(drops.load(Ordering::SeqCst), 0);
    drop(taken);
    assert_eq!(drops.load(Ordering::SeqCst), 1);
    drop(cell);
    assert_eq!(drops.load(Ordering::SeqCst), 2);
}

#[test]
fn swap_returns_what_was_put_in_before() {
    let mut cell: SyncCell<u32> = SyncCell::new(None);
    assert_eq!(cell.swap(Some(Box::new(1))), None);
    assert_eq!(cell.swap(Some(Box::new(2))), Some(Box::new(1)));
    assert_eq!(cell.swap(None), Some(Box::new(2)));
    assert_eq!(cell.swap(None), None);
}

#[test]
fn swap_on_an_empty_cell_returns_nothing() {
    let mut cell: SyncCell<String> = SyncCell::new(None);
    assert_eq!(cell.swap(None), None);
    assert_eq!(cell.swap(None), None);
}

#[test]
fn new_cell_holds_the_value_given() {
    let mut cell = SyncCell::new(Some(Box::new("first".to_string())));
    assert_eq!(
        cell.swap(Some(Box::new("second".to_string()))),
        Some(Box::new("first".to_string()))
    );
    assert_eq!(cell.swap(None), Some(Box::new("second".to_string())));
}

#[test]
fn default_cell_is_empty() {
    let mut cell: SyncCell<u8> = SyncCell::default();
    assert_eq!(cell.swap(Some(Box::new(3))), None);
    assert_eq!(cell.swap(None), Some(Box::new(3)));
}

#[test]
fn cell_from_a_value_a_box_or_an_option() {
    let mut from_value: SyncCell<u16> = SyncCell::from(7u16);
    assert_eq!(from_value.swap(None), Some(Box::new(7)));
    let mut from_box: SyncCell<u16> = SyncCell::from(Box::new(8u16));
    assert_eq!(from_box.swap(None), Some(Box::new(8)));
    let mut from_some: SyncCell<u16> = SyncCell::from(Some(Box::new(9u16)));
    assert_eq!(from_some.swap(None), Some(Box::new(9)));
    let mut from_none: SyncCell<u16> = SyncCell::from(None);
    assert_eq!(from_none.swap(None), None);
}

#[test]
fn every_value_that_comes_out_was_put_in() {
    let mut cell: SyncCell<u32> = SyncCell::new(Some(Box::new(0)));
    let mut expected = Some(Box::new(0u32));
    for round in 1..20u32 {
        let offered = if round % 5 == 0 { None } else { Some(Box::new(round)) };
        let taken = cell.swap(offered.clone());
        assert_eq!(taken, expected);
        expected = offered;
    }
}
