//! Tests of the typed stores and the double-buffered message queues.

use limnus_core::message::{MessageStorage, Messages};
use limnus_core::store::Store;

#[test]
fn store_starts_empty() {
    let s: Store<u32> = Store::new();
    assert_eq!(s.len(), 0);
    assert!(!s.contains(1));
    assert!(s.get(1).is_none());
}

#[test]
fn insert_then_get_observes_the_value() {
    let mut s: Store<u32> = Store::new();
    s.insert(7, 700);
    assert!(s.contains(7));
    assert_eq!(s.get(7), Some(&700));
    assert_eq!(s.fetch(7), &700);
    assert_eq!(s.len(), 1);
}

#[test]
fn resource_reads_are_stable_until_replaced() {
    // Repeated reads observe the same value until the key itself is
    // replaced or removed; traffic on other keys does not disturb it.
    let mut s: Store<u32> = Store::new();
    s.insert(7, 700);
    assert_eq!(s.get(7), Some(&700));
    assert_eq!(s.get(7), Some(&700));
    s.insert(8, 800);
    assert_eq!(s.get(7), Some(&700));
    s.remove(8);
    assert_eq!(s.get(7), Some(&700));
    s.insert(7, 701);
    assert_eq!(s.get(7), Some(&701));
    assert_eq!(s.remove(7), Some(701));
    assert!(s.get(7).is_none());
}

#[test]
fn insert_replaces_without_growing() {
    let mut s: Store<u32> = Store::new();
    s.insert(1, 10);
    s.insert(1, 11);
    s.insert(1, 12);
    assert_eq!(s.len(), 1);
    assert_eq!(s.get(1), Some(&12));
}

#[test]
fn remove_missing_key_returns_none() {
    let mut s: Store<u32> = Store::new();
    s.insert(1, 10);
    assert_eq!(s.remove(2), None);
    assert_eq!(s.get(1), Some(&10));
}

#[test]
fn message_ids_count_up_in_send_order() {
    let mut q: Messages<u32> = Messages::new();
    assert_eq!(q.send(10), 0);
    assert_eq!(q.send(11), 1);
    assert_eq!(q.send(12), 2);
    assert_eq!(q.iter_current(), &vec![10, 11, 12]);
    assert!(q.iter_previous().is_empty());
}

#[test]
fn send_then_swap_moves_to_previous_once() {
    let mut q: Messages<u32> = Messages::new();
    q.send(41);
    q.send(42);
    q.swap_generations();
    assert_eq!(q.iter_previous(), &vec![41, 42]);
    assert!(q.iter_current().is_empty());
}

#[test]
fn current_is_empty_right_after_a_swap() {
    let mut q: Messages<u32> = Messages::new();
    q.send(1);
    q.swap_generations();
    assert!(q.iter_current().is_empty());
}

#[test]
fn previous_is_empty_after_two_swaps_without_sends() {
    let mut q: Messages<u32> = Messages::new();
    q.send(1);
    q.swap_generations();
    q.swap_generations();
    assert!(q.iter_previous().is_empty());
    assert!(q.iter_current().is_empty());
}

#[test]
fn swap_keeps_the_next_id() {
    let mut q: Messages<u32> = Messages::new();
    q.send(1);
    q.send(2);
    q.swap_generations();
    assert_eq!(q.send(3), 2);
}

#[test]
fn storage_swap_all_swaps_every_queue() {
    let mut st: MessageStorage<u32> = MessageStorage::new();
    st.register(1);
    st.register(2);
    st.send(1, 100);
    st.send(2, 200);
    st.send(2, 201);
    st.swap_all();
    let q1 = st.get(1).unwrap();
    assert_eq!(q1.iter_previous(), &vec![100]);
    assert!(q1.iter_current().is_empty());
    let q2 = st.get(2).unwrap();
    assert_eq!(q2.iter_previous(), &vec![200, 201]);
    assert!(q2.iter_current().is_empty());
}

#[test]
fn storage_get_mut_reaches_the_queue_in_place() {
    let mut st: MessageStorage<u32> = MessageStorage::new();
    st.register(4);
    if let Some(q) = st.get_mut(4) {
        assert_eq!(q.send(40), 0);
        assert_eq!(q.send(41), 1);
    }
    assert!(st.get_mut(5).is_none());
    assert_eq!(st.get(4).unwrap().iter_current(), &vec![40, 41]);
}

#[test]
fn storage_register_creates_an_empty_queue() {
    let mut st: MessageStorage<u32> = MessageStorage::new();
    assert!(!st.contains(9));
    st.register(9);
    assert!(st.contains(9));
    let q = st.get(9).unwrap();
    assert!(q.iter_current().is_empty());
    assert!(q.iter_previous().is_empty());
}
