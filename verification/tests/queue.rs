use std::sync::atomic::{AtomicUsize, Ordering};
use std::sync::Arc;
use std::time::Duration;
use v5_stream::queue::{
    capacity_for, queue_test, Queue, QueueCreator16k, QueueCreator1k, LARGE_STORAGE,
    SMALL_STORAGE,
};
use v5_stream::stream::MessageStreamCreator;

struct Counted {
    id: u32,
    drops: Arc<AtomicUsize>,
}

impl Drop for Counted {
    fn drop(&mut self) {
        self.drops.fetch_add(1, Ordering::SeqCst);
    }
}

fn zero() -> Option<Duration> {
    Some(Duration::new(0, 0))
}

#[test]
fn fresh_queue_is_empty_with_its_capacity() {
    for capacity in [1u32, 2, 100, 65_536, u32::MAX] {
        let queue: Queue<u64> = Queue::new(capacity);
        assert_eq!(queue.len(), 0);
        assert_eq!(queue.max_len(), capacity);
    }
}

#[test]
fn zero_capacity_queue_takes_nothing() {
    let mut queue: Queue<u8> = Queue::new(0);
    assert_eq!(queue.max_len(), 0);
    assert_eq!(queue.append(7, zero()), Err(7));
    assert_eq!(queue.prepend(7, zero()), Err(7));
    assert_eq!(queue.len(), 0);
    assert_eq!(queue.queue_receive(zero()), None);
}

#[test]
fn appended_value_is_received_as_it_was() {
    let mut queue: Queue<String> = Queue::new(4);
    assert_eq!(queue.append("payload".to_string(), None), Ok(()));
    assert_eq!(queue.len(), 1);
    assert_eq!(queue.queue_receive(None), Some("payload".to_string()));
    assert_eq!(queue.len(), 0);
}

#[test]
fn appended_value_comes_after_those_before_it() {
    let mut queue: Queue<i32> = Queue::new(3);
    assert_eq!(queue.append(10, zero()), Ok(()));
    assert_eq!(queue.append(20, zero()), Ok(()));
    assert_eq!(queue.append(30, zero()), Ok(()));
    assert_eq!(queue.len(), 3);
    assert_eq!(queue.queue_receive(zero()), Some(10));
    assert_eq!(queue.queue_receive(zero()), Some(20));
    assert_eq!(queue.len(), 1);
    assert_eq!(queue.queue_receive(zero()), Some(30));
    assert_eq!(queue.len(), 0);
}

#[test]
fn full_queue_hands_the_value_back() {
    let mut queue: Queue<Vec<u8>> = Queue::new(1);
    assert_eq!(queue.append(vec![1, 2, 3], zero()), Ok(()));
    assert_eq!(queue.append(vec![4, 5], zero()), Err(vec![4, 5]));
    assert_eq!(queue.len(), 1);
    assert_eq!(queue.prepend(vec![6], zero()), Err(vec![6]));
    assert_eq!(queue.len(), 1);
    assert_eq!(queue.queue_receive(zero()), Some(vec![1, 2, 3]));
}

#[test]
fn empty_queue_gives_nothing() {
    let mut queue: Queue<i64> = Queue::new(5);
    assert_eq!(queue.queue_receive(zero()), None);
    assert_eq!(queue.len(), 0);
    assert_eq!(queue.queue_receive(Some(Duration::from_millis(5))), None);
    assert_eq!(queue.len(), 0);
    assert_eq!(queue.peek(zero()), None);
}

#[test]
fn values_are_received_in_the_order_appended() {
    let mut queue: Queue<u32> = Queue::new(50);
    for value in 0..50u32 {
        assert_eq!(queue.append(value * 3, zero()), Ok(()));
    }
    assert_eq!(queue.len(), 50);
    for value in 0..50u32 {
        assert_eq!(queue.queue_receive(zero()), Some(value * 3));
    }
    assert_eq!(queue.queue_receive(zero()), None);
}

#[test]
fn order_holds_when_sends_and_receives_alternate() {
    let mut queue: Queue<u32> = Queue::new(2);
    assert_eq!(queue.append(1, zero()), Ok(()));
    assert_eq!(queue.append(2, zero()), Ok(()));
    assert_eq!(queue.queue_receive(zero()), Some(1));
    assert_eq!(queue.append(3, zero()), Ok(()));
    assert_eq!(queue.queue_receive(zero()), Some(2));
    assert_eq!(queue.queue_receive(zero()), Some(3));
}

#[test]
fn prepended_value_is_received_first() {
    let mut queue: Queue<char> = Queue::new(4);
    assert_eq!(queue.append('a', zero()), Ok(()));
    assert_eq!(queue.append('b', zero()), Ok(()));
    assert_eq!(queue.prepend('z', zero()), Ok(()));
    assert_eq!(queue.len(), 3);
    assert_eq!(queue.queue_receive(zero()), Some('z'));
    assert_eq!(queue.queue_receive(zero()), Some('a'));
    assert_eq!(queue.queue_receive(zero()), Some('b'));
}

#[test]
fn prepended_values_come_out_last_in_first_out() {
    let mut queue: Queue<u8> = Queue::new(3);
    assert_eq!(queue.prepend(1, None), Ok(()));
    assert_eq!(queue.prepend(2, None), Ok(()));
    assert_eq!(queue.prepend(3, None), Ok(()));
    assert_eq!(queue.queue_receive(None), Some(3));
    assert_eq!(queue.queue_receive(None), Some(2));
    assert_eq!(queue.queue_receive(None), Some(1));
}

#[test]
fn peek_copies_the_front_and_leaves_it() {
    let mut queue: Queue<u16> = Queue::new(2);
    assert_eq!(queue.append(11, zero()), Ok(()));
    assert_eq!(queue.append(22, zero()), Ok(()));
    assert_eq!(queue.peek(zero()), Some(11));
    assert_eq!(queue.peek(None), Some(11));
    assert_eq!(queue.len(), 2);
    assert_eq!(queue.queue_receive(zero()), Some(11));
    assert_eq!(queue.peek(zero()), Some(22));
}

#[test]
fn clear_empties_the_queue_whatever_it_holds() {
    for held in [0u32, 1, 3, 8] {
        let mut queue: Queue<u32> = Queue::new(8);
        for value in 0..held {
            assert_eq!(queue.append(value, zero()), Ok(()));
        }
        queue.clear();
        assert_eq!(queue.len(), 0);
        assert_eq!(queue.max_len(), 8);
        assert_eq!(queue.queue_receive(zero()), None);
        assert_eq!(queue.append(99, zero()), Ok(()));
        assert_eq!(queue.queue_receive(zero()), Some(99));
    }
}

#[test]
fn clear_drops_each_value_once() {
    let drops = Arc::new(AtomicUsize::new(0));
    let mut queue: Queue<Counted> = Queue::new(4);
    for id in 0..3 {
        assert!(queue.append(Counted { id, drops: drops.clone() }, zero()).is_ok());
    }
    assert_eq!(drops.load(Ordering::SeqCst), 0);
    queue.clear();
    assert_eq!(drops.load(Ordering::SeqCst), 3);
    assert_eq!(queue.len(), 0);
    drop(queue);
    assert_eq!(drops.load(Ordering::SeqCst), 3);
}

#[test]
fn dropping_the_queue_drops_what_it_holds() {
    let drops = Arc::new(AtomicUsize::new(0));
    let mut queue: Queue<Counted> = Queue::new(4);
    for id in 0..4 {
        assert!(queue.append(Counted { id, drops: drops.clone() }, zero()).is_ok());
    }
    let taken = queue.queue_receive(zero());
    assert_eq!(taken.as_ref().map(|counted| counted.id), Some(0));
    drop(queue);
    assert_eq!(drops.load(Ordering::SeqCst), 3);
    drop(taken);
    assert_eq!(drops.load(Ordering::SeqCst), 4);
}

#[test]
fn rejected_value_is_neither_dropped_nor_copied() {
    let drops = Arc::new(AtomicUsize::new(0));
    let mut queue: Queue<Counted> = Queue::new(1);
    assert!(queue.append(Counted { id: 1, drops: drops.clone() }, zero()).is_ok());
    let back = queue.append(Counted { id: 2, drops: drops.clone() }, zero());
    assert_eq!(drops.load(Ordering::SeqCst), 0);
    match back {
        Err(counted) => assert_eq!(counted.id, 2),
        Ok(()) => panic!("a full queue took a value"),
    }
    assert_eq!(drops.load(Ordering::SeqCst), 1);
    assert_eq!(queue.len(), 1);
}

#[test]
fn capacity_two_scenario() {
    let mut queue: Queue<i32> = Queue::new(2);
    assert_eq!(queue.append(1, None), Ok(()));
    assert_eq!(queue.append(2, None), Ok(()));
    assert_eq!(queue.append(3, Some(Duration::from_millis(100))), Err(3));
    assert_eq!(queue.len(), 2);
    assert_eq!(queue.queue_receive(None), Some(1));
    assert_eq!(queue.queue_receive(None), Some(2));
    assert_eq!(queue.queue_receive(zero()), None);
}

#[test]
fn self_test_finds_nothing_wrong() {
    assert_eq!(queue_test(), Ok(()));
}

#[test]
fn preset_capacity_is_storage_over_size_plus_one() {
    assert_eq!(SMALL_STORAGE, 1024);
    assert_eq!(LARGE_STORAGE, 16384);
    assert_eq!(capacity_for(1024, 1), 1025);
    assert_eq!(capacity_for(1024, 4), 257);
    assert_eq!(capacity_for(1024, 3), 342);
    assert_eq!(capacity_for(1024, 1024), 2);
    assert_eq!(capacity_for(1024, 1025), 1);
    assert_eq!(capacity_for(1024, usize::MAX), 1);
    assert_eq!(capacity_for(16384, 8), 2049);
    assert_eq!(capacity_for(0, 8), 1);
}

#[test]
fn small_creator_makes_an_empty_queue_of_the_preset_capacity() {
    let words: Queue<u32> = QueueCreator1k().create_stream();
    assert_eq!(words.max_len(), 257);
    assert_eq!(words.len(), 0);
    let bytes: Queue<u8> = QueueCreator1k().create_stream();
    assert_eq!(bytes.max_len(), 1025);
    let blocks: Queue<[u8; 2048]> = QueueCreator1k().create_stream();
    assert_eq!(blocks.max_len(), 1);
}

#[test]
fn large_creator_makes_an_empty_queue_of_the_preset_capacity() {
    let words: Queue<u32> = QueueCreator16k().create_stream();
    assert_eq!(words.max_len(), 4097);
    assert_eq!(words.len(), 0);
    let pairs: Queue<(u64, u64)> = QueueCreator16k().create_stream();
    assert_eq!(pairs.max_len(), 1025);
    let blocks: Queue<[u8; 16384]> = QueueCreator16k().create_stream();
    assert_eq!(blocks.max_len(), 2);
}

#[test]
fn created_queue_works_as_both_ends() {
    let creator = QueueCreator1k();
    let copy = creator;
    let mut queue: Queue<[u8; 512]> = copy.create_stream();
    assert_eq!(queue.max_len(), 3);
    assert_eq!(queue.append([1; 512], zero()), Ok(()));
    assert_eq!(queue.append([2; 512], zero()), Ok(()));
    assert_eq!(queue.append([3; 512], zero()), Ok(()));
    assert_eq!(queue.append([4; 512], zero()), Err([4; 512]));
    assert_eq!(queue.queue_receive(zero()), Some([1; 512]));
}
