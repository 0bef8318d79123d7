use patient_zero::buffer::{BufferError, MessageBuffer};
use patient_zero::cache::SyncMap;

#[test]
fn new_cache_knows_no_channel() {
    let cache = SyncMap::<10>::new();
    assert_eq!(cache.len(), 0);
    assert_eq!(cache.get(1), None);
}

#[test]
fn get_creates_nothing() {
    let cache = SyncMap::<10>::new();
    assert_eq!(cache.get(42), None);
    assert_eq!(cache.get(42), None);
    assert_eq!(cache.len(), 0);
}

#[test]
fn get_or_insert_creates_an_empty_buffer() {
    let mut cache = SyncMap::<10>::new();
    let h = cache.get_or_insert(42);
    assert_eq!(cache.len(), 1);
    assert_eq!(cache.get(42), Some(h));
    assert_eq!(cache.get_last_message(h), None);
}

#[test]
fn get_or_insert_twice_gives_the_same_buffer() {
    let mut cache = SyncMap::<10>::new();
    let first = cache.get_or_insert(42);
    let second = cache.get_or_insert(42);
    assert_eq!(first, second);
    assert_eq!(cache.len(), 1);
    cache.push(first, 1, 10, 100);
    assert_eq!(cache.get_last_message(second), Some((1, 10, 100)));
    let third = cache.get_or_insert(42);
    assert_eq!(cache.get_last_message(third), Some((1, 10, 100)));
}

#[test]
fn many_lookups_of_one_channel_create_one_buffer() {
    let mut cache = SyncMap::<10>::new();
    let h = cache.get_or_insert(7);
    for _ in 0..100 {
        assert_eq!(cache.get_or_insert(7), h);
    }
    assert_eq!(cache.len(), 1);
    let other = cache.get_or_insert(8);
    assert_ne!(other, h);
    assert_eq!(cache.len(), 2);
}

#[test]
fn channels_do_not_share_buffers() {
    let mut cache = SyncMap::<3>::new();
    let a = cache.get_or_insert(1);
    let b = cache.get_or_insert(2);
    cache.push(a, 1, 10, 100);
    assert_eq!(cache.get_last_message(b), None);
    cache.push(b, 2, 20, 200);
    cache.push(b, 3, 30, 300);
    assert_eq!(cache.get_last_message(a), Some((1, 10, 100)));
    assert_eq!(cache.get_last_message(b), Some((3, 30, 300)));
}

#[test]
fn record_message_returns_the_record_before() {
    let mut cache = SyncMap::<2>::new();
    assert_eq!(cache.record_message(5, 1, 10, 100), None);
    assert_eq!(cache.record_message(5, 2, 20, 200), Some((1, 10, 100)));
    assert_eq!(cache.record_message(5, 3, 30, 300), Some((2, 20, 200)));
    assert_eq!(cache.record_message(6, 4, 40, 400), None);
    assert_eq!(cache.record_message(5, 5, 50, 500), Some((3, 30, 300)));
    assert_eq!(cache.len(), 2);
    let h = cache.get(5).unwrap();
    assert_eq!(cache.get_last_message(h), Some((5, 50, 500)));
}

#[test]
fn set_replaces_the_buffer_of_a_channel() {
    let mut cache = SyncMap::<3>::new();
    cache.record_message(1, 1, 10, 100);
    let mut fresh = MessageBuffer::<3>::new();
    fresh.push(9, 90, 900);
    cache.set(1, fresh);
    let h = cache.get(1).unwrap();
    assert_eq!(cache.get_last_message(h), Some((9, 90, 900)));
    assert_eq!(cache.len(), 1);
}

#[test]
fn set_creates_an_unknown_channel() {
    let mut cache = SyncMap::<3>::new();
    let mut fresh = MessageBuffer::<3>::new();
    fresh.push(9, 90, 900);
    cache.set(4, fresh);
    assert_eq!(cache.len(), 1);
    let h = cache.get(4).unwrap();
    assert_eq!(cache.get_last_message(h), Some((9, 90, 900)));
}

#[test]
fn delete_through_a_handle() {
    let mut cache = SyncMap::<3>::new();
    let h = cache.get_or_insert(1);
    assert_eq!(cache.delete(h, 10), Err(BufferError::Underflow));
    cache.push(h, 1, 10, 100);
    assert_eq!(cache.delete(h, 10), Err(BufferError::Underflow));
    cache.push(h, 2, 20, 200);
    assert_eq!(cache.delete(h, 30), Err(BufferError::NotFound));
    assert_eq!(cache.get_last_message(h), Some((2, 20, 200)));
    assert_eq!(cache.delete(h, 20), Ok(()));
    assert_eq!(cache.get_last_message(h), Some((1, 10, 100)));
}

#[test]
fn delete_in_one_channel_leaves_the_others() {
    let mut cache = SyncMap::<3>::new();
    let a = cache.get_or_insert(1);
    let b = cache.get_or_insert(2);
    cache.push(a, 1, 10, 100);
    cache.push(a, 2, 20, 200);
    cache.push(b, 3, 10, 300);
    cache.push(b, 4, 20, 400);
    assert_eq!(cache.delete(a, 20), Ok(()));
    assert_eq!(cache.get_last_message(a), Some((1, 10, 100)));
    assert_eq!(cache.get_last_message(b), Some((4, 20, 400)));
}
