use opentelemetry_sdk::common::{KeyValue, Value};
use opentelemetry_sdk::evicted_hash_map::EvictedHashMap;
use opentelemetry_sdk::evicted_queue::EvictedQueue;
use opentelemetry_sdk::resource::Resource;

fn kv(key: &str, value: i64) -> KeyValue {
    KeyValue::new(key.to_string(), Value::I64(value))
}

fn int_of(value: Option<&Value>) -> Option<i64> {
    match value {
        Some(Value::I64(n)) => Some(*n),
        _ => None,
    }
}

#[test]
fn queue_keeps_the_last_elements_in_order() {
    let mut queue = EvictedQueue::new(3);
    for i in 0..8u32 {
        queue.push_back(i);
    }
    assert_eq!(queue.len(), 3);
    assert_eq!(queue.dropped_count(), 5);
    assert_eq!(queue.get(0), Some(&5));
    assert_eq!(queue.get(1), Some(&6));
    assert_eq!(queue.get(2), Some(&7));
    assert_eq!(queue.get(3), None);
    assert_eq!(queue.max_len(), 3);
}

#[test]
fn queue_hands_out_what_it_retains() {
    let mut queue = EvictedQueue::new(3);
    for i in 0..5u32 {
        queue.push_back(i);
    }
    assert_eq!(queue.into_vec(), vec![2, 3, 4]);
    let empty: EvictedQueue<u32> = EvictedQueue::new(3);
    assert_eq!(empty.into_vec(), Vec::<u32>::new());
}

#[test]
fn queue_below_capacity_drops_nothing() {
    let mut queue = EvictedQueue::new(4);
    assert!(queue.is_empty());
    queue.push_back("a");
    queue.push_back("b");
    assert!(!queue.is_empty());
    assert_eq!(queue.len(), 2);
    assert_eq!(queue.dropped_count(), 0);
    assert_eq!(queue.get(0), Some(&"a"));
    assert_eq!(queue.get(1), Some(&"b"));
}

#[test]
fn queue_filled_exactly_drops_nothing() {
    let mut queue = EvictedQueue::new(2);
    queue.push_back(1);
    queue.push_back(2);
    assert_eq!(queue.len(), 2);
    assert_eq!(queue.dropped_count(), 0);
    queue.push_back(3);
    assert_eq!(queue.len(), 2);
    assert_eq!(queue.dropped_count(), 1);
    assert_eq!(queue.get(0), Some(&2));
    assert_eq!(queue.get(1), Some(&3));
}

#[test]
fn queue_of_capacity_zero_drops_everything() {
    let mut queue = EvictedQueue::new(0);
    queue.push_back(1);
    queue.push_back(2);
    queue.push_back(3);
    assert_eq!(queue.len(), 0);
    assert!(queue.is_empty());
    assert_eq!(queue.dropped_count(), 3);
    assert_eq!(queue.get(0), None);
}

#[test]
fn queue_append_vec_is_a_run_of_pushes() {
    let mut queue = EvictedQueue::new(3);
    queue.push_back(1);
    queue.push_back(2);
    let mut more = vec![3, 4, 5, 6];
    queue.append_vec(&mut more);
    assert!(more.is_empty());
    assert_eq!(queue.len(), 3);
    assert_eq!(queue.dropped_count(), 3);
    assert_eq!(queue.get(0), Some(&4));
    assert_eq!(queue.get(1), Some(&5));
    assert_eq!(queue.get(2), Some(&6));

    let mut pushed = EvictedQueue::new(3);
    for i in 1..=6 {
        pushed.push_back(i);
    }
    for i in 0..3 {
        assert_eq!(pushed.get(i), queue.get(i));
    }
    assert_eq!(pushed.dropped_count(), queue.dropped_count());
}

#[test]
fn queue_append_of_nothing_changes_nothing() {
    let mut queue = EvictedQueue::new(2);
    queue.push_back(9);
    let mut none: Vec<i32> = Vec::new();
    queue.append_vec(&mut none);
    assert_eq!(queue.len(), 1);
    assert_eq!(queue.dropped_count(), 0);
    assert_eq!(queue.get(0), Some(&9));
}

#[test]
fn map_refuses_new_keys_when_full() {
    let mut map = EvictedHashMap::new(2);
    map.insert(kv("a", 1));
    map.insert(kv("b", 2));
    assert_eq!(map.len(), 2);
    assert_eq!(map.dropped_count(), 0);
    map.insert(kv("c", 3));
    map.insert(kv("d", 4));
    assert_eq!(map.len(), 2);
    assert_eq!(map.dropped_count(), 2);
    assert_eq!(int_of(map.get(&"a".to_string())), Some(1));
    assert_eq!(int_of(map.get(&"b".to_string())), Some(2));
    assert!(map.get(&"c".to_string()).is_none());
    assert!(map.get(&"d".to_string()).is_none());
}

#[test]
fn map_updates_existing_keys_when_full() {
    let mut map = EvictedHashMap::new(2);
    map.insert(kv("a", 1));
    map.insert(kv("b", 2));
    map.insert(kv("a", 10));
    map.insert(kv("b", 20));
    map.insert(kv("a", 100));
    assert_eq!(map.len(), 2);
    assert_eq!(map.dropped_count(), 0);
    assert_eq!(int_of(map.get(&"a".to_string())), Some(100));
    assert_eq!(int_of(map.get(&"b".to_string())), Some(20));
}

#[test]
fn map_of_capacity_zero_drops_everything() {
    let mut map = EvictedHashMap::new(0);
    assert!(map.is_empty());
    map.insert(kv("a", 1));
    map.insert(kv("a", 2));
    assert!(map.is_empty());
    assert_eq!(map.len(), 0);
    assert_eq!(map.dropped_count(), 2);
    assert!(map.get(&"a".to_string()).is_none());
}

#[test]
fn map_entries_come_in_order_of_first_arrival() {
    let mut map = EvictedHashMap::new(3);
    map.insert(kv("x", 1));
    map.insert(kv("y", 2));
    map.insert(kv("x", 3));
    assert_eq!(map.entry(0).map(|e| e.key.clone()), Some("x".to_string()));
    assert_eq!(int_of(map.entry(0).map(|e| &e.value)), Some(3));
    assert_eq!(map.entry(1).map(|e| e.key.clone()), Some("y".to_string()));
    assert!(map.entry(2).is_none());
}

#[test]
fn value_is_written_as_text() {
    assert_eq!(Value::I64(42).to_text(), "42");
    assert_eq!(Value::I64(-7).to_text(), "-7");
    assert_eq!(Value::I64(i64::MIN).to_text(), "-9223372036854775808");
    assert_eq!(Value::Bool(true).to_text(), "true");
    assert_eq!(Value::Bool(false).to_text(), "false");
    assert_eq!(Value::String("svc".to_string()).to_text(), "svc");
}

#[test]
fn resource_keeps_the_last_value_of_a_key() {
    let resource = Resource::new(vec![kv("a", 1), kv("b", 2), kv("a", 3)]);
    assert_eq!(resource.len(), 2);
    assert_eq!(int_of(resource.get(&"a".to_string())), Some(3));
    assert_eq!(int_of(resource.get(&"b".to_string())), Some(2));
    assert!(resource.get(&"c".to_string()).is_none());
    assert!(Resource::empty().is_empty());
}

#[test]
fn resource_merge_prefers_the_other() {
    let base = Resource::new(vec![kv("a", 1), kv("b", 2)]);
    let other = Resource::new(vec![kv("b", 20), kv("c", 30)]);
    let merged = base.merge(other);
    assert_eq!(merged.len(), 3);
    assert_eq!(int_of(merged.get(&"a".to_string())), Some(1));
    assert_eq!(int_of(merged.get(&"b".to_string())), Some(20));
    assert_eq!(int_of(merged.get(&"c".to_string())), Some(30));
}
