use serde_iter::iterable::VecIterable;

use serde_iter::map::VecMapSink;

use serde_iter::seq::BoundedSeqSink;
use serde_iter::seq::CapacityFault;
use serde_iter::seq::VecSeqSink;

#[test]
fn seq_test_once() {
    let mut bar = VecIterable::from_vec(vec![2]);
    let value = serde_iter::seq::serialize(&mut bar, VecSeqSink::new());
    let value = value.expect("Failed to serialize");
    assert_eq!(value, vec![2]);
}

#[test]
fn seq_test_empty() {
    let mut bar: VecIterable<i32> = VecIterable::from_vec(vec![]);
    let value = serde_iter::seq::serialize(&mut bar, VecSeqSink::new());
    let value = value.expect("Failed to serialize");
    assert_eq!(value, Vec::<i32>::new());
}

#[test]
fn map_test_empty() {
    let mut bar: VecIterable<(&str, usize)> = VecIterable::from_vec(vec![]);
    let value = serde_iter::map::serialize(&mut bar, VecMapSink::new());
    let value = value.expect("Failed to serialize");
    assert_eq!(value, Vec::<(&str, usize)>::new());
}

#[test]
fn map_test_once() {
    let mut bar = VecIterable::from_vec(vec![("qux", 3)]);
    let value = serde_iter::map::serialize(&mut bar, VecMapSink::new());
    let value = value.expect("Failed to serialize");
    assert_eq!(value, vec![("qux", 3)]);
}

#[test]
fn test_vec_map() {
    let vec = vec!["abcdef", "abcdefg"];
    let pairs: Vec<(&str, usize)> = vec.iter().map(|x| (*x, x.len())).collect();
    let mut bar = VecIterable::from_vec(pairs);
    let value = serde_iter::map::serialize(&mut bar, VecMapSink::new());
    let value = value.expect("Failed to serialize");
    assert_eq!(value, vec![("abcdef", 6), ("abcdefg", 7)]);
}

#[test]
fn seq_sink_failure_propagates() {
    let mut bar = VecIterable::from_vec(vec![1, 2, 3]);
    let sink = BoundedSeqSink::with_room(2);
    let value = serde_iter::seq::serialize(&mut bar, sink);
    assert_eq!(value, Err(CapacityFault));
}

#[test]
fn seq_sink_with_enough_room_succeeds() {
    let mut bar = VecIterable::from_vec(vec![1, 2, 3]);
    let sink = BoundedSeqSink::with_room(3);
    let value = serde_iter::seq::serialize(&mut bar, sink);
    assert_eq!(value, Ok(vec![1, 2, 3]));
}

#[test]
fn seq_serialize_is_repeatable_for_plain_iterables() {
    let mut bar = VecIterable::from_vec(vec![4, 5]);
    let first = serde_iter::seq::serialize(&mut bar, VecSeqSink::new()).expect("Failed to serialize");
    let second = serde_iter::seq::serialize(&mut bar, VecSeqSink::new()).expect("Failed to serialize");
    assert_eq!(first, vec![4, 5]);
    assert_eq!(second, vec![4, 5]);
}
