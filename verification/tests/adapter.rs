use serde_iter::CloneOnce;
use serde_iter::iterable::SinglePass;
use serde_iter::iterable::VecSource;
use serde_iter::iterable::drain_to_vec;

use serde_iter::seq::VecSeqSink;

#[test]
fn adapter_clone_relocates_items() {
    let src = VecSource::from_vec(vec![1, 2, 3]);
    let mut original = CloneOnce::from(src);
    assert!(original.is_loaded());
    let copy = original.clone();
    assert!(copy.is_loaded());
    // Strict policy: the original is left empty, and iterating it would be a
    // fault; the items went to the copy, exactly once.
    assert!(!original.is_loaded());
    let mut pass = copy.into_iter();
    assert_eq!(drain_to_vec(&mut pass), vec![1, 2, 3]);
}

#[test]
fn exhausted_pass_stays_exhausted() {
    let src = VecSource::from_vec(vec![10, 20]);
    let mut original = CloneOnce::from(src);
    let copy = original.clone();
    let mut pass = copy.into_iter();
    assert_eq!(drain_to_vec(&mut pass), vec![10, 20]);
    // A second full iteration over the same, now exhausted, pass yields
    // nothing, deterministically.
    assert_eq!(drain_to_vec(&mut pass), Vec::<i32>::new());
    assert_eq!(pass.next(), None);
}

#[test]
fn adapter_serializes_once() {
    let src = VecSource::from_vec(vec![1, 2, 3]);
    let mut bar = CloneOnce::from(src);
    let value = serde_iter::seq::serialize(&mut bar, VecSeqSink::new()).expect("Failed to serialize");
    assert_eq!(value, vec![1, 2, 3]);
    // Serializing consumed the relocated iterator; the adapter is now empty
    // and a further clone or pass would be a fault.
    assert!(!bar.is_loaded());
}

#[test]
fn size_lower_bounds_remaining() {
    let src = VecSource::from_vec(vec![9, 9, 9]);
    assert_eq!(src.size_lower(), 3);
}
