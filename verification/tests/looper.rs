use looper::looper::{Looper, LooperError};

#[test]
fn basic_usage() {
    let mut looper: Looper<i32> = Looper::from_vec(vec![1, 2, 3, 4]).unwrap();

    assert_eq!(*looper.get(), 1);
    assert_eq!(*looper.get(), 2);
    assert_eq!(*looper.get(), 3);
    assert_eq!(*looper.get(), 4);
    assert_eq!(*looper.get(), 1);

    looper.set(102);
    let slot = looper.get_mut();
    *slot += 100;

    assert_eq!(*looper.get(), 4);
    assert_eq!(*looper.get(), 1);
    assert_eq!(*looper.get(), 102);
    assert_eq!(*looper.get(), 103);
}

#[test]
fn cyclic_visitation_revisits_first_slot() {
    let mut looper: Looper<i32> = Looper::from_vec(vec![10, 20, 30, 40]).unwrap();

    assert_eq!(*looper.get(), 10);
    assert_eq!(*looper.get(), 20);
    assert_eq!(*looper.get(), 30);
    assert_eq!(*looper.get(), 40);
    assert_eq!(*looper.get(), 10);
}

#[test]
fn read_reflects_latest_write() {
    let mut looper: Looper<i32> = Looper::from_vec(vec![1, 2, 3]).unwrap();

    looper.set(99);
    assert_eq!(*looper.get(), 2);
    assert_eq!(*looper.get(), 3);
    assert_eq!(*looper.get(), 99);
}

#[test]
fn every_kind_of_access_advances_once() {
    let mut looper: Looper<i32> = Looper::from_vec(vec![0, 10, 20, 30]).unwrap();

    looper.set(5);
    assert_eq!(*looper.get(), 10);
    let slot = looper.get_mut();
    assert_eq!(*slot, 20);
    assert_eq!(*looper.get(), 30);
    assert_eq!(*looper.get(), 5);
}

#[test]
fn unused_mutable_reference_still_spends_a_turn() {
    let mut looper: Looper<i32> = Looper::from_vec(vec![1, 2, 3]).unwrap();

    let _ = looper.get_mut();
    assert_eq!(*looper.get(), 2);
}

#[test]
fn construction_rejects_empty_sequence() {
    let result = Looper::<i32>::from_vec(Vec::new());
    assert_eq!(result.unwrap_err(), LooperError::EmptySequence);
}

#[test]
fn single_slot_accessor_always_targets_it() {
    let mut looper: Looper<i32> = Looper::from_vec(vec![7]).unwrap();

    assert_eq!(*looper.get(), 7);
    assert_eq!(*looper.get(), 7);
    looper.set(9);
    assert_eq!(*looper.get(), 9);
}
