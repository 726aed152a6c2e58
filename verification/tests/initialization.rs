use fixed_deque::Deque;
use std::collections::VecDeque;

#[test]
fn test_initialization() {
    let mut deque: Deque<i32> = Deque::new(1024);
    assert_eq!(deque.len(), 0);
    assert_eq!(deque.maxlen(), 1024);

    deque = Deque::from(1, 128);
    assert_eq!(deque.len(), 1);
    assert_eq!(deque.maxlen(), 128);

    let deque = Deque::from_vec(vec![1, 2, 3, 4, 5], 5);
    assert_eq!(deque.len(), 5);
    assert_eq!(deque.maxlen(), 5);

    let vec_deque = VecDeque::from([1, 2, 3, 4, 5, 6, 7, 8, 9, 10]);
    let deque = Deque::from_vec_deque(vec_deque, 100);
    assert_eq!(deque.len(), 10);
    assert_eq!(deque.maxlen(), 100);
}

#[test]
fn test_initialization_with_into() {
    let deque: Deque<&str> = ("a", 1024).into();
    assert_eq!(deque.len(), 1);
    assert_eq!(deque.maxlen(), 1024);

    let mut deque: Deque<usize> = ([1, 2, 3, 4, 5, 6, 7, 8, 9, 10], 5).into();
    assert_eq!(deque.len(), 5);
    assert_eq!(deque.maxlen(), 5);

    let vec_deque = VecDeque::from([1, 2, 3, 4, 5, 6, 7, 8, 9, 10]);
    deque = (vec_deque, 100).into();
    assert_eq!(deque.len(), 10);
    assert_eq!(deque.maxlen(), 100);
}

#[test]
fn test_initialization_from_longer_than_maxlen() {
    let deque = Deque::from_vec(vec![1, 2, 3, 4, 5, 6, 7, 8, 9, 10], 5);
    assert_eq!(deque.len(), 5);
    assert_eq!(deque.maxlen(), 5);

    let vec_deque = VecDeque::from([1, 2, 3, 4, 5, 6, 7, 8, 9, 10]);
    let deque = Deque::from_vec_deque(vec_deque, 8);
    assert_eq!(deque.len(), 8);
    assert_eq!(deque.maxlen(), 8);

    let deque: Deque<i32> = ([1, 2, 3, 4, 5, 6, 7, 8, 9, 10], 5).into();
    assert_eq!(deque.len(), 5);
    assert_eq!(deque.maxlen(), 5);

    let deque: Deque<i32> = (vec![1, 2, 3, 4, 5, 6, 7, 8, 9, 10], 6).into();
    assert_eq!(deque.len(), 6);
    assert_eq!(deque.maxlen(), 6);

    let vec_deque = VecDeque::from([1, 2, 3, 4, 5, 6, 7, 8, 9, 10]);
    let deque: Deque<i32> = (vec_deque, 8).into();
    assert_eq!(deque.len(), 8);
    assert_eq!(deque.maxlen(), 8);
    assert_eq!(deque.front(), Some(&1));
    assert_eq!(deque.back(), Some(&8));
}

#[test]
fn test_from_array_preserves_order() {
    let deque: Deque<i32> = ([1, 2, 3], 16).into();
    assert_eq!(deque.len(), 3);
    assert_eq!(deque.maxlen(), 16);
    assert_eq!(deque.get(0), Some(&1));
    assert_eq!(deque.get(1), Some(&2));
    assert_eq!(deque.get(2), Some(&3));
}

#[test]
fn test_from_single_value_into() {
    let deque: Deque<i32> = (1, 3).into();
    assert_eq!(deque.len(), 1);
    assert_eq!(deque.get(0), Some(&1));
}
