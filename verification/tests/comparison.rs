use fixed_deque::Deque;
use std::collections::VecDeque;

#[test]
fn test_equal_deques() {
    let mut deque1: Deque<i32> = Deque::new(3);
    deque1.push_back(1);
    deque1.push_back(2);
    deque1.push_back(3);

    let mut deque2: Deque<i32> = Deque::new(3);
    deque2.push_back(1);
    deque2.push_back(2);
    deque2.push_back(3);

    assert_eq!(
        deque1, deque2,
        "Deques with the same elements should be equal"
    );
}

#[test]
fn test_unequal_deques_different_elements() {
    let mut deque1: Deque<i32> = Deque::new(3);
    deque1.push_back(1);
    deque1.push_back(2);
    deque1.push_back(3);

    let mut deque2: Deque<i32> = Deque::new(3);
    deque2.push_back(4);
    deque2.push_back(5);
    deque2.push_back(6);

    assert_ne!(
        deque1, deque2,
        "Deques with different elements should not be equal"
    );
}

#[test]
fn test_unequal_deques_different_lengths() {
    let mut deque1: Deque<i32> = Deque::new(3);
    deque1.push_back(1);
    deque1.push_back(2);

    let mut deque2: Deque<i32> = Deque::new(3);
    deque2.push_back(1);
    deque2.push_back(2);
    deque2.push_back(3);

    assert_ne!(
        deque1, deque2,
        "Deques with different lengths should not be equal"
    );
}

#[test]
fn test_empty_deques_are_equal() {
    let deque1: Deque<i32> = Deque::new(3);
    let deque2: Deque<i32> = Deque::new(3);

    assert_eq!(deque1, deque2, "Empty deques should be equal");
}

#[test]
fn test_partial_eq_with_subsequent_push_back() {
    let mut deque1: Deque<i32> = Deque::new(3);
    deque1.push_back(1);
    deque1.push_back(2);
    deque1.push_back(3);

    let mut deque2: Deque<i32> = Deque::new(3);
    deque2.push_back(1);
    deque2.push_back(2);

    assert_ne!(
        deque1, deque2,
        "Deque with missing elements should not be equal"
    );

    deque2.push_back(3);
    assert_eq!(
        deque1, deque2,
        "After pushing the same element, deques should be equal"
    );
}

#[test]
fn test_deque_eq_vecdeque() {
    let deque: Deque<i32> = Deque::from_vec(vec![5, 6, 7], 3);
    let vec_deque: VecDeque<i32> = vec![5, 6, 7].into_iter().collect();

    assert_eq!(
        deque, vec_deque,
        "Deque should be equal to VecDeque with the same elements"
    );
}

#[test]
fn test_vecdeque_eq_deque() {
    let mut deque1: Deque<i32> = Deque::new(10);
    deque1.push_back(1);
    deque1.push_back(2);
    deque1.push_back(3);

    let mut vecdeque: VecDeque<i32> = VecDeque::new();
    vecdeque.push_back(1);
    vecdeque.push_back(2);
    vecdeque.push_back(3);

    assert_eq!(
        vecdeque, deque1,
        "VecDeque should be equal to Deque with the same elements"
    );
}

#[test]
fn test_unequal_deque_and_vecdeque() {
    let mut deque1: Deque<i32> = Deque::new(3);
    deque1.push_back(1);
    deque1.push_back(2);

    let mut vecdeque: VecDeque<i32> = VecDeque::new();
    vecdeque.push_back(3);
    vecdeque.push_back(4);

    assert_ne!(
        deque1, vecdeque,
        "Deque and VecDeque with different elements should not be equal"
    );
}

#[test]
fn test_equality_ignores_maxlen() {
    let deque1: Deque<i32> = Deque::from_vec(vec![1, 2, 3], 3);
    let deque2: Deque<i32> = Deque::from_vec(vec![1, 2, 3], 100);
    assert_eq!(deque1, deque2);
    assert_ne!(deque1.maxlen(), deque2.maxlen());
}
