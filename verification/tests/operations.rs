use fixed_deque::Deque;

#[test]
fn test_push_back_eviction() {
    let mut deque: Deque<i32> = Deque::new(3);
    assert_eq!(deque.push_back(1), None);
    assert_eq!(deque.push_back(2), None);
    assert_eq!(deque.push_back(3), None);
    assert_eq!(deque.len(), 3);
    let overflow = deque.push_back(4);
    assert_eq!(overflow, Some(1));
    assert_eq!(deque.len(), 3);
    assert_eq!(deque.front(), Some(&2));
    assert_eq!(deque.back(), Some(&4));
}

#[test]
fn test_push_front_eviction() {
    let mut deque = Deque::new(2);
    assert_eq!(deque.push_front(1), None);
    assert_eq!(deque.push_front(2), None);
    assert_eq!(deque.front(), Some(&2));
    assert_eq!(deque.push_front(3), Some(1));
    assert_eq!(deque.front(), Some(&3));
    assert_eq!(deque.back(), Some(&2));
    assert_eq!(deque.len(), 2);
}

#[test]
fn test_push_at_zero_maxlen() {
    let mut deque: Deque<i32> = Deque::new(0);
    assert_eq!(deque.push_back(1), Some(1));
    assert_eq!(deque.len(), 0);
    assert_eq!(deque.push_front(2), Some(2));
    assert_eq!(deque.len(), 0);
}

#[test]
fn test_pop_front_and_back() {
    let mut deque = Deque::new(3);
    deque.push_back(1);
    deque.push_back(2);
    assert_eq!(deque.pop_front(), Some(1));
    assert_eq!(deque.pop_front(), Some(2));
    assert_eq!(deque.pop_front(), None);
    deque.push_back(7);
    deque.push_back(8);
    assert_eq!(deque.pop_back(), Some(8));
    assert_eq!(deque.pop_back(), Some(7));
    assert_eq!(deque.pop_back(), None);
}

#[test]
fn test_insert_while_full_evicts_back() {
    let mut deque: Deque<i32> = Deque::from_vec(vec![1, 2, 3], 3);
    let evicted = deque.insert(1, 10);
    assert_eq!(evicted, Some(3));
    assert_eq!(deque.clone().into_vec(), vec![1, 10, 2]);
}

#[test]
fn test_insert_with_room() {
    let mut deque: Deque<i32> = Deque::from_vec(vec![1, 3], 4);
    assert_eq!(deque.insert(1, 2), None);
    assert_eq!(deque.clone().into_vec(), vec![1, 2, 3]);
    assert_eq!(deque.insert(3, 4), None);
    assert_eq!(deque.clone().into_vec(), vec![1, 2, 3, 4]);
}

#[test]
fn test_remove() {
    let mut deque: Deque<i32> = Deque::from_vec(vec![1, 2, 3], 5);
    assert_eq!(deque.remove(1), Some(2));
    assert_eq!(deque.clone().into_vec(), vec![1, 3]);
    assert_eq!(deque.remove(5), None);
    assert_eq!(deque.len(), 2);
}

#[test]
fn test_extend_evicts_from_front() {
    let mut deque: Deque<i32> = Deque::from_vec(vec![1], 3);
    deque.extend(vec![2, 3, 4, 5]);
    assert_eq!(deque.clone().into_vec(), vec![3, 4, 5]);
    assert_eq!(deque.maxlen(), 3);
}

#[test]
fn test_extend_within_capacity() {
    let mut deque: Deque<i32> = Deque::from_vec(vec![1], 5);
    deque.extend(vec![2, 3]);
    assert_eq!(deque.clone().into_vec(), vec![1, 2, 3]);
}

#[test]
fn test_extend_front_order() {
    let mut deque: Deque<i32> = Deque::from_vec(vec![4, 5], 5);
    deque.extend_front(vec![1, 2, 3]);
    assert_eq!(deque.clone().into_vec(), vec![3, 2, 1, 4, 5]);
}

#[test]
fn test_extend_front_evicts_from_back() {
    let mut deque: Deque<i32> = Deque::from_vec(vec![4, 5], 3);
    deque.extend_front(vec![1, 2, 3]);
    assert_eq!(deque.clone().into_vec(), vec![3, 2, 1]);
}

#[test]
fn test_truncate_and_clear() {
    let mut deque: Deque<i32> = Deque::from_vec(vec![1, 2, 3, 4], 10);
    deque.truncate(2);
    assert_eq!(deque.clone().into_vec(), vec![1, 2]);
    deque.truncate(9);
    assert_eq!(deque.len(), 2);
    deque.clear();
    assert_eq!(deque.len(), 0);
    assert_eq!(deque.maxlen(), 10);
}

#[test]
fn test_drain_middle() {
    let mut deque: Deque<i32> = Deque::from_vec(vec![1, 2, 3, 4, 5], 5);
    let drained = deque.drain(1, 3);
    assert_eq!(drained, vec![2, 3]);
    assert_eq!(deque.clone().into_vec(), vec![1, 4, 5]);
}

#[test]
fn test_drain_empty_range() {
    let mut deque: Deque<i32> = Deque::from_vec(vec![1, 2], 2);
    let drained = deque.drain(1, 1);
    assert_eq!(drained, Vec::<i32>::new());
    assert_eq!(deque.len(), 2);
}

#[test]
fn test_rotate_left_and_right() {
    let mut deque: Deque<i32> = Deque::from_vec(vec![1, 2, 3, 4, 5], 5);
    deque.rotate_left(2);
    assert_eq!(deque.clone().into_vec(), vec![3, 4, 5, 1, 2]);
    deque.rotate_right(2);
    assert_eq!(deque.clone().into_vec(), vec![1, 2, 3, 4, 5]);
    deque.rotate_left(5);
    assert_eq!(deque.clone().into_vec(), vec![1, 2, 3, 4, 5]);
    deque.rotate_right(0);
    assert_eq!(deque.clone().into_vec(), vec![1, 2, 3, 4, 5]);
}

#[test]
fn test_reverse_twice_restores() {
    let mut deque: Deque<i32> = Deque::from_vec(vec![1, 2, 3, 4], 4);
    let original = deque.clone();
    deque.reverse();
    assert_eq!(deque.clone().into_vec(), vec![4, 3, 2, 1]);
    deque.reverse();
    assert_eq!(deque, original);
}

#[test]
fn test_swap() {
    let mut deque: Deque<i32> = Deque::from_vec(vec![1, 2, 3, 4], 4);
    deque.swap(0, 3);
    assert_eq!(deque.clone().into_vec(), vec![4, 2, 3, 1]);
    deque.swap(2, 2);
    assert_eq!(deque.clone().into_vec(), vec![4, 2, 3, 1]);
}

#[test]
fn test_retain_keep_all_and_none() {
    let mut deque: Deque<i32> = Deque::from_vec(vec![1, 2, 3], 3);
    let original = deque.clone();
    deque.retain(|_| true);
    assert_eq!(deque, original, "retaining everything should change nothing");
    deque.retain(|_| false);
    assert_eq!(deque.len(), 0, "retaining nothing should empty the deque");
    assert_eq!(deque.maxlen(), 3);
}

#[test]
fn test_retain_keeps_order() {
    let mut deque: Deque<i32> = Deque::from_vec(vec![1, 2, 3, 4, 5, 6], 6);
    deque.retain(|x| x % 2 == 0);
    assert_eq!(deque.clone().into_vec(), vec![2, 4, 6]);
}

#[test]
fn test_retain_mut_modifies_then_decides() {
    let mut deque: Deque<i32> = Deque::from_vec(vec![1, 2, 3, 4], 4);
    deque.retain_mut(|x: i32| (x * 10, x % 2 == 0));
    assert_eq!(deque.clone().into_vec(), vec![20, 40]);
}

#[test]
fn test_invariant_holds_through_operations() {
    let mut deque: Deque<i32> = Deque::new(4);
    for i in 0..20 {
        deque.push_back(i);
        assert!(deque.len() <= deque.maxlen());
    }
    for i in 0..10 {
        deque.push_front(i);
        assert!(deque.len() <= deque.maxlen());
    }
    deque.insert(2, 99);
    assert!(deque.len() <= deque.maxlen());
    deque.extend(vec![7, 8, 9, 10, 11]);
    assert!(deque.len() <= deque.maxlen());
    deque.extend_front(vec![7, 8, 9, 10, 11]);
    assert!(deque.len() <= deque.maxlen());
    deque.reverse();
    assert!(deque.len() <= deque.maxlen());
    deque.pop_back();
    assert!(deque.len() <= deque.maxlen());
}
