use pagetop::order::order_by_weight;

#[test]
fn order_of_nothing_is_empty() {
    assert!(order_by_weight(&Vec::new()).is_empty());
}

#[test]
fn lighter_entries_come_first() {
    assert_eq!(order_by_weight(&vec![3, 2, 1]), vec![2, 1, 0]);
    assert_eq!(order_by_weight(&vec![-1, -5, 0]), vec![1, 0, 2]);
}

#[test]
fn equal_weights_keep_their_order() {
    assert_eq!(order_by_weight(&vec![0, 0, 0, 0]), vec![0, 1, 2, 3]);
    assert_eq!(order_by_weight(&vec![5, 1, 1, 3]), vec![1, 2, 3, 0]);
    assert_eq!(order_by_weight(&vec![2, 1, 2, 1, 2]), vec![1, 3, 0, 2, 4]);
}

#[test]
fn extreme_weights_are_ordered() {
    assert_eq!(order_by_weight(&vec![isize::MAX, isize::MIN, 0]), vec![1, 2, 0]);
}
