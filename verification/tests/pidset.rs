use unix_experiments::pidset::{same_pids, sorted_pids};

#[test]
fn sorting_orders_pids_and_keeps_duplicates() {
    assert_eq!(sorted_pids(&vec![5, 3, 9, 3]), vec![3, 3, 5, 9]);
    assert_eq!(sorted_pids(&vec![]), Vec::<i32>::new());
    assert_eq!(sorted_pids(&vec![-1, 7]), vec![-1, 7]);
}

#[test]
fn same_pids_ignores_order() {
    assert!(same_pids(&vec![101, 102, 103], &vec![103, 101, 102]));
    assert!(same_pids(&vec![], &vec![]));
}

#[test]
fn same_pids_counts_multiplicity() {
    assert!(!same_pids(&vec![1, 1, 2], &vec![1, 2, 2]));
    assert!(!same_pids(&vec![1, 2], &vec![1, 2, 2]));
    assert!(!same_pids(&vec![1, 2, 3], &vec![1, 2, 4]));
}
