use auth_backend::ranking::rank_newest_first;

#[test]
fn later_times_rank_first() {
    assert_eq!(rank_newest_first(&vec![10, 30, 20]), vec![1, 2, 0]);
    assert_eq!(rank_newest_first(&vec![1, 2, 3, 4]), vec![3, 2, 1, 0]);
    assert_eq!(rank_newest_first(&vec![4, 3, 2, 1]), vec![0, 1, 2, 3]);
    assert_eq!(rank_newest_first(&vec![0, u64::MAX]), vec![1, 0]);
}

#[test]
fn equal_times_keep_their_order() {
    assert_eq!(rank_newest_first(&vec![5, 5, 5]), vec![0, 1, 2]);
    assert_eq!(rank_newest_first(&vec![1, 9, 1, 9, 1]), vec![1, 3, 0, 2, 4]);
}

#[test]
fn short_sequences_rank_as_they_are() {
    assert_eq!(rank_newest_first(&vec![]), Vec::<usize>::new());
    assert_eq!(rank_newest_first(&vec![7]), vec![0]);
}

#[test]
fn a_ranking_lists_every_position_once() {
    let times: Vec<u64> = (0..50).map(|i| (i * 37 % 11) as u64).collect();
    let order = rank_newest_first(&times);
    let mut seen = order.clone();
    seen.sort();
    assert_eq!(seen, (0..50).collect::<Vec<usize>>());
    for pair in order.windows(2) {
        let (a, b) = (pair[0], pair[1]);
        assert!(times[a] > times[b] || (times[a] == times[b] && a < b));
    }
}
