use raytrace::workload::{samples_for_worker, split_samples};

#[test]
fn hundred_one_samples_over_eight_threads() {
    let shares = split_samples(101, 8);
    assert_eq!(shares, vec![13, 13, 13, 13, 13, 12, 12, 12]);
    assert_eq!(shares.iter().sum::<u32>(), 101);
    assert_eq!(shares.iter().filter(|&&n| n == 13).count(), 5);
}

#[test]
fn even_budget_is_split_evenly() {
    assert_eq!(split_samples(200, 8), vec![25; 8]);
}

#[test]
fn fewer_samples_than_threads() {
    assert_eq!(split_samples(3, 5), vec![1, 1, 1, 0, 0]);
    assert_eq!(split_samples(0, 3), vec![0, 0, 0]);
}

#[test]
fn single_thread_takes_everything() {
    assert_eq!(split_samples(u32::MAX, 1), vec![u32::MAX]);
}

#[test]
fn largest_budget_adds_up() {
    let shares = split_samples(u32::MAX, 7);
    assert_eq!(shares.iter().map(|&n| n as u64).sum::<u64>(), u32::MAX as u64);
}

#[test]
fn worker_share_matches_position() {
    assert_eq!(samples_for_worker(101, 8, 0), 13);
    assert_eq!(samples_for_worker(101, 8, 4), 13);
    assert_eq!(samples_for_worker(101, 8, 5), 12);
    assert_eq!(samples_for_worker(101, 8, 7), 12);
}
