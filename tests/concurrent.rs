use rembed::concurrent::{BatchScheduler, ProcessingStats};
use rembed::error::RembedError;

/// Drives a scheduler: launches what it allows, then completes the
/// in-flight items in the order `pick` chooses, failing those in `failing`.
fn run(n: usize, limit: usize, failing: &[usize], newest_first: bool) -> (Vec<usize>, usize, usize, usize, usize) {
    let mut s: BatchScheduler<usize> = BatchScheduler::start(n, limit).unwrap();
    let mut in_flight: Vec<usize> = Vec::new();
    let mut most = 0;
    loop {
        while let Some(i) = s.next_launch() {
            in_flight.push(i);
        }
        most = most.max(in_flight.len());
        if in_flight.is_empty() {
            break;
        }
        let i = if newest_first { in_flight.pop().unwrap() } else { in_flight.remove(0) };
        let outcome = if failing.contains(&i) { None } else { Some(i * 100) };
        s.complete(i, outcome);
    }
    assert!(s.is_finished());
    let (out, counts) = s.finish();
    (out, counts.successful, counts.failed, counts.total_processed, most)
}

#[test]
fn five_items_one_failing() {
    let (out, ok, failed, total, _) = run(5, 2, &[2], true);
    assert_eq!(out, vec![0, 100, 300, 400]);
    assert_eq!(ok, 4);
    assert_eq!(failed, 1);
    assert_eq!(total, 5);
}

#[test]
fn results_follow_input_order_whatever_the_completion_order() {
    let (a, ..) = run(9, 3, &[], true);
    let (b, ..) = run(9, 3, &[], false);
    assert_eq!(a, (0..9).map(|i| i * 100).collect::<Vec<_>>());
    assert_eq!(a, b);
}

#[test]
fn never_more_than_limit_in_flight() {
    let (_, _, _, _, most) = run(10, 4, &[], false);
    assert_eq!(most, 4);
    let (_, _, _, _, most) = run(3, 8, &[], false);
    assert_eq!(most, 3);
    let (_, _, _, _, most) = run(3, 0, &[], false);
    assert_eq!(most, 1);
}

#[test]
fn every_item_failing_is_no_error() {
    let (out, ok, failed, total, _) = run(3, 2, &[0, 1, 2], false);
    assert!(out.is_empty());
    assert_eq!((ok, failed, total), (0, 3, 3));
}

#[test]
fn empty_batch_is_rejected() {
    let r: Result<BatchScheduler<u8>, RembedError> = BatchScheduler::start(0, 4);
    match r {
        Err(e) => {
            assert!(matches!(e, RembedError::EmptyInput));
            assert_eq!(e.message(), "Input array cannot be empty");
        }
        Ok(_) => panic!("an empty batch must fail"),
    }
}

#[test]
fn stats_average() {
    let mut s: BatchScheduler<u8> = BatchScheduler::start(4, 4).unwrap();
    for _ in 0..4 {
        let i = s.next_launch().unwrap();
        s.complete(i, if i == 0 { None } else { Some(1) });
    }
    let (_, counts) = s.finish();
    let stats = ProcessingStats::from_counts(&counts, 1_000_003);
    assert_eq!(stats.avg_time_per_item_nanos, 250_000);
    assert_eq!(stats.successful, 3);
    assert_eq!(stats.failed, 1);
    assert_eq!(stats.total_duration_nanos, 1_000_003);
}

#[test]
fn uniform_latency_takes_ceil_n_over_c_waves() {
    for (n, c, expected) in [(10usize, 3usize, 4usize), (9, 3, 3), (1, 4, 1), (4, 4, 1), (5, 1, 5)] {
        let mut s: BatchScheduler<usize> = BatchScheduler::start(n, c).unwrap();
        let mut waves = 0;
        let mut next_expected = 0;
        loop {
            let wave = s.launch_wave();
            if wave.is_empty() {
                break;
            }
            assert!(wave.len() <= c);
            for &i in &wave {
                assert_eq!(i, next_expected);
                next_expected += 1;
            }
            for &i in &wave {
                s.complete(i, Some(i));
            }
            waves += 1;
        }
        assert_eq!(waves, expected);
        assert_eq!(s.finish().0, (0..n).collect::<Vec<_>>());
    }
}
