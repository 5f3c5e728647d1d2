use erc20_metrics::scheduler::{RefreshScheduler, DEFAULT_LIMIT};

#[test]
fn idle_until_the_timer_fires() {
    let mut s = RefreshScheduler::new(&vec![2, 1], 4);
    assert!(s.is_idle());
    assert_eq!(s.next_unit(), None);
    assert_eq!(s.start_ready(), vec![]);
    assert!(!s.complete(0));
    assert!(s.tick());
    assert!(!s.is_idle());
    assert!(!s.tick());
}

#[test]
fn cycle_runs_until_every_refresh_has_ended() {
    let mut s = RefreshScheduler::new(&vec![2, 1], 4);
    assert!(s.tick());
    assert_eq!(s.next_unit(), Some((0, 0)));
    assert_eq!(s.next_unit(), Some((0, 1)));
    assert_eq!(s.next_unit(), Some((1, 0)));
    assert_eq!(s.next_unit(), None);
    assert_eq!(s.in_flight(0), 2);
    assert_eq!(s.in_flight(1), 1);
    assert_eq!(s.in_flight(2), 0);
    assert!(s.complete(1));
    assert!(!s.complete(1));
    assert!(!s.complete(2));
    assert!(s.complete(0));
    assert!(!s.is_idle());
    assert!(s.complete(0));
    assert!(s.is_idle());
    assert!(!s.complete(0));
    // The next cycle starts over.
    assert!(s.tick());
    assert_eq!(s.start_ready(), vec![(0, 0), (0, 1), (1, 0)]);
}

#[test]
fn limit_at_least_the_number_of_tokens_starts_all_at_once() {
    let mut s = RefreshScheduler::new(&vec![5, 3], 5);
    assert!(s.tick());
    let units = s.start_ready();
    assert_eq!(units, vec![(0, 0), (0, 1), (0, 2), (0, 3), (0, 4), (1, 0), (1, 1), (1, 2)]);
    assert_eq!(s.in_flight(0), 5);
    assert_eq!(s.in_flight(1), 3);
    assert_eq!(s.next_unit(), None);
}

#[test]
fn limit_bounds_what_is_under_way_on_each_chain() {
    let mut s = RefreshScheduler::new(&vec![5, 1], 2);
    assert!(s.tick());
    assert_eq!(s.start_ready(), vec![(0, 0), (0, 1), (1, 0)]);
    assert_eq!(s.in_flight(0), 2);
    assert_eq!(s.next_unit(), None);
    assert!(s.complete(0));
    assert_eq!(s.in_flight(0), 1);
    assert_eq!(s.next_unit(), Some((0, 2)));
    assert_eq!(s.next_unit(), None);
    assert!(s.complete(0));
    assert!(s.complete(0));
    assert_eq!(s.start_ready(), vec![(0, 3), (0, 4)]);
    assert!(s.complete(0));
    assert!(s.complete(0));
    assert!(!s.is_idle());
    assert!(s.complete(1));
    assert!(s.is_idle());
}

#[test]
fn a_stalled_chain_does_not_hold_up_another() {
    // Nothing ever ends on chain 0.
    let mut s = RefreshScheduler::new(&vec![3, 4], 1);
    assert!(s.tick());
    assert_eq!(s.start_ready(), vec![(0, 0), (1, 0)]);
    for token in 1..4 {
        assert!(s.complete(1));
        assert_eq!(s.next_unit(), Some((1, token)));
        assert_eq!(s.next_unit(), None);
    }
    assert!(s.complete(1));
    assert_eq!(s.in_flight(1), 0);
    assert_eq!(s.in_flight(0), 1);
    assert!(!s.is_idle());
    assert!(!s.tick());
}

#[test]
fn cycle_without_tokens_is_over_at_once() {
    let mut s = RefreshScheduler::new(&vec![], 4);
    assert!(s.tick());
    assert!(s.is_idle());
    let mut s = RefreshScheduler::new(&vec![0, 0], 4);
    assert!(s.tick());
    assert!(s.is_idle());
    assert_eq!(s.next_unit(), None);
    assert!(s.tick());
}

#[test]
fn limit_zero_is_taken_as_one() {
    let mut s = RefreshScheduler::new(&vec![2], 0);
    assert!(s.tick());
    assert_eq!(s.start_ready(), vec![(0, 0)]);
    assert!(s.complete(0));
    assert_eq!(s.start_ready(), vec![(0, 1)]);
    assert!(s.complete(0));
    assert!(s.is_idle());
}

#[test]
fn default_limit_is_small() {
    assert_eq!(DEFAULT_LIMIT, 4);
    let mut s = RefreshScheduler::new(&vec![10], DEFAULT_LIMIT);
    assert!(s.tick());
    assert_eq!(s.start_ready().len(), 4);
}
