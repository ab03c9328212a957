//! The leaf components: the running-average accumulator, the backoff token
//! and the trust classification.

use bgg_top::average::RunningAverage;
use bgg_top::backoff::RegulationToken;
use bgg_top::trust::{trust, trust_within, LOWER_BOUND, UPPER_BOUND};
use bgg_top::Config;

#[test]
fn average_starts_from_seed() {
    let avg = RunningAverage::new(7, 5250);
    assert_eq!(avg.count(), 7);
    assert_eq!(avg.total(), 5250);
}

#[test]
fn average_fold_one_at_a_time_matches_batch() {
    // Folding 7.50, 6.00, 9.00 one at a time must equal the batch mean:
    // total 2250 over 3 votes, i.e. exactly 7.50.
    let mut avg = RunningAverage::new(0, 0);
    avg.add(750);
    avg.add(600);
    avg.add(900);
    assert_eq!(avg.count(), 3);
    assert_eq!(avg.total(), 750 + 600 + 900);
    assert_eq!(avg.total() / avg.count() as u64, 750);
}

#[test]
fn average_count_is_adds_plus_seed() {
    let mut avg = RunningAverage::new(41, 100);
    avg.add(1);
    avg.add(2);
    assert_eq!(avg.count(), 43);
    assert_eq!(avg.total(), 103);
}

#[test]
fn token_fresh_has_no_delay() {
    let tkn = RegulationToken::new(20, 500);
    assert_eq!(tkn.delay(), 0);
    assert!(!tkn.is_stopped());
}

#[test]
fn token_hardens_k_times_to_k_step_delay() {
    let mut tkn = RegulationToken::new(20, 500);
    for _ in 0..4 {
        tkn.harden();
    }
    assert_eq!(tkn.delay(), 4 * 500);
    assert!(!tkn.is_stopped());
}

#[test]
fn token_stops_at_limit_and_ease_cannot_revive_it() {
    let mut tkn = RegulationToken::new(3, 100);
    tkn.harden();
    tkn.harden();
    assert!(!tkn.is_stopped());
    tkn.harden();
    assert!(tkn.is_stopped());
    tkn.ease();
    tkn.ease();
    assert!(tkn.is_stopped());
    assert_eq!(tkn.delay(), 300);
}

#[test]
fn token_ease_never_drops_below_zero() {
    let mut tkn = RegulationToken::new(10, 100);
    tkn.ease();
    assert_eq!(tkn.delay(), 0);
    tkn.harden();
    tkn.ease();
    tkn.ease();
    assert_eq!(tkn.delay(), 0);
}

#[test]
fn token_ease_undoes_one_harden() {
    let mut tkn = RegulationToken::new(10, 250);
    tkn.harden();
    tkn.harden();
    assert_eq!(tkn.delay(), 500);
    tkn.ease();
    assert_eq!(tkn.delay(), 250);
}

#[test]
fn token_with_zero_budget_is_stopped_from_the_start() {
    let tkn = RegulationToken::new(0, 500);
    assert!(tkn.is_stopped());
    assert_eq!(tkn.delay(), 0);
}

#[test]
fn trust_band_edges_are_excluded() {
    // The band is an open interval: an average exactly on a bound is
    // untrusted.
    assert!(!trust(LOWER_BOUND));
    assert!(!trust(UPPER_BOUND));
    assert!(trust(LOWER_BOUND + 1));
    assert!(trust(UPPER_BOUND - 1));
}

#[test]
fn trust_inside_and_outside_the_band() {
    assert!(trust(600));
    assert!(!trust(100));
    assert!(!trust(950));
    assert!(!trust(0));
}

#[test]
fn trust_within_takes_any_band() {
    assert!(trust_within(500, 400, 600));
    assert!(!trust_within(400, 400, 600));
    assert!(!trust_within(600, 400, 600));
}

#[test]
fn config_new_keeps_its_fields() {
    let c = Config::new(1000, 20, 500, 4);
    assert_eq!(c.limit, 1000);
    assert_eq!(c.attempts, 20);
    assert_eq!(c.delay, 500);
    assert_eq!(c.threads, 4);
}
