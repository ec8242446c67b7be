use idiots_delight::automaton::play_game;
use idiots_delight::cards::{gen_deck, Card};
use idiots_delight::dispatch::Dispatcher;
use idiots_delight::harness::{
    race_over, run_fixed_count, run_win_race, run_worker, worker_count, workers_for, Worker,
};
use idiots_delight::histogram::Histogram;

fn is_full_deck(deck: &[Card; 52]) -> bool {
    let canonical = gen_deck();
    canonical.iter().all(|card| deck.iter().filter(|other| *other == card).count() == 1)
}

fn rank_major() -> [Card; 52] {
    let canonical = gen_deck();
    let mut deck = gen_deck();
    for rank in 0..13 {
        for suit in 0..4 {
            deck[rank * 4 + suit] = canonical[suit * 13 + rank];
        }
    }
    deck
}

fn sum_of_counts(hist: &Histogram) -> u64 {
    let mut sum: u64 = 0;
    for (_, count) in hist.entries() {
        sum += count;
    }
    sum
}

#[test]
fn one_worker_with_a_budget_of_a_thousand_records_a_thousand() {
    let hist = run_fixed_count(1000, 1);
    assert_eq!(hist.total(), 1000);
    assert_eq!(sum_of_counts(&hist), 1000);
}

#[test]
fn one_worker_and_eight_workers_record_the_same_total() {
    for budget in [0u64, 1, 7, 500] {
        let one = run_fixed_count(budget, 1);
        let eight = run_fixed_count(budget, 8);
        assert_eq!(one.total(), budget);
        assert_eq!(eight.total(), budget);
        assert_eq!(sum_of_counts(&one), budget);
        assert_eq!(sum_of_counts(&eight), budget);
    }
}

#[test]
fn no_worker_records_nothing() {
    let hist = run_fixed_count(1000, 0);
    assert_eq!(hist.total(), 0);
    assert!(hist.entries().is_empty());
}

#[test]
fn recorded_codes_are_odd_and_in_range() {
    let hist = run_fixed_count(2000, 3);
    for (code, count) in hist.entries() {
        assert!(-1 <= code && code <= 51);
        assert_eq!((code + 1) % 2, 0);
        assert!(count > 0);
    }
}

#[test]
fn a_worker_uses_up_what_is_left_of_the_budget() {
    let mut dispatcher = Dispatcher::new();
    for _ in 0..30 {
        dispatcher.claim();
    }
    let local = run_worker(&mut dispatcher, 100);
    assert_eq!(local.total(), 70);
    assert_eq!(dispatcher.claimed(), 101);
}

#[test]
fn a_late_worker_claims_once_and_records_nothing() {
    let mut dispatcher = Dispatcher::new();
    let first = run_worker(&mut dispatcher, 50);
    assert_eq!(first.total(), 50);
    assert_eq!(dispatcher.claimed(), 51);
    let second = run_worker(&mut dispatcher, 50);
    assert_eq!(second.total(), 0);
    assert_eq!(dispatcher.claimed(), 52);
}

#[test]
fn trial_within_the_budget_is_played_and_recorded() {
    let mut worker = Worker::new();
    let ran = worker.trial(5, 5);
    let code = ran.expect("index 5 is within a budget of 5");
    let deck = worker.last_deck();
    let mut hand = gen_deck();
    assert_eq!(play_game(&deck, &mut hand), code);
    let local = worker.finish();
    assert_eq!(local.total(), 1);
    assert_eq!(local.count(code), 1);
}

#[test]
fn trial_past_the_budget_is_not_played() {
    let mut worker = Worker::new();
    let before = worker.last_deck();
    assert_eq!(worker.trial(6, 5), None);
    assert_eq!(worker.last_deck(), before);
    assert_eq!(worker.finish().total(), 0);
}

#[test]
fn a_worker_counts_what_it_recorded() {
    let mut worker = Worker::new();
    assert_eq!(worker.recorded(), 0);
    for index in 1..=12u64 {
        worker.trial(index, 10);
    }
    assert_eq!(worker.recorded(), 10);
    assert_eq!(worker.finish().total(), 10);
}

#[test]
fn a_new_worker_holds_the_canonical_deck() {
    let worker = Worker::new();
    assert_eq!(worker.last_deck(), gen_deck());
}

#[test]
fn play_shuffles_the_deck() {
    let mut worker = Worker::new();
    let canonical = gen_deck();
    let mut changed = false;
    let mut previous = worker.last_deck();
    for _ in 0..10 {
        worker.play();
        let deck = worker.last_deck();
        assert!(is_full_deck(&deck));
        if deck != canonical && deck != previous {
            changed = true;
        }
        previous = deck;
    }
    assert!(changed);
}

#[test]
fn play_returns_the_code_of_the_shuffled_deck() {
    let mut worker = Worker::new();
    for _ in 0..50 {
        let code = worker.play();
        let deck = worker.last_deck();
        let mut hand = gen_deck();
        assert_eq!(play_game(&deck, &mut hand), code);
    }
    assert_eq!(worker.finish().total(), 0);
}

#[test]
fn race_over_decks_reports_the_first_winner() {
    let sorted = gen_deck();
    let clear = rank_major();
    let decks = vec![sorted, sorted, clear, sorted, clear];
    assert_eq!(race_over(&decks, -1), Some(2));
    assert_eq!(race_over(&decks, 1), Some(0));
}

#[test]
fn race_over_decks_without_a_winner_reports_nothing() {
    let sorted = gen_deck();
    let decks = vec![sorted, sorted, sorted];
    assert_eq!(race_over(&decks, -1), None);
    assert_eq!(race_over(&Vec::new(), -1), None);
}

#[test]
fn win_race_reports_a_deck_that_wins() {
    let win = run_win_race(-1, 1_000_000);
    let (attempts, deck) = win.expect("a perfect clear within a million trials");
    assert!(1 <= attempts && attempts <= 1_000_000);
    assert!(is_full_deck(&deck));
    let mut hand = gen_deck();
    assert_eq!(play_game(&deck, &mut hand), -1);
}

#[test]
fn win_race_without_trials_reports_nothing() {
    assert_eq!(run_win_race(-1, 0), None);
}

#[test]
fn win_race_for_an_impossible_code_reports_nothing() {
    assert_eq!(run_win_race(0, 2000), None);
    assert_eq!(run_win_race(52, 2000), None);
}

#[test]
fn there_is_at_least_one_worker() {
    assert!(worker_count() >= 1);
}

#[test]
fn one_worker_for_each_processing_unit() {
    assert_eq!(workers_for(0), 1);
    assert_eq!(workers_for(1), 1);
    assert_eq!(workers_for(8), 8);
    assert_eq!(workers_for(usize::MAX), usize::MAX);
}
