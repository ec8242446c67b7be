use idiots_delight::dispatch::{within_budget, Dispatcher};

#[test]
fn first_claim_is_one() {
    let mut dispatcher = Dispatcher::new();
    assert_eq!(dispatcher.claimed(), 0);
    assert_eq!(dispatcher.claim(), 1);
    assert_eq!(dispatcher.claimed(), 1);
}

#[test]
fn claims_rise_by_one() {
    let mut dispatcher = Dispatcher::new();
    let mut last: u64 = 0;
    for _ in 0..1000 {
        let index = dispatcher.claim();
        assert_eq!(index, last + 1);
        last = index;
    }
    assert_eq!(dispatcher.claimed(), 1000);
}

#[test]
fn budget_admits_its_last_index_and_no_more() {
    assert!(within_budget(1, 1));
    assert!(within_budget(1, 1000));
    assert!(within_budget(1000, 1000));
    assert!(!within_budget(1001, 1000));
    assert!(!within_budget(1, 0));
    assert!(within_budget(u64::MAX, u64::MAX));
}

#[test]
fn a_budget_grants_exactly_as_many_claims() {
    for budget in [0u64, 1, 2, 17, 1000] {
        for workers in [1usize, 2, 8] {
            let mut dispatcher = Dispatcher::new();
            let mut granted: Vec<u64> = Vec::new();
            let mut running = vec![true; workers];
            // The workers claim in turn until each has been turned away.
            while running.iter().any(|r| *r) {
                for worker in 0..workers {
                    if running[worker] {
                        let index = dispatcher.claim();
                        if within_budget(index, budget) {
                            granted.push(index);
                        } else {
                            running[worker] = false;
                        }
                    }
                }
            }
            let expected: Vec<u64> = (1..=budget).collect();
            assert_eq!(granted, expected);
            assert_eq!(dispatcher.claimed(), budget + workers as u64);
        }
    }
}
