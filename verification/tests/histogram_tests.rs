use idiots_delight::histogram::{cards_left, Histogram};

fn filled(codes: &[i8]) -> Histogram {
    let mut hist = Histogram::new();
    for code in codes.iter() {
        hist.record(*code);
    }
    hist
}

#[test]
fn new_histogram_is_empty() {
    let hist = Histogram::new();
    assert_eq!(hist.total(), 0);
    assert_eq!(hist.count(-1), 0);
    assert_eq!(hist.count(7), 0);
    assert!(hist.entries().is_empty());
}

#[test]
fn record_counts_each_code() {
    let hist = filled(&[3, -1, 3, 3, 11]);
    assert_eq!(hist.count(3), 3);
    assert_eq!(hist.count(-1), 1);
    assert_eq!(hist.count(11), 1);
    assert_eq!(hist.count(5), 0);
    assert_eq!(hist.total(), 5);
}

#[test]
fn record_inserts_a_missing_code_with_one() {
    let mut hist = Histogram::new();
    hist.record(9);
    assert_eq!(hist.count(9), 1);
    assert_eq!(hist.entries(), vec![(9i8, 1u64)]);
}

#[test]
fn entries_are_sorted_by_code() {
    let hist = filled(&[11, 3, -1, 3, 51, 3, 11]);
    assert_eq!(hist.entries(), vec![(-1i8, 1u64), (3, 3), (11, 2), (51, 1)]);
}

#[test]
fn entries_cover_the_whole_range_of_codes() {
    let hist = filled(&[127, -128, 0, -128]);
    assert_eq!(hist.entries(), vec![(-128i8, 2u64), (0, 1), (127, 1)]);
}

#[test]
fn merge_adds_counts_key_by_key() {
    let mut global = filled(&[1, 1, 3]);
    let local = filled(&[3, 3, 5, -1]);
    global.merge(&local);
    assert_eq!(global.count(-1), 1);
    assert_eq!(global.count(1), 2);
    assert_eq!(global.count(3), 3);
    assert_eq!(global.count(5), 1);
    assert_eq!(global.total(), 7);
    assert_eq!(global.entries(), vec![(-1i8, 1u64), (1, 2), (3, 3), (5, 1)]);
}

#[test]
fn merge_leaves_the_local_histogram_unchanged() {
    let mut global = filled(&[1]);
    let local = filled(&[3, 3]);
    global.merge(&local);
    assert_eq!(local.total(), 2);
    assert_eq!(local.entries(), vec![(3i8, 2u64)]);
}

#[test]
fn merge_of_an_empty_histogram_changes_nothing() {
    let mut global = filled(&[1, 5, 5]);
    let before = global.entries();
    global.merge(&Histogram::new());
    assert_eq!(global.entries(), before);
    assert_eq!(global.total(), 3);
}

#[test]
fn merge_into_an_empty_histogram_copies_the_other() {
    let mut global = Histogram::new();
    let local = filled(&[7, 7, 9]);
    global.merge(&local);
    assert_eq!(global.entries(), local.entries());
    assert_eq!(global.total(), 3);
}

#[test]
fn merged_total_is_the_sum_of_local_totals() {
    let locals = [
        filled(&[1, 3, 5]),
        filled(&[]),
        filled(&[3, 3, 3, -1]),
        filled(&[51, 1]),
    ];
    let mut global = Histogram::new();
    let mut sum: u64 = 0;
    for local in locals.iter() {
        global.merge(local);
        sum += local.total();
    }
    assert_eq!(sum, 9);
    assert_eq!(global.total(), 9);
    for code in [-1i8, 1, 3, 5, 51, 7] {
        let mut expected: u64 = 0;
        for local in locals.iter() {
            expected += local.count(code);
        }
        assert_eq!(global.count(code), expected);
    }
    assert_eq!(global.count(3), 4);
}

#[test]
fn merge_order_does_not_matter() {
    let a = filled(&[1, 3, 3]);
    let b = filled(&[3, 5, -1, -1]);
    let mut ab = Histogram::new();
    ab.merge(&a);
    ab.merge(&b);
    let mut ba = Histogram::new();
    ba.merge(&b);
    ba.merge(&a);
    assert_eq!(ab.entries(), ba.entries());
    assert_eq!(ab.total(), ba.total());
}

#[test]
fn total_is_the_sum_of_the_entries() {
    let hist = filled(&[1, 1, 1, 3, 5, 5, -1]);
    let mut sum: u64 = 0;
    for (_, count) in hist.entries() {
        sum += count;
    }
    assert_eq!(sum, hist.total());
    assert_eq!(sum, 7);
}

#[test]
fn cards_left_is_one_more_than_the_code() {
    assert_eq!(cards_left(-1), 0);
    assert_eq!(cards_left(0), 1);
    assert_eq!(cards_left(1), 2);
    assert_eq!(cards_left(51), 52);
    assert_eq!(cards_left(127), 128);
    assert_eq!(cards_left(-128), -127);
}
