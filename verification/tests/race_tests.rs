use idiots_delight::race::{is_win, Verdict, WinRace};

#[test]
fn is_win_compares_with_the_target() {
    assert!(is_win(-1, -1));
    assert!(is_win(7, 7));
    assert!(!is_win(1, -1));
    assert!(!is_win(-1, 1));
}

#[test]
fn a_new_race_is_not_won() {
    let race = WinRace::new();
    assert!(!race.is_found());
}

#[test]
fn only_the_first_try_wins() {
    let mut race = WinRace::new();
    assert!(race.try_win());
    assert!(race.is_found());
    assert!(!race.try_win());
    assert!(!race.try_win());
    assert!(race.is_found());
}

#[test]
fn a_miss_lets_the_worker_continue() {
    let mut race = WinRace::new();
    assert_eq!(race.observe(3, -1), Verdict::Continue);
    assert!(!race.is_found());
}

#[test]
fn a_hit_is_reported_and_ends_the_race() {
    let mut race = WinRace::new();
    assert_eq!(race.observe(-1, -1), Verdict::Report);
    assert!(race.is_found());
}

#[test]
fn after_a_win_every_worker_stops() {
    let mut race = WinRace::new();
    assert_eq!(race.observe(5, 5), Verdict::Report);
    assert_eq!(race.observe(3, 5), Verdict::Stop);
    assert_eq!(race.observe(5, 5), Verdict::Stop);
    assert!(race.is_found());
}

#[test]
fn two_hits_give_one_report() {
    let codes = [3i8, 7, -1, 9, -1, -1, 11];
    let mut race = WinRace::new();
    let mut reports: u32 = 0;
    let mut at = None;
    for (i, code) in codes.iter().enumerate() {
        if race.observe(*code, -1) == Verdict::Report {
            reports += 1;
            at = Some(i);
        }
    }
    assert_eq!(reports, 1);
    assert_eq!(at, Some(2));
}

#[test]
fn no_hit_gives_no_report() {
    let codes = [3i8, 7, 1, 9, 11];
    let mut race = WinRace::new();
    for code in codes.iter() {
        assert_eq!(race.observe(*code, -1), Verdict::Continue);
    }
    assert!(!race.is_found());
}
