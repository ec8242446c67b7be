use idiots_delight::config::{trial_budget, ConfigError, DEFAULT_BUDGET, PERFECT_CLEAR};

#[test]
fn no_argument_means_the_default_budget() {
    assert_eq!(trial_budget(0, None), Ok(1_000_000_000));
    assert_eq!(DEFAULT_BUDGET, 1_000_000_000);
}

#[test]
fn one_integer_argument_is_the_budget() {
    assert_eq!(trial_budget(1, Some(1000)), Ok(1000));
    assert_eq!(trial_budget(1, Some(0)), Ok(0));
    assert_eq!(trial_budget(1, Some(u64::MAX)), Ok(u64::MAX));
}

#[test]
fn an_argument_that_is_no_integer_is_refused() {
    assert_eq!(trial_budget(1, None), Err(ConfigError::NotAnInteger));
}

#[test]
fn more_than_one_argument_is_refused() {
    assert_eq!(trial_budget(2, Some(5)), Err(ConfigError::Usage));
    assert_eq!(trial_budget(2, None), Err(ConfigError::Usage));
    assert_eq!(trial_budget(7, Some(5)), Err(ConfigError::Usage));
}

#[test]
fn a_parsed_value_without_an_argument_is_ignored() {
    assert_eq!(trial_budget(0, Some(5)), Ok(DEFAULT_BUDGET));
}

#[test]
fn errors_have_their_messages() {
    assert_eq!(ConfigError::NotAnInteger.message(), "Argument must be an integer");
    assert_eq!(ConfigError::Usage.message(), "Usage: idiots-delight [simulations]");
}

#[test]
fn perfect_clear_is_minus_one() {
    assert_eq!(PERFECT_CLEAR, -1);
}
