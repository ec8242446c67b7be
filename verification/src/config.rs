//! The configuration of a run, as the command line gives it.

use vstd::prelude::*;

verus! {

/// The trial budget of a run that names none.
pub const DEFAULT_BUDGET: u64 = 1_000_000_000;

/// The termination code of a perfect clear, the usual target of a win race.
pub const PERFECT_CLEAR: i8 = -1;

/// Why a command line was refused.
#[derive(Clone, Copy, Debug, PartialEq, Eq, Structural)]
pub enum ConfigError {
    /// The argument is not an integer that a budget can hold.
    NotAnInteger,
    /// More than one argument was given.
    Usage,
}

impl ConfigError {
    /// The line that tells the user what was wrong.
    pub open spec fn text(self) -> Seq<char> {
        match self {
            ConfigError::NotAnInteger => "Argument must be an integer"@,
            ConfigError::Usage => "Usage: idiots-delight [simulations]"@,
        }
    }

    /// The line that tells the user what was wrong.
    pub fn message(&self) -> (line: &'static str)
        ensures
            line@ == self.text(),
    {
        match self {
            ConfigError::NotAnInteger => "Argument must be an integer",
            ConfigError::Usage => "Usage: idiots-delight [simulations]",
        }
    }
}

/// The trial budget that a command line asks for.
///
/// `given` is the number of arguments after the program's name, and `parsed`
/// is the first of them read as an integer, if it is one. No argument means
/// the default budget, one argument is the budget itself and must be an
/// integer, and more than one is refused.
pub fn trial_budget(given: usize, parsed: Option<u64>) -> (budget: Result<u64, ConfigError>)
    ensures
        given == 0 ==> budget == Ok::<u64, ConfigError>(DEFAULT_BUDGET),
        given == 1 ==> budget == match parsed {
            Some(n) => Ok::<u64, ConfigError>(n),
            None => Err::<u64, ConfigError>(ConfigError::NotAnInteger),
        },
        given >= 2 ==> budget == Err::<u64, ConfigError>(ConfigError::Usage),
{
    if given == 0 {
        Ok(DEFAULT_BUDGET)
    } else if given == 1 {
        match parsed {
            Some(n) => Ok(n),
            None => Err(ConfigError::NotAnInteger),
        }
    } else {
        Err(ConfigError::Usage)
    }
}

} // verus!
