//! The persisted increments used by the step commands.
use vstd::prelude::*;

verus! {

/// Brightness step used by the step-up command when nothing has been configured.
pub const DEFAULT_POSITIVE_INCREMENT: i16 = 15;

/// Brightness step used by the step-down command when nothing has been configured.
pub const DEFAULT_NEGATIVE_INCREMENT: i16 = -15;

/// Which of the two configured increments a command refers to.
#[derive(Clone, Copy, Debug, PartialEq, Eq, Structural)]
pub enum Increment {
    Positive,
    Negative,
}

/// The two signed brightness steps. Any `i16` is accepted for either.
#[derive(Clone, Copy, Debug, PartialEq, Eq, Structural)]
pub struct Config {
    pub positive_increment: i16,
    pub negative_increment: i16,
}

impl Default for Config {
    fn default() -> (r: Self)
        ensures
            r.positive_increment == DEFAULT_POSITIVE_INCREMENT,
            r.negative_increment == DEFAULT_NEGATIVE_INCREMENT,
    {
        Config {
            positive_increment: DEFAULT_POSITIVE_INCREMENT,
            negative_increment: DEFAULT_NEGATIVE_INCREMENT,
        }
    }
}

/// The configuration with the chosen increment replaced by `value`.
pub open spec fn with_increment(cfg: Config, which: Increment, value: i16) -> Config {
    match which {
        Increment::Positive => Config { positive_increment: value, ..cfg },
        Increment::Negative => Config { negative_increment: value, ..cfg },
    }
}

impl Config {
    /// The configured step for `which`.
    pub open spec fn increment_spec(self, which: Increment) -> i16 {
        match which {
            Increment::Positive => self.positive_increment,
            Increment::Negative => self.negative_increment,
        }
    }

    /// The configured step for `which`.
    pub fn increment(&self, which: Increment) -> (r: i16)
        ensures
            r == self.increment_spec(which),
    {
        match which {
            Increment::Positive => self.positive_increment,
            Increment::Negative => self.negative_increment,
        }
    }

    /// Replaces the chosen increment by `value`, leaving the other one as it was.
    pub fn set_increment(&mut self, which: Increment, value: i16)
        ensures
            *final(self) == with_increment(*old(self), which, value),
            final(self).increment_spec(which) == value,
    {
        match which {
            Increment::Positive => self.positive_increment = value,
            Increment::Negative => self.negative_increment = value,
        }
    }
}

} // verus!
