use vstd::prelude::*;

verus! {

/// Why a schedule could not be built from the step budget it was given.
#[derive(Clone, Copy, Debug, PartialEq, Eq, Structural)]
pub enum ConfigError {
    /// The step budget is zero.
    ZeroSteps,
    /// The step budget is positive but too small to hold a warmup phase and
    /// an annealing phase that both span at least one step.
    TooFewSteps,
}

impl ConfigError {
    /// A short description of the error, for the caller to show.
    pub fn message(&self) -> (r: &'static str)
        ensures
            r@ == (match *self {
                ConfigError::ZeroSteps => "step budget must be positive"@,
                ConfigError::TooFewSteps => "step budget too small for two phases"@,
            }),
    {
        match self {
            ConfigError::ZeroSteps => "step budget must be positive",
            ConfigError::TooFewSteps => "step budget too small for two phases",
        }
    }
}

} // verus!
