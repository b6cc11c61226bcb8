use vstd::prelude::*;

verus! {

/// An enum representing the available verbosity levels of the logger.
#[derive(Clone, Copy, Debug, PartialEq, Eq, Structural)]
pub enum Level {
    /// The "error" level.
    ///
    /// Designates very serious errors.
    Error,
    /// The "warn" level.
    ///
    /// Designates hazardous situations.
    Warn,
    /// The "info" level.
    ///
    /// Designates useful information.
    Info,
    /// The "debug" level.
    ///
    /// Designates lower priority information.
    Debug,
    /// The "trace" level.
    ///
    /// Designates very low priority, often extremely verbose, information.
    Trace,
}

impl Level {
    /// Numerical verbosity: 1 for `Error` up to 5 for `Trace`.
    pub open spec fn value(self) -> usize {
        match self {
            Level::Error => 1,
            Level::Warn => 2,
            Level::Info => 3,
            Level::Debug => 4,
            Level::Trace => 5,
        }
    }

    /// Numerical verbosity: 1 for `Error` up to 5 for `Trace`.
    pub fn as_usize(self) -> (r: usize)
        ensures
            r == self.value(),
    {
        match self {
            Level::Error => 1,
            Level::Warn => 2,
            Level::Info => 3,
            Level::Debug => 4,
            Level::Trace => 5,
        }
    }

    /// A message at this level is logged under the maximum level `max`.
    pub fn enabled(self, max: Level) -> (r: bool)
        ensures
            r == (self.value() <= max.value()),
    {
        self.as_usize() <= max.as_usize()
    }
}

} // verus!
