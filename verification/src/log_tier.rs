use vstd::prelude::*;

verus! {

/// The logging tiers.
///
/// # Tiers
/// * `Info` - Information that is not an error, warning or debug
/// * `Warning` - Any warnings that do not break the system but could affect something
/// * `Debug` - Developer useful information
/// * `Error` - Any errors that have occurred and could have caused something to break
#[derive(Clone, Copy, PartialEq, Eq, Structural)]
pub enum LogTier {
    Info,
    Warning,
    Debug,
    Error,
}

impl LogTier {
    /// The numeric rank a tier is stored under: Info is 1, Error is 2,
    /// Warning is 3, Debug is 4.
    pub open spec fn spec_rank(self) -> i16 {
        match self {
            LogTier::Info => 1,
            LogTier::Error => 2,
            LogTier::Warning => 3,
            LogTier::Debug => 4,
        }
    }
}

} // verus!
