//! How loudly a finding is reported.

use vstd::prelude::*;

verus! {

/// The severity at which a line of the report is emitted.
#[derive(Clone, Copy, Debug, PartialEq, Eq, Structural)]
pub enum Level {
    /// Something the reader should act on.
    Warn,
    /// Nothing out of the ordinary.
    Info,
}

/// The severity owed to a count of findings: a warning as soon as there is
/// one, informational for none.
pub open spec fn level_of(count: nat) -> Level {
    if count > 0 {
        Level::Warn
    } else {
        Level::Info
    }
}

/// Classifies a count (commits ahead of upstream, or differing paths) into the
/// severity at which it is reported.
pub fn get_log_level(local: usize) -> (level: Level)
    ensures
        level == level_of(local as nat),
{
    if local > 0 {
        Level::Warn
    } else {
        Level::Info
    }
}

} // verus!
