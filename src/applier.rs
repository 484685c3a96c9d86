//! Putting a layout into the live slot and having the widget engine reload it.
use vstd::prelude::*;
use vstd::string::*;

verus! {

/// The widget engine's executable.
pub const RELOAD_PROGRAM: &'static str = "C:/Program Files/Rainmeter/Rainmeter.exe";

/// The directive that makes the widget engine load a layout.
pub const RELOAD_DIRECTIVE: &'static str = "!LoadLayout";

/// The layout this library manages: the one the live slot belongs to.
pub const MANAGED_PROFILE: &'static str = "wallmeter";

/// The widget engine's backup layout, which holds the baseline.
pub const BASELINE_PROFILE: &'static str = "@Backup";

/// How an apply went.
#[derive(Clone, Copy, Debug, PartialEq, Eq, Structural)]
pub enum ApplyOutcome {
    /// The layout was written and reloaded.
    Applied,
    /// The layout was written, but the reload command failed.
    ReloadFailed,
    /// The live slot could not be written; nothing was reloaded.
    WriteFailed,
}

impl ApplyOutcome {
    /// The live slot holds the new layout.
    pub open spec fn wrote(self) -> bool {
        !(self is WriteFailed)
    }

    /// Whether the live slot holds the new layout.
    pub fn live_written(&self) -> (r: bool)
        ensures
            r == self.wrote(),
    {
        !matches!(self, ApplyOutcome::WriteFailed)
    }
}

/// The outcome of an apply whose write succeeded or not and whose reload
/// succeeded or not. A reload is only attempted after a good write, and its
/// failure does not undo the write.
pub fn apply_outcome(written: bool, reloaded: bool) -> (r: ApplyOutcome)
    ensures
        !written ==> r == ApplyOutcome::WriteFailed,
        written && reloaded ==> r == ApplyOutcome::Applied,
        written && !reloaded ==> r == ApplyOutcome::ReloadFailed,
{
    if !written {
        ApplyOutcome::WriteFailed
    } else if reloaded {
        ApplyOutcome::Applied
    } else {
        ApplyOutcome::ReloadFailed
    }
}

/// The arguments of the reload command that loads layout `profile`.
pub fn reload_arguments(profile: &str) -> (r: Vec<String>)
    ensures
        r@.len() == 2,
        r@[0]@ == RELOAD_DIRECTIVE@,
        r@[1]@ == profile@,
{
    vec![String::from_str(RELOAD_DIRECTIVE), profile.to_owned()]
}

} // verus!
