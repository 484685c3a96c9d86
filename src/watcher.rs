//! The decisions taken on each change of the wallpaper configuration.
use vstd::prelude::*;
use crate::applier::ApplyOutcome;
use crate::identity::ResolveError;

verus! {

/// What the watch loop is to do next.
pub enum WatchAction {
    /// The identifier could not be resolved: report it and wait.
    Report(ResolveError),
    /// The identifier is the one applied last: nothing to do.
    Unchanged,
    /// Look up the profile stored for this identifier.
    LookUp(String),
    /// No profile is stored for this identifier: report it and wait.
    NoProfile(String),
    /// Write this layout into the live slot and reload it.
    Apply(String, Vec<u8>),
}

/// The action that follows a resolution, given the identifier applied last.
pub open spec fn resolved_step(last: Seq<char>, resolved: Result<String, ResolveError>) -> WatchAction {
    match resolved {
        Err(e) => WatchAction::Report(e),
        Ok(id) => if id@ == last {
            WatchAction::Unchanged
        } else {
            WatchAction::LookUp(id)
        },
    }
}

/// The action that follows a profile lookup for `id`.
pub open spec fn lookup_step(id: String, found: Option<Vec<u8>>) -> WatchAction {
    match found {
        Some(layout) => WatchAction::Apply(id, layout),
        None => WatchAction::NoProfile(id),
    }
}

/// The identifier applied last, after an apply of `id` that went as `outcome`.
pub open spec fn applied_step(last: Seq<char>, id: Seq<char>, outcome: ApplyOutcome) -> Seq<char> {
    if outcome.wrote() {
        id
    } else {
        last
    }
}

/// One whole change event: the identifier applied last afterwards, and the
/// layout written into the live slot, if any. `found` is what the profile
/// store holds for the resolved identifier; `outcome` is how an apply went.
pub open spec fn event_cycle(
    last: Seq<char>,
    resolved: Result<String, ResolveError>,
    found: Option<Vec<u8>>,
    outcome: ApplyOutcome,
) -> (Seq<char>, Option<Seq<u8>>) {
    match resolved_step(last, resolved) {
        WatchAction::LookUp(id) => match lookup_step(id, found) {
            WatchAction::Apply(id, layout) => (
                applied_step(last, id@, outcome),
                if outcome.wrote() {
                    Some(layout@)
                } else {
                    None
                },
            ),
            _ => (last, None),
        },
        _ => (last, None),
    }
}

/// The state of the watch loop: the identifier of the layout it applied
/// last, empty before the first apply.
pub struct ChangeWatcher {
    last_applied: String,
}

impl ChangeWatcher {
    /// The identifier applied last.
    pub closed spec fn last(&self) -> Seq<char> {
        self.last_applied@
    }

    /// A watcher that has applied nothing yet.
    pub fn new() -> (r: ChangeWatcher)
        ensures
            r.last() == Seq::<char>::empty(),
    {
        ChangeWatcher { last_applied: String::new() }
    }

    /// The identifier applied last.
    pub fn last_applied(&self) -> (r: &str)
        ensures
            r@ == self.last(),
    {
        self.last_applied.as_str()
    }

    /// Decides what follows a fresh read of the configuration. A failed
    /// resolution and a repeat of the identifier applied last both end the
    /// event; a new identifier leads to a profile lookup.
    pub fn on_resolved(&self, resolved: Result<String, ResolveError>) -> (r: WatchAction)
        ensures
            r == resolved_step(self.last(), resolved),
    {
        match resolved {
            Err(e) => WatchAction::Report(e),
            Ok(id) => {
                if id == self.last_applied {
                    WatchAction::Unchanged
                } else {
                    WatchAction::LookUp(id)
                }
            },
        }
    }

    /// Decides what follows the lookup of the profile stored for `id`.
    pub fn on_lookup(&self, id: String, found: Option<Vec<u8>>) -> (r: WatchAction)
        ensures
            r == lookup_step(id, found),
    {
        match found {
            Some(layout) => WatchAction::Apply(id, layout),
            None => WatchAction::NoProfile(id),
        }
    }

    /// Records the apply of `id`: once its layout stands in the live slot it
    /// is the identifier applied last; after a failed write nothing changes.
    pub fn on_applied(&mut self, id: String, outcome: ApplyOutcome)
        ensures
            final(self).last() == applied_step(old(self).last(), id@, outcome),
    {
        if outcome.live_written() {
            self.last_applied = id;
        }
    }
}

} // verus!
