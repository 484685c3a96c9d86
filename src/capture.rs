//! The steps of capturing the current layout as the profile of the current
//! wallpaper.
use vstd::prelude::*;
use crate::identity::ResolveError;

verus! {

/// Why a capture stopped.
#[derive(Clone, Copy, Debug, PartialEq, Eq, Structural)]
pub enum CaptureError {
    /// The current wallpaper's identifier could not be resolved.
    Identity(ResolveError),
    /// A layout file could not be opened or read.
    StorageRead,
    /// A layout file or its directory could not be written.
    StorageWrite,
}

/// How far a capture has come.
pub enum CaptureStage {
    Idle,
    Preparing,
    Resolving,
    Restoring(String),
    Saving,
    Done,
}

/// What the caller reports back to the capture.
pub enum CaptureEvent {
    /// The user asked for a capture; whether the managed layout exists yet.
    Start(bool),
    /// The step asked for last was carried out.
    StepDone,
    /// The step asked for last failed.
    StepFailed(CaptureError),
    /// The identifier of the current wallpaper, or why there is none.
    Identity(Result<String, ResolveError>),
    /// The layout read back from the baseline location.
    ReadBack(Vec<u8>),
}

/// What the caller is to do next.
pub enum CaptureStep {
    /// First run: create the live slot's directory, make sure the baseline
    /// exists, and install it as the managed layout.
    InstallManaged,
    /// Reload the managed layout, so that the live slot holds it.
    ReloadManaged,
    /// Read the configuration and resolve the current identifier.
    ResolveIdentity,
    /// Load the baseline layout and read it back.
    RestoreBaseline,
    /// Store this layout as the profile of this identifier.
    Save(String, Vec<u8>),
    /// The capture is complete.
    Finished,
    /// The capture stopped; nothing more is written.
    Failed(CaptureError),
}

/// Whether `event` is one that a capture at `stage` waits for.
pub open spec fn expects(stage: CaptureStage, event: CaptureEvent) -> bool {
    match stage {
        CaptureStage::Idle | CaptureStage::Done => event is Start,
        CaptureStage::Preparing | CaptureStage::Saving => event is StepDone || event is StepFailed,
        CaptureStage::Resolving => event is Identity,
        CaptureStage::Restoring(_) => event is ReadBack || event is StepFailed,
    }
}

/// The stage a capture moves to on `event`, and the step it asks for.
pub open spec fn capture_next(stage: CaptureStage, event: CaptureEvent) -> (CaptureStage, CaptureStep) {
    match event {
        CaptureEvent::Start(installed) => (
            CaptureStage::Preparing,
            if installed {
                CaptureStep::ReloadManaged
            } else {
                CaptureStep::InstallManaged
            },
        ),
        CaptureEvent::StepFailed(e) => (CaptureStage::Done, CaptureStep::Failed(e)),
        CaptureEvent::StepDone => match stage {
            CaptureStage::Preparing => (CaptureStage::Resolving, CaptureStep::ResolveIdentity),
            _ => (CaptureStage::Done, CaptureStep::Finished),
        },
        CaptureEvent::Identity(Ok(id)) => (CaptureStage::Restoring(id), CaptureStep::RestoreBaseline),
        CaptureEvent::Identity(Err(e)) => (
            CaptureStage::Done,
            CaptureStep::Failed(CaptureError::Identity(e)),
        ),
        CaptureEvent::ReadBack(layout) => match stage {
            CaptureStage::Restoring(id) => (CaptureStage::Saving, CaptureStep::Save(id, layout)),
            _ => (CaptureStage::Done, CaptureStep::Finished),
        },
    }
}

/// One capture of the current layout, driven by the caller's reports.
pub struct CaptureCoordinator {
    stage: CaptureStage,
}

impl CaptureCoordinator {
    /// How far this capture has come.
    pub closed spec fn stage(&self) -> CaptureStage {
        self.stage
    }

    /// A capture that has not started.
    pub fn new() -> (r: CaptureCoordinator)
        ensures
            r.stage() == CaptureStage::Idle,
    {
        CaptureCoordinator { stage: CaptureStage::Idle }
    }

    /// Whether the capture waits for `event`.
    pub fn expects(&self, event: &CaptureEvent) -> (r: bool)
        ensures
            r == expects(self.stage(), *event),
    {
        match self.stage {
            CaptureStage::Idle | CaptureStage::Done => matches!(event, CaptureEvent::Start(_)),
            CaptureStage::Preparing | CaptureStage::Saving => matches!(
                event,
                CaptureEvent::StepDone | CaptureEvent::StepFailed(_)
            ),
            CaptureStage::Resolving => matches!(event, CaptureEvent::Identity(_)),
            CaptureStage::Restoring(_) => matches!(
                event,
                CaptureEvent::ReadBack(_) | CaptureEvent::StepFailed(_)
            ),
        }
    }

    /// Whether the capture has come to an end.
    pub fn is_done(&self) -> (r: bool)
        ensures
            r == self.stage() is Done,
    {
        matches!(self.stage, CaptureStage::Done)
    }

    /// Takes in `event` and returns the next step. A fresh start prepares
    /// the live slot; a prepared slot leads to resolving the identifier; a
    /// resolved identifier to reading back the baseline; the bytes read back
    /// to saving them under that identifier. Any failure ends the capture,
    /// and only an identifier that resolved can be saved to.
    pub fn advance(&mut self, event: CaptureEvent) -> (r: CaptureStep)
        requires
            expects(old(self).stage(), event),
        ensures
            (final(self).stage(), r) == capture_next(old(self).stage(), event),
    {
        let mut stage = CaptureStage::Done;
        std::mem::swap(&mut stage, &mut self.stage);
        let (next, step) = match event {
            CaptureEvent::Start(installed) => (
                CaptureStage::Preparing,
                if installed {
                    CaptureStep::ReloadManaged
                } else {
                    CaptureStep::InstallManaged
                },
            ),
            CaptureEvent::StepFailed(e) => (CaptureStage::Done, CaptureStep::Failed(e)),
            CaptureEvent::StepDone => match stage {
                CaptureStage::Preparing => (CaptureStage::Resolving, CaptureStep::ResolveIdentity),
                _ => (CaptureStage::Done, CaptureStep::Finished),
            },
            CaptureEvent::Identity(Ok(id)) => (CaptureStage::Restoring(id), CaptureStep::RestoreBaseline),
            CaptureEvent::Identity(Err(e)) => (
                CaptureStage::Done,
                CaptureStep::Failed(CaptureError::Identity(e)),
            ),
            CaptureEvent::ReadBack(layout) => match stage {
                CaptureStage::Restoring(id) => (CaptureStage::Saving, CaptureStep::Save(id, layout)),
                _ => (CaptureStage::Done, CaptureStep::Finished),
            },
        };
        self.stage = next;
        step
    }
}

} // verus!
