//! Editor lifecycle controller: creates and discards the cooperative GUI
//! driver in response to the host's open and close requests, and forwards
//! each idle tick as exactly one resume. At most one driver is alive at a
//! time; opening over a live session first tears the old one down, so no
//! session and none of its resources can leak.
use crate::gui::GuiAction;
use crate::gui::GuiDriver;
use crate::gui::Phase;
use crate::gui::ResumeInput;
use crate::gui::StepOutcome;
use crate::gui::accepts_input;
use crate::gui::spec_resume;
use crate::params::WhisperParameters;
use vstd::prelude::*;

verus! {

/// Fixed width of the editor's drawing area, in pixels.
pub const EDITOR_WIDTH: u32 = 600;

/// Fixed height of the editor's drawing area, in pixels.
pub const EDITOR_HEIGHT: u32 = 300;

/// The controller: the current GUI session, if one is open. The session's
/// native resources are owned by the host adapter; the controller decides
/// when they must be released and says so through the returned actions,
/// which the adapter performs.
pub struct EditorController {
    /// The live session's driver, between an open and its close,
    /// completion, or replacement.
    pub session: Option<GuiDriver>,
}

impl EditorController {
    /// A controller with no session.
    pub fn new() -> (r: EditorController)
        ensures
            r.session is None,
    {
        EditorController { session: None }
    }

    /// The editor's fixed reported dimensions; no side effect.
    pub fn size(&self) -> (r: (i32, i32))
        ensures
            r.0 == EDITOR_WIDTH as i32,
            r.1 == EDITOR_HEIGHT as i32,
    {
        (600, 300)
    }

    /// The editor's fixed reported origin; no side effect.
    pub fn position(&self) -> (r: (i32, i32))
        ensures
            r.0 == 0,
            r.1 == 0,
    {
        (0, 0)
    }

    /// True exactly while a session exists. A session that has completed
    /// but has not yet been observed and discarded by an idle call still
    /// counts as open: the signal is deliberately a little stale rather
    /// than racy.
    pub fn is_open(&self) -> (r: bool)
        ensures
            r == (self.session is Some),
    {
        match self.session {
            Some(_) => true,
            None => false,
        }
    }

    /// True exactly while the session exists and has not run its one-time
    /// setup, so the next idle must carry the setup outcome.
    pub fn needs_setup(&self) -> (r: bool)
        ensures
            r == (self.session matches Some(d) && d.phase is Uninitialized),
    {
        match self.session {
            Some(d) => d.phase == Phase::Uninitialized,
            None => false,
        }
    }

    /// Install a fresh, not-yet-set-up session. A session that was still
    /// alive is torn down first: if it was running, its resources must be
    /// released, and the returned action says so. Afterwards the fresh
    /// driver is the only one alive.
    pub fn open(&mut self) -> (r: Option<GuiAction>)
        ensures
            final(self).session matches Some(d) && d.phase is Uninitialized,
            r == (if old(self).session matches Some(d) && d.phase is Running {
                Some(GuiAction::ReleaseResources)
            } else {
                None::<GuiAction>
            }),
    {
        let release = match self.session {
            Some(d) => d.phase == Phase::Running,
            None => false,
        };
        self.session = Some(GuiDriver::new());
        if release {
            Some(GuiAction::ReleaseResources)
        } else {
            None
        }
    }

    /// Forward one idle tick: resume the session exactly once and hand back
    /// the action the step decided. When the resume reports completion the
    /// session is discarded, so further idle calls are no-ops until the
    /// next open. Without a session the tick does nothing.
    pub fn idle(&mut self, input: &ResumeInput, params: &WhisperParameters) -> (r: Option<
        GuiAction,
    >)
        requires
            old(self).session matches Some(d) ==> accepts_input(d, *input),
        ensures
            old(self).session is None ==> final(self).session is None && r is None,
            old(self).session matches Some(d) ==> ({
                let (d2, outcome, action) = spec_resume(d, *input);
                r == action && final(self).session == (if outcome is Completed {
                    None::<GuiDriver>
                } else {
                    Some(d2)
                })
            }),
    {
        match self.session {
            None => None,
            Some(d0) => {
                let mut d = d0;
                let (outcome, action) = d.resume(input, params);
                match outcome {
                    StepOutcome::Completed => {
                        self.session = None;
                    },
                    StepOutcome::Suspended => {
                        self.session = Some(d);
                    },
                }
                action
            },
        }
    }

    /// Unconditionally discard any session. If the discarded session was
    /// running, its resources must be released, and the returned action
    /// says so.
    pub fn close(&mut self) -> (r: Option<GuiAction>)
        ensures
            final(self).session is None,
            r == (if old(self).session matches Some(d) && d.phase is Running {
                Some(GuiAction::ReleaseResources)
            } else {
                None::<GuiAction>
            }),
    {
        let release = match self.session {
            Some(d) => d.phase == Phase::Running,
            None => false,
        };
        self.session = None;
        if release {
            Some(GuiAction::ReleaseResources)
        } else {
            None
        }
    }
}

} // verus!
