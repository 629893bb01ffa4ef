//! Cooperative GUI driver: the embedded editor's event loop as an explicit
//! state machine, advanced one bounded unit of work per `resume` call and
//! never blocking the caller.
//!
//! The driver owns no thread and performs no windowing itself. The host
//! adapter attempts the one-time resource acquisition (window, rendering
//! surface, device) before the first resume and reports its outcome as the
//! `Setup` input; on every later resume it hands in the batch of window
//! events it drained without waiting, and afterwards performs whatever
//! action the step decided: render and present one frame, or release the
//! acquired resources. Exactly one action is decided per step, so every
//! call returns within bounded time.
use crate::params::WhisperParameters;
use crate::params::VOLUME_INDEX;
use vstd::prelude::*;

verus! {

/// One window event, already translated to the plain values the driver
/// reads: a new physical size, a close request, a user change of the volume
/// control (as the value's 32-bit pattern), or anything else, which the
/// driver ignores.
#[derive(Clone, Copy, Debug, PartialEq, Eq, Structural)]
pub enum GuiEvent {
    Resized { width: u32, height: u32 },
    CloseRequested,
    VolumeChanged { bits: u32 },
    Other,
}

/// Where the driver stands in its lifecycle: not yet set up, suspended
/// between units of work, or finished with every resource released.
#[derive(Clone, Copy, Debug, PartialEq, Eq, Structural)]
pub enum Phase {
    Uninitialized,
    Running,
    Completed,
}

/// What a resume call reports back: the computation yielded and can be
/// resumed again, or it finished for good.
#[derive(Clone, Copy, Debug, PartialEq, Eq, Structural)]
pub enum StepOutcome {
    Suspended,
    Completed,
}

/// The outside work one step decides: compose, render and present one frame
/// at the current viewport, or release the window, surface and device
/// acquired at setup. At most one action is decided per step.
#[derive(Clone, Copy, Debug, PartialEq, Eq, Structural)]
pub enum GuiAction {
    RenderFrame,
    ReleaseResources,
}

/// What the host adapter hands to a resume call: the outcome of the
/// one-time resource acquisition for the very first resume, or the batch of
/// window events drained since the last one.
#[derive(Clone, Debug)]
pub enum ResumeInput {
    Setup { acquired: bool, width: u32, height: u32 },
    Poll { events: Vec<GuiEvent> },
}

/// The size of the drawing area, in physical pixels.
#[derive(Clone, Copy, Debug, PartialEq, Eq, Structural)]
pub struct Viewport {
    pub width: u32,
    pub height: u32,
}

/// The suspended event-loop computation, with every loop-local promoted to
/// a field: its lifecycle phase and the viewport it would render at.
#[derive(Clone, Copy, Debug, PartialEq, Eq, Structural)]
pub struct GuiDriver {
    /// Lifecycle phase. Resources are held exactly while it is `Running`.
    pub phase: Phase,
    /// Current drawing area; recomputed from every resize event.
    pub viewport: Viewport,
}

/// The viewport after applying a batch of events in order: the last resize
/// wins, and every other event leaves it unchanged.
pub open spec fn spec_apply_resizes(vp: Viewport, events: Seq<GuiEvent>) -> Viewport
    decreases events.len(),
{
    if events.len() == 0 {
        vp
    } else {
        match events.last() {
            GuiEvent::Resized { width, height } => Viewport { width, height },
            _ => spec_apply_resizes(vp, events.drop_last()),
        }
    }
}

/// Whether the batch contains a close request.
pub open spec fn spec_requests_close(events: Seq<GuiEvent>) -> bool
    decreases events.len(),
{
    if events.len() == 0 {
        false
    } else {
        spec_requests_close(events.drop_last()) || events.last() is CloseRequested
    }
}

/// A resume call must get the setup outcome exactly when the driver has not
/// been set up yet, and a drained event batch otherwise.
pub open spec fn accepts_input(d: GuiDriver, input: ResumeInput) -> bool {
    (d.phase is Uninitialized) <==> (input is Setup)
}

/// The driver's whole transition relation, one step per resume call:
/// - `Uninitialized`, successful setup: the driver starts running at the
///   acquired surface's size, renders its first frame, and suspends.
/// - `Uninitialized`, failed setup: nothing was acquired, so the driver
///   completes at once with nothing to release.
/// - `Running`: every resize in the batch recomputes the viewport in order.
///   A close request anywhere in the batch completes the driver and
///   releases the resources; otherwise the driver renders one frame at the
///   resulting viewport and suspends again.
/// - `Completed`: nothing changes, nothing is released a second time, and
///   the step reports completion again.
pub open spec fn spec_resume(d: GuiDriver, input: ResumeInput) -> (GuiDriver, StepOutcome, Option<
    GuiAction,
>) {
    match d.phase {
        Phase::Uninitialized => match input {
            ResumeInput::Setup { acquired, width, height } => {
                if acquired {
                    (
                        GuiDriver { phase: Phase::Running, viewport: Viewport { width, height } },
                        StepOutcome::Suspended,
                        Some(GuiAction::RenderFrame),
                    )
                } else {
                    (
                        GuiDriver { phase: Phase::Completed, viewport: d.viewport },
                        StepOutcome::Completed,
                        None,
                    )
                }
            },
            ResumeInput::Poll { .. } => (d, StepOutcome::Completed, None),
        },
        Phase::Running => match input {
            ResumeInput::Poll { events } => {
                let vp = spec_apply_resizes(d.viewport, events@);
                if spec_requests_close(events@) {
                    (
                        GuiDriver { phase: Phase::Completed, viewport: vp },
                        StepOutcome::Completed,
                        Some(GuiAction::ReleaseResources),
                    )
                } else {
                    (
                        GuiDriver { phase: Phase::Running, viewport: vp },
                        StepOutcome::Suspended,
                        Some(GuiAction::RenderFrame),
                    )
                }
            },
            ResumeInput::Setup { .. } => (d, StepOutcome::Completed, None),
        },
        Phase::Completed => (d, StepOutcome::Completed, None),
    }
}

impl GuiDriver {
    /// A fresh driver, suspended before its one-time setup.
    pub fn new() -> (r: GuiDriver)
        ensures
            r.phase is Uninitialized,
    {
        GuiDriver { phase: Phase::Uninitialized, viewport: Viewport { width: 0, height: 0 } }
    }

    /// Advance the computation by exactly one unit of work and suspend or
    /// complete, as `spec_resume` lays down. Each volume change in the
    /// batch is written straight into the shared parameter store, in batch
    /// order, where the real-time thread reads it on its next cycle.
    pub fn resume(&mut self, input: &ResumeInput, params: &WhisperParameters) -> (r: (
        StepOutcome,
        Option<GuiAction>,
    ))
        requires
            accepts_input(*old(self), *input),
        ensures
            spec_resume(*old(self), *input) == (*final(self), r.0, r.1),
    {
        match self.phase {
            Phase::Uninitialized => match input {
                ResumeInput::Setup { acquired, width, height } => {
                    if *acquired {
                        self.phase = Phase::Running;
                        self.viewport = Viewport { width: *width, height: *height };
                        (StepOutcome::Suspended, Some(GuiAction::RenderFrame))
                    } else {
                        self.phase = Phase::Completed;
                        (StepOutcome::Completed, None)
                    }
                },
                ResumeInput::Poll { .. } => (StepOutcome::Completed, None),
            },
            Phase::Running => match input {
                ResumeInput::Poll { events } => {
                    let mut close = false;
                    let mut i: usize = 0;
                    while i < events.len()
                        invariant
                            0 <= i <= events@.len(),
                            self.phase == old(self).phase,
                            self.viewport == spec_apply_resizes(
                                old(self).viewport,
                                events@.subrange(0, i as int),
                            ),
                            close == spec_requests_close(events@.subrange(0, i as int)),
                        decreases events@.len() - i,
                    {
                        proof {
                            assert(events@.subrange(0, i + 1).drop_last() =~= events@.subrange(
                                0,
                                i as int,
                            ));
                            assert(events@.subrange(0, i + 1).last() == events@[i as int]);
                        }
                        match events[i] {
                            GuiEvent::Resized { width, height } => {
                                self.viewport = Viewport { width, height };
                            },
                            GuiEvent::CloseRequested => {
                                close = true;
                            },
                            GuiEvent::VolumeChanged { bits } => {
                                params.set_parameter(VOLUME_INDEX, bits);
                            },
                            GuiEvent::Other => {},
                        }
                        i = i + 1;
                    }
                    proof {
                        assert(events@.subrange(0, events@.len() as int) =~= events@);
                    }
                    if close {
                        self.phase = Phase::Completed;
                        (StepOutcome::Completed, Some(GuiAction::ReleaseResources))
                    } else {
                        (StepOutcome::Suspended, Some(GuiAction::RenderFrame))
                    }
                },
                ResumeInput::Setup { .. } => (StepOutcome::Completed, None),
            },
            Phase::Completed => (StepOutcome::Completed, None),
        }
    }
}

/// Law: a resume of a completed driver is a no-op. It changes nothing,
/// reports completion again, and decides no action, so in particular the
/// resources released on the step that completed the driver are never
/// released a second time.
pub proof fn lemma_completed_resume_is_noop(d: GuiDriver, input: ResumeInput)
    requires
        d.phase is Completed,
    ensures
        spec_resume(d, input) == (d, StepOutcome::Completed, None::<GuiAction>),
{
}

/// The driver and the number of release actions decided after a whole
/// sequence of resumes, applied in order.
pub open spec fn spec_run(d: GuiDriver, inputs: Seq<ResumeInput>) -> (GuiDriver, nat)
    decreases inputs.len(),
{
    if inputs.len() == 0 {
        (d, 0)
    } else {
        let (d1, n) = spec_run(d, inputs.drop_last());
        let (d2, outcome, action) = spec_resume(d1, inputs.last());
        (
            d2,
            n + if action == Some(GuiAction::ReleaseResources) {
                1nat
            } else {
                0nat
            },
        )
    }
}

/// Law: over any sequence of resumes whatsoever, a driver's resources are
/// released at most once, and only on the step that completed it: a driver
/// that is not completed has released nothing yet.
pub proof fn lemma_at_most_one_release(d: GuiDriver, inputs: Seq<ResumeInput>)
    ensures
        ({
            let (dn, n) = spec_run(d, inputs);
            &&& n <= 1
            &&& (!(dn.phase is Completed) ==> n == 0)
            &&& (d.phase is Completed ==> dn == d && n == 0)
        }),
    decreases inputs.len(),
{
    if inputs.len() > 0 {
        lemma_at_most_one_release(d, inputs.drop_last());
    }
}

/// Law: resources move in lock step with the phase. A step decides a
/// release exactly when it takes a running driver to completion; a step of
/// a driver that is not running never decides one; and no step leads from
/// `Completed` back to any other phase, so a release can happen at most
/// once in a driver's whole life.
pub proof fn lemma_release_discipline(d: GuiDriver, input: ResumeInput)
    requires
        accepts_input(d, input),
    ensures
        ({
            let (d2, outcome, action) = spec_resume(d, input);
            &&& (action == Some(GuiAction::ReleaseResources) <==> (d.phase is Running
                && d2.phase is Completed))
            &&& (d.phase is Completed ==> d2 == d)
            &&& (d2.phase is Completed <==> outcome is Completed)
        }),
{
}

} // verus!
