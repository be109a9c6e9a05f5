//! The frame loop's decisions: what a frame does in which order, what follows
//! from a window event, from a look into the result channel and from the
//! outcome of presenting, and the state that these decisions read and change.

use crate::pipeline::{assembled, BuildError, PipelineManager, PipelineSelector, PipelineSet};
use vstd::prelude::*;

verus! {

/// The extent of the surface that frames are presented on, in pixels.
#[derive(Clone, Copy, Debug, PartialEq, Eq, Structural)]
pub struct SurfaceSize {
    pub width: u32,
    pub height: u32,
}

/// A window event, as far as the loop reacts to it.
#[derive(Clone, Copy, Debug, PartialEq, Eq, Structural)]
pub enum WindowInput {
    /// The window has a new size.
    Resized(SurfaceSize),
    /// The scale factor changed, and with it the size.
    ScaleFactorChanged(SurfaceSize),
    /// The pointer moved.
    PointerMoved,
    /// The key that switches between the two render programs was pressed.
    ToggleKey,
    /// The escape key was pressed.
    EscapeKey,
    /// The window was asked to close.
    CloseRequested,
    /// Anything else.
    Other,
}

/// What the caller does after a window event.
#[derive(Clone, Copy, Debug, PartialEq, Eq, Structural)]
pub enum WindowAction {
    /// Nothing.
    Nothing,
    /// Reconstruct the surface at this size.
    ReconstructSurface(SurfaceSize),
    /// Take the clear colour from the pointer's place in the window.
    UpdateClearColour,
    /// Leave the loop; the process ends in the ordinary way.
    Exit,
}

/// What a look into the result channel found.
#[derive(Clone, Copy, Debug, PartialEq, Eq, Structural)]
pub enum Polled {
    /// No result waits.
    Empty,
    /// A compiled program was taken out.
    Ready,
    /// The worker is gone.
    Disconnected,
}

/// Why a frame could not be presented.
#[derive(Clone, Copy, Debug, PartialEq, Eq, Structural)]
pub enum SurfaceError {
    /// No frame came in time.
    Timeout,
    /// The surface has changed under the swap chain.
    Outdated,
    /// The surface was lost.
    Lost,
    /// No memory is left.
    OutOfMemory,
}

/// An error that ends the loop, and the process with a failure.
#[derive(Clone, Copy, Debug, PartialEq, Eq, Structural)]
pub enum Fatal {
    /// The graphics backend has no memory left.
    OutOfMemory,
    /// The background worker has ended, so no rebuild can ever arrive.
    WorkerDisconnected,
}

/// The phases of one frame, in their order.
#[derive(Clone, Copy, Debug, PartialEq, Eq, Structural)]
pub enum FramePhase {
    /// Waiting for the next frame tick.
    Idle,
    /// Looking into the result channel, once.
    PollRebuild,
    /// Building the pipelines from the result that was found.
    Rebuild,
    /// Stepping the automaton, or drawing the decorative path.
    Simulate,
    /// Drawing and presenting.
    Present,
    /// The loop has ended.
    Terminated,
}

/// What happened in the phase that the loop is in.
#[derive(Clone, Copy, Debug)]
pub enum FrameEvent {
    /// The windowing system asks for a frame.
    Tick,
    /// The result channel was looked into.
    Polled(Polled),
    /// The pipelines were rebuilt from the result that was taken, or could
    /// not be.
    Rebuilt(Result<(), BuildError>),
    /// The simulation pass was issued.
    Simulated,
    /// The frame was presented, or could not be.
    Presented(Result<(), SurfaceError>),
}

/// What the caller does next.
#[derive(Clone, Copy, Debug, PartialEq, Eq, Structural)]
pub enum FrameAction {
    /// Look into the result channel, without blocking.
    Poll,
    /// Build the pipelines from the result that was taken.
    Rebuild,
    /// Issue the simulation pass.
    Simulate,
    /// Draw with the selected render program and present.
    Present,
    /// Wait for the next frame tick.
    AwaitTick,
    /// Reconstruct the surface at its present size, then wait for the next
    /// frame tick.
    ReconstructSurface,
    /// Leave the loop with a failure.
    Abort(Fatal),
}

/// One step of the frame loop.
#[derive(Clone, Copy, Debug, PartialEq, Eq, Structural)]
pub struct FrameStep {
    /// The phase that the loop is in after the step.
    pub phase: FramePhase,
    /// What the caller does next.
    pub action: FrameAction,
    /// Whether the event was an error that is to be logged. Such an error
    /// never ends the loop.
    pub report: bool,
}

/// What follows a look into the result channel.
pub open spec fn after_poll(polled: Polled) -> FrameStep {
    match polled {
        Polled::Empty => FrameStep {
            phase: FramePhase::Simulate,
            action: FrameAction::Simulate,
            report: false,
        },
        Polled::Ready => FrameStep {
            phase: FramePhase::Rebuild,
            action: FrameAction::Rebuild,
            report: false,
        },
        Polled::Disconnected => FrameStep {
            phase: FramePhase::Terminated,
            action: FrameAction::Abort(Fatal::WorkerDisconnected),
            report: false,
        },
    }
}

/// What follows an attempt to present. A lost surface is reconstructed and
/// the frame is tried again at the next tick; a lack of memory ends the loop;
/// any other error is logged and costs this one frame.
pub open spec fn after_present(presented: Result<(), SurfaceError>) -> FrameStep {
    match presented {
        Ok(()) => FrameStep {
            phase: FramePhase::Idle,
            action: FrameAction::AwaitTick,
            report: false,
        },
        Err(SurfaceError::Lost) => FrameStep {
            phase: FramePhase::Idle,
            action: FrameAction::ReconstructSurface,
            report: false,
        },
        Err(SurfaceError::OutOfMemory) => FrameStep {
            phase: FramePhase::Terminated,
            action: FrameAction::Abort(Fatal::OutOfMemory),
            report: false,
        },
        Err(_) => FrameStep { phase: FramePhase::Idle, action: FrameAction::AwaitTick, report: true },
    }
}

/// The frame loop: after a tick the result channel is looked into once; a
/// result that was found is built from, and whether that works or not the
/// frame goes on; then the simulation; then the presentation; then the next
/// tick is waited for. An event that does not belong to the phase has no
/// successor: a second look into the channel within one frame has none, nor
/// has the outcome of a build that no result called for.
pub open spec fn frame_next(phase: FramePhase, event: FrameEvent) -> Option<FrameStep> {
    match (phase, event) {
        (FramePhase::Idle, FrameEvent::Tick) => Some(
            FrameStep { phase: FramePhase::PollRebuild, action: FrameAction::Poll, report: false },
        ),
        (FramePhase::PollRebuild, FrameEvent::Polled(polled)) => Some(after_poll(polled)),
        (FramePhase::Rebuild, FrameEvent::Rebuilt(built)) => Some(
            FrameStep {
                phase: FramePhase::Simulate,
                action: FrameAction::Simulate,
                report: built is Err,
            },
        ),
        (FramePhase::Simulate, FrameEvent::Simulated) => Some(
            FrameStep { phase: FramePhase::Present, action: FrameAction::Present, report: false },
        ),
        (FramePhase::Present, FrameEvent::Presented(presented)) => Some(after_present(presented)),
        _ => None,
    }
}

/// The place of a phase in the frame: 0 for `Idle` up to 4 for `Present`.
pub open spec fn phase_rank(phase: FramePhase) -> int {
    match phase {
        FramePhase::Idle => 0,
        FramePhase::PollRebuild => 1,
        FramePhase::Rebuild => 2,
        FramePhase::Simulate => 3,
        FramePhase::Present => 4,
        FramePhase::Terminated => 5,
    }
}

/// What follows a look into the result channel.
pub fn poll_rebuild(polled: Polled) -> (step: FrameStep)
    ensures
        step == after_poll(polled),
{
    match polled {
        Polled::Empty => FrameStep {
            phase: FramePhase::Simulate,
            action: FrameAction::Simulate,
            report: false,
        },
        Polled::Ready => FrameStep {
            phase: FramePhase::Rebuild,
            action: FrameAction::Rebuild,
            report: false,
        },
        Polled::Disconnected => FrameStep {
            phase: FramePhase::Terminated,
            action: FrameAction::Abort(Fatal::WorkerDisconnected),
            report: false,
        },
    }
}

/// What follows an attempt to present.
pub fn present_outcome(presented: Result<(), SurfaceError>) -> (step: FrameStep)
    ensures
        step == after_present(presented),
{
    match presented {
        Ok(()) => FrameStep {
            phase: FramePhase::Idle,
            action: FrameAction::AwaitTick,
            report: false,
        },
        Err(SurfaceError::Lost) => FrameStep {
            phase: FramePhase::Idle,
            action: FrameAction::ReconstructSurface,
            report: false,
        },
        Err(SurfaceError::OutOfMemory) => FrameStep {
            phase: FramePhase::Terminated,
            action: FrameAction::Abort(Fatal::OutOfMemory),
            report: false,
        },
        Err(_) => FrameStep { phase: FramePhase::Idle, action: FrameAction::AwaitTick, report: true },
    }
}

/// One step of the frame loop: from the phase and what happened in it to the
/// next phase and what to do. `None` where `event` does not belong to
/// `phase`.
pub fn frame_step(phase: FramePhase, event: FrameEvent) -> (next: Option<FrameStep>)
    ensures
        next == frame_next(phase, event),
{
    match phase {
        FramePhase::Idle => match event {
            FrameEvent::Tick => Some(
                FrameStep {
                    phase: FramePhase::PollRebuild,
                    action: FrameAction::Poll,
                    report: false,
                },
            ),
            _ => None,
        },
        FramePhase::PollRebuild => match event {
            FrameEvent::Polled(polled) => Some(poll_rebuild(polled)),
            _ => None,
        },
        FramePhase::Rebuild => match event {
            FrameEvent::Rebuilt(built) => Some(
                FrameStep {
                    phase: FramePhase::Simulate,
                    action: FrameAction::Simulate,
                    report: built.is_err(),
                },
            ),
            _ => None,
        },
        FramePhase::Simulate => match event {
            FrameEvent::Simulated => Some(
                FrameStep {
                    phase: FramePhase::Present,
                    action: FrameAction::Present,
                    report: false,
                },
            ),
            _ => None,
        },
        FramePhase::Present => match event {
            FrameEvent::Presented(presented) => Some(present_outcome(presented)),
            _ => None,
        },
        FramePhase::Terminated => None,
    }
}

/// What the frame loop keeps from frame to frame: the size of the surface,
/// the render program that is selected, and the pipeline set in use.
pub struct State<R, C> {
    size: SurfaceSize,
    selector: PipelineSelector,
    pipelines: PipelineManager<R, C>,
}

impl<R, C> State<R, C> {
    /// The size of the surface.
    pub closed spec fn surface_size(self) -> SurfaceSize {
        self.size
    }

    /// The render program that is selected.
    pub closed spec fn selected(self) -> PipelineSelector {
        self.selector
    }

    /// The pipeline set in use.
    pub closed spec fn pipeline_set(self) -> PipelineSet<R, C> {
        self.pipelines.set()
    }

    /// The render program that the next frame is drawn with.
    pub open spec fn drawn_with(self) -> R {
        self.pipeline_set().render(self.selected())
    }

    /// What a window event does to the state and asks of the caller: the
    /// toggle key selects the other render program; a new size is taken over
    /// and the surface reconstructed at it; the pointer sets the clear
    /// colour; escape and a close request end the loop.
    pub open spec fn after_window_event(self, event: WindowInput) -> (
        SurfaceSize,
        PipelineSelector,
        WindowAction,
    ) {
        match event {
            WindowInput::Resized(size) | WindowInput::ScaleFactorChanged(size) => (
                size,
                self.selected(),
                WindowAction::ReconstructSurface(size),
            ),
            WindowInput::PointerMoved => (
                self.surface_size(),
                self.selected(),
                WindowAction::UpdateClearColour,
            ),
            WindowInput::ToggleKey => (
                self.surface_size(),
                self.selected().toggled(),
                WindowAction::Nothing,
            ),
            WindowInput::EscapeKey | WindowInput::CloseRequested => (
                self.surface_size(),
                self.selected(),
                WindowAction::Exit,
            ),
            WindowInput::Other => (self.surface_size(), self.selected(), WindowAction::Nothing),
        }
    }

    /// The state at the start of the loop: a surface of `size`, the first
    /// pipeline set, the primary render program selected.
    pub fn new(size: SurfaceSize, pipelines: PipelineSet<R, C>) -> (state: Self)
        ensures
            state.surface_size() == size,
            state.selected() == PipelineSelector::Primary,
            state.pipeline_set() == pipelines,
    {
        State { size, selector: PipelineSelector::Primary, pipelines: PipelineManager::new(pipelines) }
    }

    /// The size of the surface.
    pub fn size(&self) -> (size: SurfaceSize)
        ensures
            size == self.surface_size(),
    {
        self.size
    }

    /// The render program that is selected.
    pub fn selector(&self) -> (selector: PipelineSelector)
        ensures
            selector == self.selected(),
    {
        self.selector
    }

    /// The compute program that steps the automaton.
    pub fn compute_pipeline(&self) -> (program: &C)
        ensures
            *program == self.pipeline_set().compute,
    {
        self.pipelines.compute()
    }

    /// Takes the three programs that the backend built from a new artifact,
    /// `None` standing for one that it could not build. All three replace the
    /// set in use, or none does.
    pub fn update_pipelines(
        &mut self,
        primary: Option<R>,
        alternate: Option<R>,
        compute: Option<C>,
    ) -> (outcome: Result<(), BuildError>)
        ensures
            final(self).pipeline_set() == match assembled(primary, alternate, compute) {
                Ok(set) => set,
                Err(_) => old(self).pipeline_set(),
            },
            match assembled(primary, alternate, compute) {
                Ok(_) => outcome is Ok,
                Err(error) => outcome == Err::<(), BuildError>(error),
            },
            final(self).surface_size() == old(self).surface_size(),
            final(self).selected() == old(self).selected(),
    {
        self.pipelines.rebuild(primary, alternate, compute)
    }

    /// Takes over the new size of the surface. The caller reconstructs the
    /// swap chain at it.
    pub fn resize(&mut self, new_size: SurfaceSize)
        ensures
            final(self).surface_size() == new_size,
            final(self).selected() == old(self).selected(),
            final(self).pipeline_set() == old(self).pipeline_set(),
    {
        self.size = new_size;
    }

    /// Lets the state see a window event before the caller acts on it: the
    /// toggle key selects the other render program. No event is used up, so
    /// the answer is always `false` and the caller goes on to act.
    pub fn input(&mut self, event: &WindowInput) -> (consumed: bool)
        ensures
            !consumed,
            final(self).selected() == if *event == WindowInput::ToggleKey {
                old(self).selected().toggled()
            } else {
                old(self).selected()
            },
            final(self).surface_size() == old(self).surface_size(),
            final(self).pipeline_set() == old(self).pipeline_set(),
    {
        match event {
            WindowInput::ToggleKey => {
                self.selector = self.selector.toggle();
                false
            },
            _ => false,
        }
    }

    /// Between the poll and the simulation nothing in the state changes.
    pub fn update(&mut self)
        ensures
            final(self).surface_size() == old(self).surface_size(),
            final(self).selected() == old(self).selected(),
            final(self).pipeline_set() == old(self).pipeline_set(),
    {
    }

    /// The render program to draw the frame with, once a frame was acquired
    /// from the swap chain; the error where none was.
    pub fn render(&self, acquired: Result<(), SurfaceError>) -> (drawn: Result<&R, SurfaceError>)
        ensures
            match acquired {
                Ok(()) => drawn matches Ok(program) && *program == self.drawn_with(),
                Err(error) => drawn matches Err(failed) && failed == error,
            },
    {
        match acquired {
            Ok(()) => Ok(self.pipelines.active(self.selector)),
            Err(error) => Err(error),
        }
    }

    /// The size at which a lost surface is reconstructed: the one it had.
    pub fn recreate_swap_chain(&mut self) -> (size: SurfaceSize)
        ensures
            size == old(self).surface_size(),
            final(self).surface_size() == old(self).surface_size(),
            final(self).selected() == old(self).selected(),
            final(self).pipeline_set() == old(self).pipeline_set(),
    {
        let size = self.size;
        self.resize(size);
        size
    }

    /// Acts on a window event and tells the caller what is left to do.
    pub fn window_event(&mut self, event: &WindowInput) -> (action: WindowAction)
        ensures
            (final(self).surface_size(), final(self).selected(), action) == old(
                self,
            ).after_window_event(*event),
            final(self).pipeline_set() == old(self).pipeline_set(),
    {
        if self.input(event) {
            return WindowAction::Nothing;
        }
        match event {
            WindowInput::CloseRequested | WindowInput::EscapeKey => WindowAction::Exit,
            WindowInput::Resized(size) | WindowInput::ScaleFactorChanged(size) => {
                self.resize(*size);
                WindowAction::ReconstructSurface(*size)
            },
            WindowInput::PointerMoved => WindowAction::UpdateClearColour,
            _ => WindowAction::Nothing,
        }
    }
}

/// The phases of a frame come in one order: a step that does not end the loop
/// goes on to a later phase of the frame, or from the presentation back to
/// waiting. No phase is gone through twice in a frame.
pub proof fn lemma_phases_in_order(phase: FramePhase, event: FrameEvent)
    requires
        frame_next(phase, event) matches Some(step) && step.phase != FramePhase::Terminated,
    ensures
        ({
            let step = frame_next(phase, event)->0;
            ||| phase_rank(step.phase) > phase_rank(phase)
            ||| phase == FramePhase::Present && step.phase == FramePhase::Idle
        }),
{
}

/// In one frame the result channel is looked into once, and at most one
/// result is built from. The poll is entered only by a tick, and a look into
/// the channel always leaves it. The build is entered only by a look that
/// found a result, only there is its outcome taken, and that outcome always
/// leads on to the simulation.
pub proof fn lemma_one_result_per_frame(phase: FramePhase, event: FrameEvent)
    requires
        frame_next(phase, event) is Some,
    ensures
        ({
            let step = frame_next(phase, event)->0;
            &&& step.phase == FramePhase::PollRebuild ==> phase == FramePhase::Idle && event
                == FrameEvent::Tick
            &&& event is Polled ==> phase == FramePhase::PollRebuild && step.phase
                != FramePhase::PollRebuild
            &&& step.phase == FramePhase::Rebuild || step.action == FrameAction::Rebuild ==> phase
                == FramePhase::PollRebuild && event == FrameEvent::Polled(Polled::Ready)
            &&& event is Rebuilt ==> phase == FramePhase::Rebuild && step.phase
                == FramePhase::Simulate
        }),
{
}

/// The loop ends on two events and no others: the worker is gone, or the
/// backend has no memory left.
pub proof fn lemma_terminates_only_on_fatal(phase: FramePhase, event: FrameEvent)
    ensures
        frame_next(phase, event) matches Some(step) && step.phase == FramePhase::Terminated ==> {
            ||| phase == FramePhase::PollRebuild && event == FrameEvent::Polled(Polled::Disconnected)
                && frame_next(phase, event)->0.action == FrameAction::Abort(
                Fatal::WorkerDisconnected,
            )
            ||| phase == FramePhase::Present && event == FrameEvent::Presented(
                Err(SurfaceError::OutOfMemory),
            ) && frame_next(phase, event)->0.action == FrameAction::Abort(Fatal::OutOfMemory)
        },
        frame_next(FramePhase::Terminated, event) is None,
{
}

/// An error that is to be logged never ends the loop: the frame goes on, or
/// the next one is waited for.
pub proof fn lemma_reported_errors_are_recoverable(phase: FramePhase, event: FrameEvent)
    requires
        frame_next(phase, event) matches Some(step) && step.report,
    ensures
        frame_next(phase, event)->0.phase != FramePhase::Terminated,
        frame_next(phase, event)->0.action == FrameAction::Simulate || frame_next(
            phase,
            event,
        )->0.action == FrameAction::AwaitTick,
{
}

/// A failed rebuild costs nothing but a log line: the frame goes on to the
/// simulation as after a successful one.
pub proof fn lemma_failed_rebuild_goes_on(error: BuildError)
    ensures
        frame_next(FramePhase::Rebuild, FrameEvent::Rebuilt(Err(error))) == Some(
            FrameStep { phase: FramePhase::Simulate, action: FrameAction::Simulate, report: true },
        ),
        frame_next(FramePhase::Rebuild, FrameEvent::Rebuilt(Ok(()))) == Some(
            FrameStep { phase: FramePhase::Simulate, action: FrameAction::Simulate, report: false },
        ),
{
}

} // verus!
