//! The mathematical model of the event window's pump thread.
//!
//! The pump thread alternates work that only the operating system can do
//! (registering a class, creating a window, waiting for a message) with
//! decisions about what to do next. The decisions are modelled here as a
//! transition function over [`PumpState`]: the thread performs a
//! [`PumpAction`], reports what came of it as a [`PumpEvent`], and is told the
//! next action.

use vstd::prelude::*;
use crate::error::EventWindowError;

verus! {

/// The message that asks the sentinel window to go away.
pub const WM_DESTROY: u32 = 0x0002;

/// What the handle accessor returns while the service is not ready.
pub const NOT_READY: isize = 0;

/// Where the pump thread stands.
#[derive(Clone, Copy, Debug, PartialEq, Eq, Structural)]
pub enum Phase {
    /// Nothing has been started.
    Idle,
    /// The window class is being registered.
    RegisteringClass,
    /// The window is being created.
    CreatingWindow,
    /// The window exists and is being registered for device notifications.
    RegisteringNotifications,
    /// Setup is complete: the readiness signal has been fired and is on its
    /// way to the waiting caller.
    SignalingReady,
    /// The message loop is running.
    Running,
    /// The message loop has ended, or was never reached.
    Terminated,
    /// Setup failed with the given error.
    Failed(EventWindowError),
}

/// What the pump thread reports after performing an action.
#[derive(Clone, Copy, Debug, PartialEq, Eq, Structural)]
pub enum PumpEvent {
    /// The window class was registered, or could not be.
    ClassRegistered(bool),
    /// The window was created with the given handle, or could not be.
    WindowCreated(Option<isize>),
    /// The window was registered for device notifications, or could not be.
    NotificationsRegistered(bool),
    /// The readiness signal reached the waiting caller, or found nobody.
    ReadySignaled(bool),
    /// One message was retrieved and handed to the window procedure.
    MessagePumped,
    /// The message queue reported that the loop must end.
    QuitReceived,
}

/// What the pump thread has to do next.
#[derive(Clone, Copy, Debug, PartialEq, Eq, Structural)]
pub enum PumpAction {
    /// Register the window class.
    RegisterClass,
    /// Create the sentinel window.
    CreateWindow,
    /// Register the window with the given handle for device notifications.
    RegisterNotifications(isize),
    /// Tell the waiting caller that the service is ready.
    SignalReady,
    /// Tell the waiting caller that setup failed, then stop.
    SignalFailure(EventWindowError),
    /// Block until the next message arrives and hand it to the window
    /// procedure.
    AwaitMessage,
    /// Leave the thread.
    Exit,
    /// The event does not answer the action that is pending; nothing changed.
    Rejected,
}

/// What the window procedure has to do with a message, as far as the state
/// alone decides it.
#[derive(Clone, Copy, Debug, PartialEq, Eq, Structural)]
pub enum MessageRoute {
    /// Destroy was requested: end the loop, tell no subscriber.
    Quit,
    /// Hand the message to every subscriber.
    Deliver,
    /// The window is not live: no subscriber sees the message.
    Ignore,
}

/// The state of the pump thread: its phase, the handle it has published and
/// whether the readiness signal has been fired. The signal counts as fired
/// from the moment the thread is told to send it, so that a caller who
/// receives it finds the service ready.
#[derive(Clone, Copy, Debug, PartialEq, Eq, Structural)]
pub struct PumpState {
    pub phase: Phase,
    /// The published window handle; zero until the window exists.
    pub handle: isize,
    /// Whether the readiness signal has been fired.
    pub ready: bool,
}

impl PumpState {
    /// The state before anything was started.
    pub open spec fn initial() -> PumpState {
        PumpState { phase: Phase::Idle, handle: 0, ready: false }
    }

    /// The states that the transitions can reach: the handle is set exactly
    /// from the moment the window exists, and readiness implies a handle.
    pub open spec fn wf(self) -> bool {
        &&& self.ready ==> self.handle != 0
        &&& match self.phase {
            Phase::Idle | Phase::RegisteringClass | Phase::CreatingWindow => {
                self.handle == 0 && !self.ready
            },
            Phase::RegisteringNotifications => self.handle != 0 && !self.ready,
            Phase::SignalingReady | Phase::Running => self.ready,
            Phase::Terminated => true,
            Phase::Failed(_) => !self.ready,
        }
    }

    /// Whether the window may exist, so that messages for it are served.
    pub open spec fn is_live(self) -> bool {
        match self.phase {
            Phase::CreatingWindow
            | Phase::RegisteringNotifications
            | Phase::SignalingReady
            | Phase::Running => true,
            _ => false,
        }
    }

    /// Whether the thread has nothing left to do.
    pub open spec fn is_finished(self) -> bool {
        self.phase is Terminated || self.phase is Failed
    }

    /// What the handle accessor shows in this state.
    pub open spec fn visible_handle(self) -> isize {
        if self.ready {
            self.handle
        } else {
            NOT_READY
        }
    }

    /// The state after `start`.
    pub open spec fn after_start(self) -> PumpState {
        if self.phase is Idle {
            PumpState { phase: Phase::RegisteringClass, ..self }
        } else {
            self
        }
    }

    /// The action that `start` asks for.
    pub open spec fn start_action(self) -> PumpAction {
        if self.phase is Idle {
            PumpAction::RegisterClass
        } else {
            PumpAction::Rejected
        }
    }

    /// The state after the pump thread has reported `event`.
    pub open spec fn after(self, event: PumpEvent) -> PumpState {
        match (self.phase, event) {
            (Phase::RegisteringClass, PumpEvent::ClassRegistered(ok)) => {
                if ok {
                    PumpState { phase: Phase::CreatingWindow, ..self }
                } else {
                    PumpState {
                        phase: Phase::Failed(EventWindowError::WindowClassRegistration),
                        ..self
                    }
                }
            },
            (Phase::CreatingWindow, PumpEvent::WindowCreated(created)) => {
                match created {
                    Some(handle) if handle != 0 => {
                        PumpState { phase: Phase::RegisteringNotifications, handle, ..self }
                    },
                    _ => PumpState {
                        phase: Phase::Failed(EventWindowError::WindowCreation),
                        ..self
                    },
                }
            },
            (Phase::RegisteringNotifications, PumpEvent::NotificationsRegistered(ok)) => {
                if ok {
                    PumpState { phase: Phase::SignalingReady, ready: true, ..self }
                } else {
                    PumpState {
                        phase: Phase::Failed(EventWindowError::NotificationRegistration),
                        ..self
                    }
                }
            },
            (Phase::SignalingReady, PumpEvent::ReadySignaled(delivered)) => {
                if delivered {
                    PumpState { phase: Phase::Running, ..self }
                } else {
                    PumpState { phase: Phase::Terminated, ..self }
                }
            },
            (Phase::Running, PumpEvent::MessagePumped) => self,
            (Phase::Running, PumpEvent::QuitReceived) => {
                PumpState { phase: Phase::Terminated, ..self }
            },
            _ => self,
        }
    }

    /// The action that answers `event` in this state.
    pub open spec fn action_for(self, event: PumpEvent) -> PumpAction {
        match (self.phase, event) {
            (Phase::Terminated, _) => PumpAction::Exit,
            (Phase::Failed(_), _) => PumpAction::Exit,
            (Phase::RegisteringClass, PumpEvent::ClassRegistered(ok)) => {
                if ok {
                    PumpAction::CreateWindow
                } else {
                    PumpAction::SignalFailure(EventWindowError::WindowClassRegistration)
                }
            },
            (Phase::CreatingWindow, PumpEvent::WindowCreated(created)) => {
                match created {
                    Some(handle) if handle != 0 => PumpAction::RegisterNotifications(handle),
                    _ => PumpAction::SignalFailure(EventWindowError::WindowCreation),
                }
            },
            (Phase::RegisteringNotifications, PumpEvent::NotificationsRegistered(ok)) => {
                if ok {
                    PumpAction::SignalReady
                } else {
                    PumpAction::SignalFailure(EventWindowError::NotificationRegistration)
                }
            },
            (Phase::SignalingReady, PumpEvent::ReadySignaled(delivered)) => {
                if delivered {
                    PumpAction::AwaitMessage
                } else {
                    PumpAction::Exit
                }
            },
            (Phase::Running, PumpEvent::MessagePumped) => PumpAction::AwaitMessage,
            (Phase::Running, PumpEvent::QuitReceived) => PumpAction::Exit,
            _ => PumpAction::Rejected,
        }
    }

    /// What the window procedure does with message `msg` in this state.
    pub open spec fn route(self, msg: u32) -> MessageRoute {
        if !self.is_live() {
            MessageRoute::Ignore
        } else if msg == WM_DESTROY {
            MessageRoute::Quit
        } else {
            MessageRoute::Deliver
        }
    }

    /// The state after the window procedure has served message `msg`.
    pub open spec fn after_message(self, msg: u32) -> PumpState {
        if self.is_live() && msg == WM_DESTROY {
            PumpState { phase: Phase::Terminated, ..self }
        } else {
            self
        }
    }
}

/// Anything that can happen to the pump state: the thread is started, it
/// reports an event, or the window procedure serves a message.
#[derive(Clone, Copy, Debug, PartialEq, Eq, Structural)]
pub enum PumpStep {
    Start,
    Event(PumpEvent),
    Message(u32),
}

impl PumpState {
    /// The state after one step.
    pub open spec fn step(self, step: PumpStep) -> PumpState {
        match step {
            PumpStep::Start => self.after_start(),
            PumpStep::Event(event) => self.after(event),
            PumpStep::Message(msg) => self.after_message(msg),
        }
    }

    /// The state after the given steps, taken in order.
    pub open spec fn run(self, steps: Seq<PumpStep>) -> PumpState
        decreases steps.len(),
    {
        if steps.len() == 0 {
            self
        } else {
            self.step(steps[0]).run(steps.subrange(1, steps.len() as int))
        }
    }
}

/// Whether the readiness signal is fired while `steps` are taken from the
/// state `s`: whether one of the steps is a report that is answered with the
/// order to signal readiness.
pub open spec fn signal_fired(s: PumpState, steps: Seq<PumpStep>) -> bool
    decreases steps.len(),
{
    if steps.len() == 0 {
        false
    } else {
        ||| steps[0] matches PumpStep::Event(event) && s.action_for(event)
            == PumpAction::SignalReady
        ||| signal_fired(s.step(steps[0]), steps.subrange(1, steps.len() as int))
    }
}

/// Every step leads from a well-formed state to a well-formed state.
pub proof fn lemma_step_preserves_wf(s: PumpState, step: PumpStep)
    requires
        s.wf(),
    ensures
        s.step(step).wf(),
{
}

/// Every sequence of steps leads from a well-formed state to a well-formed
/// state.
pub proof fn lemma_run_preserves_wf(s: PumpState, steps: Seq<PumpStep>)
    requires
        s.wf(),
    ensures
        s.run(steps).wf(),
    decreases steps.len(),
{
    if steps.len() > 0 {
        lemma_step_preserves_wf(s, steps[0]);
        lemma_run_preserves_wf(s.step(steps[0]), steps.subrange(1, steps.len() as int));
    }
}

/// The accessor shows a handle exactly when the readiness signal has been
/// fired, and what it shows then is the handle of the window.
pub proof fn lemma_handle_visible_iff_ready(s: PumpState)
    requires
        s.wf(),
    ensures
        s.visible_handle() != NOT_READY <==> s.ready,
        s.ready ==> s.visible_handle() == s.handle,
{
}

/// A single step makes the state ready only if it is the report that is
/// answered with the order to signal readiness: the last step of a setup in
/// which nothing failed.
pub proof fn lemma_ready_only_by_signal(s: PumpState, step: PumpStep)
    requires
        !s.ready,
        s.step(step).ready,
    ensures
        s.phase is RegisteringNotifications,
        step == PumpStep::Event(PumpEvent::NotificationsRegistered(true)),
        s.action_for(PumpEvent::NotificationsRegistered(true)) == PumpAction::SignalReady,
{
}

/// Once the readiness signal has been fired, no sequence of steps changes
/// what the accessor shows: the handle is set and stays as it is.
pub proof fn lemma_handle_stable_once_ready(s: PumpState, steps: Seq<PumpStep>)
    requires
        s.wf(),
        s.ready,
    ensures
        s.run(steps).ready,
        s.run(steps).visible_handle() == s.visible_handle(),
        s.visible_handle() != NOT_READY,
    decreases steps.len(),
{
    if steps.len() > 0 {
        lemma_step_preserves_wf(s, steps[0]);
        lemma_handle_stable_once_ready(s.step(steps[0]), steps.subrange(1, steps.len() as int));
    }
}

/// However the steps of the pump thread and of the window procedure are
/// interleaved, the accessor shows the not-ready value for as long as the
/// readiness signal has not been fired, and the handle of the window from
/// then on.
pub proof fn lemma_ready_iff_signal_fired(s: PumpState, steps: Seq<PumpStep>)
    requires
        s.wf(),
        !s.ready,
    ensures
        s.run(steps).ready <==> signal_fired(s, steps),
        !signal_fired(s, steps) ==> s.run(steps).visible_handle() == NOT_READY,
        signal_fired(s, steps) ==> s.run(steps).visible_handle() == s.run(steps).handle
            && s.run(steps).handle != 0,
    decreases steps.len(),
{
    if steps.len() > 0 {
        let next = s.step(steps[0]);
        let rest = steps.subrange(1, steps.len() as int);
        lemma_step_preserves_wf(s, steps[0]);
        lemma_run_preserves_wf(s, steps);
        if next.ready {
            lemma_ready_only_by_signal(s, steps[0]);
            lemma_handle_stable_once_ready(next, rest);
        } else {
            lemma_ready_iff_signal_fired(next, rest);
        }
    }
}

/// The published handle is never reassigned: once it is set, no sequence of
/// steps changes it.
pub proof fn lemma_handle_published_once(s: PumpState, steps: Seq<PumpStep>)
    requires
        s.wf(),
        s.handle != 0,
    ensures
        s.run(steps).handle == s.handle,
    decreases steps.len(),
{
    if steps.len() > 0 {
        lemma_step_preserves_wf(s, steps[0]);
        lemma_handle_published_once(s.step(steps[0]), steps.subrange(1, steps.len() as int));
    }
}

/// The destroy message ends a live window: the window procedure is told to
/// quit, and the loop is terminated from then on.
pub proof fn lemma_destroy_terminates(s: PumpState)
    requires
        s.is_live(),
    ensures
        s.route(WM_DESTROY) == MessageRoute::Quit,
        s.after_message(WM_DESTROY).phase is Terminated,
{
}

/// A finished pump stays finished whatever happens next, serves no message
/// and has nothing left to do but leave.
pub proof fn lemma_finished_is_final(s: PumpState, steps: Seq<PumpStep>)
    requires
        s.is_finished(),
    ensures
        s.run(steps) == s,
        forall|msg: u32| s.run(steps).route(msg) == MessageRoute::Ignore,
        forall|event: PumpEvent| s.run(steps).action_for(event) == PumpAction::Exit,
        s.run(steps).start_action() == PumpAction::Rejected,
    decreases steps.len(),
{
    if steps.len() > 0 {
        lemma_finished_is_final(s.step(steps[0]), steps.subrange(1, steps.len() as int));
    }
}

/// After the destroy message has been served by a live window, no message
/// is handed to the subscribers any more, whatever happens in between.
pub proof fn lemma_nothing_dispatched_after_destroy(
    s: PumpState,
    steps: Seq<PumpStep>,
    msg: u32,
)
    requires
        s.is_live(),
    ensures
        s.after_message(WM_DESTROY).run(steps).phase is Terminated,
        s.after_message(WM_DESTROY).run(steps).route(msg) == MessageRoute::Ignore,
{
    lemma_finished_is_final(s.after_message(WM_DESTROY), steps);
}

/// Setup goes through its steps in one order only: from a fresh state, the
/// reports of success lead to the running loop, with the created handle
/// visible.
pub proof fn lemma_successful_setup_runs(handle: isize)
    requires
        handle != 0,
    ensures
        ({
            let s = PumpState::initial().after_start().after(
                PumpEvent::ClassRegistered(true),
            ).after(PumpEvent::WindowCreated(Some(handle))).after(
                PumpEvent::NotificationsRegistered(true),
            );
            &&& s.phase is SignalingReady
            &&& s.visible_handle() == handle
            &&& s.after(PumpEvent::ReadySignaled(true)).phase is Running
            &&& s.after(PumpEvent::ReadySignaled(true)).visible_handle() == handle
        }),
{
}

/// A step of setup that fails ends the setup with its own error, asks for
/// that error to be signalled, and leaves the service not ready.
pub proof fn lemma_failed_setup_is_signalled(s: PumpState, event: PumpEvent)
    requires
        s.wf(),
        s.after(event).phase is Failed,
        !(s.phase is Failed),
    ensures
        s.action_for(event) == PumpAction::SignalFailure(s.after(event).phase->Failed_0),
        !s.after(event).ready,
        s.after(event).visible_handle() == NOT_READY,
{
}


} // verus!
