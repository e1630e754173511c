//! The event window service: the state of the pump thread together with the
//! subscribers that its window procedure serves.
//!
//! The service holds no operating-system resource itself. The thread that
//! owns the window performs each [`PumpAction`] and reports the outcome
//! through [`EventWindow::advance`]; the window procedure hands every
//! message to [`EventWindow::window_proc`].

use vstd::prelude::*;
use crate::error::EventWindowError;
use crate::pump::{MessageRoute, Phase, PumpAction, PumpEvent, PumpState, NOT_READY, WM_DESTROY};
use crate::subscribers::{
    accepts_every_message,
    all_accept_every_message,
    delivered,
    SubscriberList,
};

verus! {

/// What the window procedure did with one message.
pub enum ProcOutcome<E> {
    /// Destroy was requested: the loop has to be told to quit, and no
    /// subscriber was called.
    Quit,
    /// The message went to every subscriber; the answers are in
    /// registration order. The default window procedure comes next.
    Delivered(Vec<Result<(), E>>),
    /// The window is not live; no subscriber was called.
    Ignored,
}

/// The event window service.
pub struct EventWindow<F> {
    state: PumpState,
    subscribers: SubscriberList<F>,
}

impl<E, F: Fn(u32, usize, isize) -> Result<(), E>> EventWindow<F> {
    /// The state of the pump thread.
    pub closed spec fn state(&self) -> PumpState {
        self.state
    }

    /// The subscribers, in registration order.
    pub closed spec fn subscribers(&self) -> Seq<F> {
        self.subscribers@
    }

    /// The pump state is one that the transitions reach, and every
    /// subscriber can be called with every message.
    pub open spec fn wf(&self) -> bool {
        &&& self.state().wf()
        &&& all_accept_every_message(self.subscribers())
    }

    /// A service that has not been started and has no subscribers.
    pub fn new() -> (window: Self)
        ensures
            window.wf(),
            window.state() == PumpState::initial(),
            window.subscribers() == Seq::<F>::empty(),
    {
        EventWindow {
            state: PumpState { phase: Phase::Idle, handle: 0, ready: false },
            subscribers: SubscriberList::new(),
        }
    }

    /// Begins the setup of the window. Only an idle service can be started;
    /// on any other the call changes nothing and is rejected.
    pub fn start(&mut self) -> (action: PumpAction)
        requires
            old(self).wf(),
        ensures
            final(self).wf(),
            final(self).state() == old(self).state().after_start(),
            final(self).subscribers() == old(self).subscribers(),
            action == old(self).state().start_action(),
    {
        match self.state.phase {
            Phase::Idle => {
                self.state.phase = Phase::RegisteringClass;
                PumpAction::RegisterClass
            },
            _ => PumpAction::Rejected,
        }
    }

    /// Takes the report of the action that was pending and says what the
    /// pump thread has to do next.
    pub fn advance(&mut self, event: PumpEvent) -> (action: PumpAction)
        requires
            old(self).wf(),
        ensures
            final(self).wf(),
            final(self).state() == old(self).state().after(event),
            final(self).subscribers() == old(self).subscribers(),
            action == old(self).state().action_for(event),
    {
        match (self.state.phase, event) {
            (Phase::Terminated, _) => PumpAction::Exit,
            (Phase::Failed(_), _) => PumpAction::Exit,
            (Phase::RegisteringClass, PumpEvent::ClassRegistered(ok)) => {
                if ok {
                    self.state.phase = Phase::CreatingWindow;
                    PumpAction::CreateWindow
                } else {
                    self.fail(EventWindowError::WindowClassRegistration)
                }
            },
            (Phase::CreatingWindow, PumpEvent::WindowCreated(created)) => {
                match created {
                    Some(handle) if handle != 0 => {
                        self.state.phase = Phase::RegisteringNotifications;
                        self.state.handle = handle;
                        PumpAction::RegisterNotifications(handle)
                    },
                    _ => self.fail(EventWindowError::WindowCreation),
                }
            },
            (Phase::RegisteringNotifications, PumpEvent::NotificationsRegistered(ok)) => {
                if ok {
                    self.state.phase = Phase::SignalingReady;
                    self.state.ready = true;
                    PumpAction::SignalReady
                } else {
                    self.fail(EventWindowError::NotificationRegistration)
                }
            },
            (Phase::SignalingReady, PumpEvent::ReadySignaled(delivered)) => {
                if delivered {
                    self.state.phase = Phase::Running;
                    PumpAction::AwaitMessage
                } else {
                    self.state.phase = Phase::Terminated;
                    PumpAction::Exit
                }
            },
            (Phase::Running, PumpEvent::MessagePumped) => PumpAction::AwaitMessage,
            (Phase::Running, PumpEvent::QuitReceived) => {
                self.state.phase = Phase::Terminated;
                PumpAction::Exit
            },
            _ => PumpAction::Rejected,
        }
    }

    /// Ends a setup that has not signalled readiness with `error`.
    fn fail(&mut self, error: EventWindowError) -> (action: PumpAction)
        requires
            !old(self).state.ready,
        ensures
            final(self).state == (PumpState { phase: Phase::Failed(error), ..old(self).state }),
            final(self).subscribers == old(self).subscribers,
            action == PumpAction::SignalFailure(error),
    {
        self.state.phase = Phase::Failed(error);
        PumpAction::SignalFailure(error)
    }

    /// Registers `callback` behind the subscribers that are already there.
    /// This is possible in every phase; a subscriber sees the messages that
    /// are served after its registration while the window is live.
    pub fn subscribe(&mut self, callback: F)
        requires
            old(self).wf(),
            accepts_every_message(callback),
        ensures
            final(self).wf(),
            final(self).state() == old(self).state(),
            final(self).subscribers() == old(self).subscribers().push(callback),
    {
        self.subscribers.subscribe(callback);
    }

    /// Serves one message of the window. On a live window the destroy
    /// message ends the loop without being shown to anyone, and every other
    /// message goes to all subscribers in registration order. A window that
    /// is not live serves nothing.
    pub fn window_proc(&mut self, msg: u32, w_param: usize, l_param: isize) -> (outcome:
        ProcOutcome<E>)
        requires
            old(self).wf(),
        ensures
            final(self).wf(),
            final(self).state() == old(self).state().after_message(msg),
            final(self).subscribers() == old(self).subscribers(),
            match outcome {
                ProcOutcome::Quit => old(self).state().route(msg) == MessageRoute::Quit,
                ProcOutcome::Delivered(outcomes) => {
                    &&& old(self).state().route(msg) == MessageRoute::Deliver
                    &&& delivered(old(self).subscribers(), msg, w_param, l_param, outcomes@)
                },
                ProcOutcome::Ignored => old(self).state().route(msg) == MessageRoute::Ignore,
            },
    {
        let live = match self.state.phase {
            Phase::CreatingWindow
            | Phase::RegisteringNotifications
            | Phase::SignalingReady
            | Phase::Running => true,
            _ => false,
        };
        if !live {
            ProcOutcome::Ignored
        } else if msg == WM_DESTROY {
            self.state.phase = Phase::Terminated;
            ProcOutcome::Quit
        } else {
            ProcOutcome::Delivered(self.subscribers.dispatch(msg, w_param, l_param))
        }
    }

    /// The handle of the sentinel window, or [`NOT_READY`] as long as the
    /// readiness signal has not been fired.
    pub fn current_window_handle(&self) -> (handle: isize)
        requires
            self.wf(),
        ensures
            handle == self.state().visible_handle(),
            handle != NOT_READY <==> self.state().ready,
    {
        if self.state.ready {
            self.state.handle
        } else {
            NOT_READY
        }
    }

    /// Whether the readiness signal has been fired.
    pub fn is_ready(&self) -> (ready: bool)
        ensures
            ready == self.state().ready,
    {
        self.state.ready
    }

    /// Whether the pump loop has ended, or can no longer be reached.
    pub fn is_terminated(&self) -> (finished: bool)
        ensures
            finished == self.state().is_finished(),
    {
        match self.state.phase {
            Phase::Terminated => true,
            Phase::Failed(_) => true,
            _ => false,
        }
    }

    /// The phase of the pump thread.
    pub fn phase(&self) -> (phase: Phase)
        ensures
            phase == self.state().phase,
    {
        self.state.phase
    }

    /// The number of subscribers.
    pub fn subscriber_count(&self) -> (n: usize)
        ensures
            n == self.subscribers().len(),
    {
        self.subscribers.len()
    }
}

/// Registers `callback` with the event window, behind the subscribers that
/// are already there. The callback is called with the identifier and the two
/// parameters of every message that the live window serves from now on.
pub fn subscribe_to_background_window<E, F: Fn(u32, usize, isize) -> Result<(), E>>(
    window: &mut EventWindow<F>,
    callback: F,
)
    requires
        old(window).wf(),
        accepts_every_message(callback),
    ensures
        final(window).wf(),
        final(window).state() == old(window).state(),
        final(window).subscribers() == old(window).subscribers().push(callback),
{
    window.subscribe(callback);
}

} // verus!
