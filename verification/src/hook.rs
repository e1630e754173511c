//! The global hook module: the chain of three hooks that is installed on a
//! target thread, the loader notifications that give the module its handle,
//! and what each hook does with an intercepted event.
//!
//! The module never calls the operating system itself. An install is a
//! dialogue: [`install_hook`] and [`HookChain::hook_installed`] say which hook
//! to install next, and the caller reports what came of it.

use vstd::prelude::*;
use crate::error::{HookError, HookKind};

verus! {

/// The loader's reason code for a process that unloads the module.
pub const DLL_PROCESS_DETACH: u32 = 0;

/// The loader's reason code for a process that loads the module.
pub const DLL_PROCESS_ATTACH: u32 = 1;

/// The loader's reason code for a thread that starts in the process.
pub const DLL_THREAD_ATTACH: u32 = 2;

/// The loader's reason code for a thread that ends in the process.
pub const DLL_THREAD_DETACH: u32 = 3;

/// What a loader notification is about.
#[derive(Clone, Copy, Debug, PartialEq, Eq, Structural)]
pub enum LoaderReason {
    ProcessAttach,
    ProcessDetach,
    ThreadAttach,
    ThreadDetach,
    Unknown,
}

/// How far the install of a chain has come.
#[derive(Clone, Copy, Debug, PartialEq, Eq, Structural)]
pub enum InstallStage {
    /// No install has been requested.
    Idle,
    /// The install of the named hook has been asked for and its outcome is
    /// awaited.
    Installing(HookKind),
    /// All three hooks are installed.
    Installed,
    /// The install was given up with the given error.
    Failed(HookError),
}

/// What the caller of an install has to do next.
#[derive(Clone, Copy, Debug, PartialEq, Eq, Structural)]
pub enum InstallAction {
    /// Install the named hook for the given thread, anchored to the given
    /// module, and report the outcome.
    Install { kind: HookKind, module: usize, thread_id: u32 },
    /// All three hooks are installed: the install succeeded.
    Succeeded,
    /// The install failed; nothing more is attempted and nothing is undone.
    Failed(HookError),
    /// No install step is pending; nothing changed.
    Rejected,
}

/// What a hook does with an intercepted event. Either way the event goes on
/// to the next hook of the chain, and the hook returns what that one
/// returned.
#[derive(Clone, Copy, Debug, PartialEq, Eq, Structural)]
pub enum HookAction {
    /// Pass the event on untouched.
    Forward,
    /// Report the window that the event is for, then pass the event on.
    ObserveThenForward { source: HookKind, window: usize },
}

/// The place of a hook in the order of installation.
pub open spec fn position(kind: HookKind) -> int {
    match kind {
        HookKind::WindowProc => 0,
        HookKind::WindowProcReturn => 1,
        HookKind::GetMessage => 2,
    }
}

/// The hook that is installed at place `i`.
pub open spec fn kind_at(i: int) -> HookKind {
    if i <= 0 {
        HookKind::WindowProc
    } else if i == 1 {
        HookKind::WindowProcReturn
    } else {
        HookKind::GetMessage
    }
}

/// The hook that is installed after `kind`, if there is one.
pub open spec fn successor(kind: HookKind) -> Option<HookKind> {
    match kind {
        HookKind::WindowProc => Some(HookKind::WindowProcReturn),
        HookKind::WindowProcReturn => Some(HookKind::GetMessage),
        HookKind::GetMessage => None,
    }
}

/// What the loader's reason code stands for.
pub open spec fn reason_of(code: u32) -> LoaderReason {
    if code == DLL_PROCESS_ATTACH {
        LoaderReason::ProcessAttach
    } else if code == DLL_PROCESS_DETACH {
        LoaderReason::ProcessDetach
    } else if code == DLL_THREAD_ATTACH {
        LoaderReason::ThreadAttach
    } else if code == DLL_THREAD_DETACH {
        LoaderReason::ThreadDetach
    } else {
        LoaderReason::Unknown
    }
}

/// Whether the filter code of a hook call allows the hook to look at the
/// event. A negative code means that the event must be passed on at once.
pub open spec fn allows_inspection(n_code: i32) -> bool {
    n_code >= 0
}

/// What the hook `source` does when it is called with filter code `n_code`
/// for an event whose record names `window`; `None` stands for a record that
/// is missing.
pub open spec fn hook_action(source: HookKind, n_code: i32, window: Option<usize>) -> HookAction {
    match window {
        Some(window) if allows_inspection(n_code) => HookAction::ObserveThenForward {
            source,
            window,
        },
        _ => HookAction::Forward,
    }
}

/// The state of a hook chain: the module handle that the loader gave, the
/// target thread, the handles of the hooks that are installed, and how far
/// the install has come.
#[derive(Clone, Copy, Debug, PartialEq, Eq, Structural)]
pub struct ChainState {
    pub module: Option<usize>,
    pub thread_id: u32,
    pub win_proc: Option<usize>,
    pub win_proc_ret: Option<usize>,
    pub get_message: Option<usize>,
    pub stage: InstallStage,
}

impl ChainState {
    /// The state of a module that has just been loaded.
    pub open spec fn initial() -> ChainState {
        ChainState {
            module: None,
            thread_id: 0,
            win_proc: None,
            win_proc_ret: None,
            get_message: None,
            stage: InstallStage::Idle,
        }
    }

    /// An install step is pending only with a module handle, and a chain
    /// counts as installed only with all three hooks.
    pub open spec fn wf(self) -> bool {
        &&& self.stage is Installing ==> self.module is Some
        &&& self.stage is Installed ==> {
            &&& self.win_proc is Some
            &&& self.win_proc_ret is Some
            &&& self.get_message is Some
        }
        &&& self.stage matches InstallStage::Installing(kind) ==> forall|i: int|
            0 <= i < position(kind) ==> self.hook(#[trigger] kind_at(i)) is Some
    }

    /// The handle of the hook `kind`, if it is installed.
    pub open spec fn hook(self, kind: HookKind) -> Option<usize> {
        match kind {
            HookKind::WindowProc => self.win_proc,
            HookKind::WindowProcReturn => self.win_proc_ret,
            HookKind::GetMessage => self.get_message,
        }
    }

    /// This state with `handle` as the handle of the hook `kind`.
    pub open spec fn with_hook(self, kind: HookKind, handle: usize) -> ChainState {
        match kind {
            HookKind::WindowProc => ChainState { win_proc: Some(handle), ..self },
            HookKind::WindowProcReturn => ChainState { win_proc_ret: Some(handle), ..self },
            HookKind::GetMessage => ChainState { get_message: Some(handle), ..self },
        }
    }

    /// The state after a loader notification: the module handle is recorded
    /// when a process attaches, and nothing changes otherwise. No hook is
    /// removed when the process detaches.
    pub open spec fn after_loader(self, module: usize, reason: u32) -> ChainState {
        if reason == DLL_PROCESS_ATTACH {
            ChainState { module: Some(module), ..self }
        } else {
            self
        }
    }

    /// The state after an install for `thread_id` has been requested.
    pub open spec fn after_request(self, thread_id: u32) -> ChainState {
        if self.module is Some {
            ChainState { thread_id, stage: InstallStage::Installing(HookKind::WindowProc), ..self }
        } else {
            ChainState { stage: InstallStage::Failed(HookError::ModuleHandleUnavailable), ..self }
        }
    }

    /// The answer to the request of an install for `thread_id`.
    pub open spec fn request_action(self, thread_id: u32) -> InstallAction {
        match self.module {
            Some(module) => InstallAction::Install {
                kind: HookKind::WindowProc,
                module,
                thread_id,
            },
            None => InstallAction::Failed(HookError::ModuleHandleUnavailable),
        }
    }

    /// The state after the outcome of the pending install step has been
    /// reported: `Some` with the handle of the new hook, or `None` for a
    /// failure.
    pub open spec fn after_outcome(self, outcome: Option<usize>) -> ChainState {
        match self.stage {
            InstallStage::Installing(kind) => match outcome {
                Some(handle) => match successor(kind) {
                    Some(next) => ChainState {
                        stage: InstallStage::Installing(next),
                        ..self.with_hook(kind, handle)
                    },
                    None => ChainState {
                        stage: InstallStage::Installed,
                        ..self.with_hook(kind, handle)
                    },
                },
                None => ChainState {
                    stage: InstallStage::Failed(HookError::HookInstall(kind)),
                    ..self
                },
            },
            _ => self,
        }
    }

    /// The answer to the report of an outcome.
    pub open spec fn outcome_action(self, outcome: Option<usize>) -> InstallAction {
        match self.stage {
            InstallStage::Installing(kind) => match outcome {
                Some(_) => match successor(kind) {
                    Some(next) => InstallAction::Install {
                        kind: next,
                        module: self.module.unwrap(),
                        thread_id: self.thread_id,
                    },
                    None => InstallAction::Succeeded,
                },
                None => InstallAction::Failed(HookError::HookInstall(kind)),
            },
            _ => InstallAction::Rejected,
        }
    }

    /// The state after the outcomes have been reported one after another, as
    /// long as an install step is pending.
    pub open spec fn drive(self, outcomes: Seq<Option<usize>>) -> ChainState
        decreases outcomes.len(),
    {
        if outcomes.len() == 0 || !(self.stage is Installing) {
            self
        } else {
            self.after_outcome(outcomes[0]).drive(outcomes.subrange(1, outcomes.len() as int))
        }
    }

    /// The hooks whose install is attempted while the outcomes are reported
    /// one after another: the pending one, and each one that is asked for in
    /// answer to a report.
    pub open spec fn attempts(self, outcomes: Seq<Option<usize>>) -> Seq<HookKind>
        decreases outcomes.len(),
    {
        match self.stage {
            InstallStage::Installing(kind) => {
                if outcomes.len() == 0 {
                    seq![kind]
                } else {
                    seq![kind] + self.after_outcome(outcomes[0]).attempts(
                        outcomes.subrange(1, outcomes.len() as int),
                    )
                }
            },
            _ => Seq::empty(),
        }
    }
}

/// The hook chain of a loaded module.
pub struct HookChain {
    state: ChainState,
}

impl View for HookChain {
    type V = ChainState;

    closed spec fn view(&self) -> ChainState {
        self.state
    }
}

impl HookChain {
    /// The chain of a module that has just been loaded: no module handle,
    /// no hook, no install requested.
    pub fn new() -> (chain: Self)
        ensures
            chain@ == ChainState::initial(),
            chain@.wf(),
    {
        HookChain {
            state: ChainState {
                module: None,
                thread_id: 0,
                win_proc: None,
                win_proc_ret: None,
                get_message: None,
                stage: InstallStage::Idle,
            },
        }
    }

    /// Takes the outcome of the install step that is pending, `Some` with
    /// the handle of the new hook or `None` for a failure, and says what
    /// comes next. After a failure nothing more is attempted and the hooks
    /// that are installed stay installed.
    pub fn hook_installed(&mut self, outcome: Option<usize>) -> (action: InstallAction)
        requires
            old(self)@.wf(),
        ensures
            final(self)@.wf(),
            final(self)@ == old(self)@.after_outcome(outcome),
            action == old(self)@.outcome_action(outcome),
    {
        let kind = match self.state.stage {
            InstallStage::Installing(kind) => kind,
            _ => {
                return InstallAction::Rejected;
            },
        };
        let handle = match outcome {
            Some(handle) => handle,
            None => {
                self.state.stage = InstallStage::Failed(HookError::HookInstall(kind));
                return InstallAction::Failed(HookError::HookInstall(kind));
            },
        };
        let module = self.state.module.unwrap();
        match kind {
            HookKind::WindowProc => {
                self.state.win_proc = Some(handle);
                self.state.stage = InstallStage::Installing(HookKind::WindowProcReturn);
                assert(kind_at(0) == HookKind::WindowProc);
                InstallAction::Install {
                    kind: HookKind::WindowProcReturn,
                    module,
                    thread_id: self.state.thread_id,
                }
            },
            HookKind::WindowProcReturn => {
                self.state.win_proc_ret = Some(handle);
                self.state.stage = InstallStage::Installing(HookKind::GetMessage);
                proof {
                    assert(old(self)@.hook(kind_at(0)) is Some);
                    assert(kind_at(1) == HookKind::WindowProcReturn);
                }
                InstallAction::Install {
                    kind: HookKind::GetMessage,
                    module,
                    thread_id: self.state.thread_id,
                }
            },
            HookKind::GetMessage => {
                self.state.get_message = Some(handle);
                self.state.stage = InstallStage::Installed;
                proof {
                    assert(old(self)@.hook(kind_at(0)) is Some);
                    assert(old(self)@.hook(kind_at(1)) is Some);
                }
                InstallAction::Succeeded
            },
        }
    }

    /// The module handle that the loader gave, if it gave one.
    pub fn module(&self) -> (module: Option<usize>)
        ensures
            module == self@.module,
    {
        self.state.module
    }

    /// The thread of the last install that was begun.
    pub fn thread_id(&self) -> (thread_id: u32)
        ensures
            thread_id == self@.thread_id,
    {
        self.state.thread_id
    }

    /// The handle of the hook `kind`, if it is installed.
    pub fn hook(&self, kind: HookKind) -> (handle: Option<usize>)
        ensures
            handle == self@.hook(kind),
    {
        match kind {
            HookKind::WindowProc => self.state.win_proc,
            HookKind::WindowProcReturn => self.state.win_proc_ret,
            HookKind::GetMessage => self.state.get_message,
        }
    }

    /// How far the install has come.
    pub fn stage(&self) -> (stage: InstallStage)
        ensures
            stage == self@.stage,
    {
        self.state.stage
    }
}

/// Begins the install of the three hooks on the thread `thread_id`. With a
/// module handle the answer asks for the first hook; without one the install
/// fails at once and no hook is attempted. An install that is begun anew
/// starts with the first hook again and keeps the handles it has until they
/// are replaced.
pub fn install_hook(chain: &mut HookChain, thread_id: u32) -> (action: InstallAction)
    requires
        old(chain)@.wf(),
    ensures
        final(chain)@.wf(),
        final(chain)@ == old(chain)@.after_request(thread_id),
        action == old(chain)@.request_action(thread_id),
{
    match chain.state.module {
        Some(module) => {
            chain.state.thread_id = thread_id;
            chain.state.stage = InstallStage::Installing(HookKind::WindowProc);
            InstallAction::Install { kind: HookKind::WindowProc, module, thread_id }
        },
        None => {
            chain.state.stage = InstallStage::Failed(HookError::ModuleHandleUnavailable);
            InstallAction::Failed(HookError::ModuleHandleUnavailable)
        },
    }
}

/// Says what a loader notification is about.
pub fn loader_reason(code: u32) -> (reason: LoaderReason)
    ensures
        reason == reason_of(code),
{
    if code == DLL_PROCESS_ATTACH {
        LoaderReason::ProcessAttach
    } else if code == DLL_PROCESS_DETACH {
        LoaderReason::ProcessDetach
    } else if code == DLL_THREAD_ATTACH {
        LoaderReason::ThreadAttach
    } else if code == DLL_THREAD_DETACH {
        LoaderReason::ThreadDetach
    } else {
        LoaderReason::Unknown
    }
}

/// Takes a loader notification. When a process attaches, the module handle
/// is recorded for a later install; every other notification leaves the
/// chain as it is, and no hook is removed on detach. Every notification is
/// accepted.
#[allow(non_snake_case)]
pub fn DllMain(chain: &mut HookChain, dll_handle: usize, reason: u32) -> (accepted: bool)
    requires
        old(chain)@.wf(),
    ensures
        accepted,
        final(chain)@.wf(),
        final(chain)@ == old(chain)@.after_loader(dll_handle, reason),
{
    match loader_reason(reason) {
        LoaderReason::ProcessAttach => {
            chain.state.module = Some(dll_handle);
        },
        _ => {},
    }
    true
}

/// Whether a hook that was called with filter code `n_code` may look at the
/// record of the event. It may not when the code is negative.
pub fn may_inspect(n_code: i32) -> (allowed: bool)
    ensures
        allowed == allows_inspection(n_code),
{
    n_code >= 0
}

/// What a hook of kind `source` does with an event.
fn decide(source: HookKind, n_code: i32, window: Option<usize>) -> (action: HookAction)
    ensures
        action == hook_action(source, n_code, window),
{
    if n_code < 0 {
        return HookAction::Forward;
    }
    match window {
        Some(window) => HookAction::ObserveThenForward { source, window },
        None => HookAction::Forward,
    }
}

/// The hook that sees a window procedure call before it is dispatched.
/// `window` is the window named by the record of the call, or `None` when
/// the record is missing. With a negative filter code the event is passed on
/// whatever the record holds.
pub fn win_proc_hook(n_code: i32, window: Option<usize>) -> (action: HookAction)
    ensures
        action == hook_action(HookKind::WindowProc, n_code, window),
{
    decide(HookKind::WindowProc, n_code, window)
}

/// The hook that sees a window procedure call after it has returned.
/// `window` is the window named by the record of the call, or `None` when
/// the record is missing. With a negative filter code the event is passed on
/// whatever the record holds.
pub fn win_proc_ret_hook(n_code: i32, window: Option<usize>) -> (action: HookAction)
    ensures
        action == hook_action(HookKind::WindowProcReturn, n_code, window),
{
    decide(HookKind::WindowProcReturn, n_code, window)
}

/// The hook that sees a message as it is retrieved from the queue. `window`
/// is the window named by the message, or `None` when the message is
/// missing. With a negative filter code the event is passed on whatever the
/// message holds.
pub fn get_message_hook(n_code: i32, window: Option<usize>) -> (action: HookAction)
    ensures
        action == hook_action(HookKind::GetMessage, n_code, window),
{
    decide(HookKind::GetMessage, n_code, window)
}

/// The request of an install and every report of an outcome lead from a
/// well-formed chain to a well-formed chain, and so does every loader
/// notification.
pub proof fn lemma_chain_steps_preserve_wf(
    s: ChainState,
    thread_id: u32,
    outcome: Option<usize>,
    module: usize,
    reason: u32,
)
    requires
        s.wf(),
    ensures
        s.after_request(thread_id).wf(),
        s.after_outcome(outcome).wf(),
        s.after_loader(module, reason).wf(),
{
    match s.stage {
        InstallStage::Installing(kind) => {
            match kind {
                HookKind::WindowProc => {
                    assert(kind_at(0) == HookKind::WindowProc);
                },
                HookKind::WindowProcReturn => {
                    assert(s.hook(kind_at(0)) is Some);
                    assert(kind_at(1) == HookKind::WindowProcReturn);
                },
                HookKind::GetMessage => {
                    assert(s.hook(kind_at(0)) is Some);
                    assert(s.hook(kind_at(1)) is Some);
                },
            }
        },
        _ => {},
    }
}

/// Of three install steps that can each fail, the first failure ends the
/// install. If the step at place `k` is the first to fail, then the hooks
/// before it are installed with the handles that were reported and stay so,
/// the hooks from place `k` on are as they were before the install, the
/// steps after place `k` are never attempted, and the install reports the
/// failure of the hook at place `k`.
pub proof fn lemma_install_stops_at_first_failure(
    s: ChainState,
    thread_id: u32,
    outcomes: Seq<Option<usize>>,
    k: int,
)
    requires
        s.module is Some,
        outcomes.len() == 3,
        0 <= k < 3,
        outcomes[k] is None,
        forall|j: int| 0 <= j < k ==> outcomes[j] is Some,
    ensures
        s.request_action(thread_id) is Install,
        s.after_request(thread_id).drive(outcomes).stage == InstallStage::Failed(
            HookError::HookInstall(kind_at(k)),
        ),
        s.after_request(thread_id).attempts(outcomes) == Seq::new(
            (k + 1) as nat,
            |i: int| kind_at(i),
        ),
        forall|j: int|
            0 <= j < k ==> s.after_request(thread_id).drive(outcomes).hook(#[trigger] kind_at(j))
                == outcomes[j],
        forall|j: int|
            k <= j < 3 ==> s.after_request(thread_id).drive(outcomes).hook(#[trigger] kind_at(j))
                == s.hook(kind_at(j)),
        s.after_request(thread_id).drive(outcomes).module == s.module,
{
    let s0 = s.after_request(thread_id);
    let o1 = outcomes.subrange(1, 3);
    let o2 = o1.subrange(1, 2);
    let o3 = o2.subrange(1, 1);
    let s1 = s0.after_outcome(outcomes[0]);
    let s2 = s1.after_outcome(o1[0]);
    let s3 = s2.after_outcome(o2[0]);
    assert(o1[0] == outcomes[1]);
    assert(o2[0] == outcomes[2]);
    assert(o3.len() == 0);
    assert(s0.drive(outcomes) == s1.drive(o1));
    assert(s0.attempts(outcomes) == seq![HookKind::WindowProc] + s1.attempts(o1));
    assert(kind_at(0) == HookKind::WindowProc);
    assert(kind_at(1) == HookKind::WindowProcReturn);
    assert(kind_at(2) == HookKind::GetMessage);
    let expected = Seq::new((k + 1) as nat, |i: int| kind_at(i));
    if k == 0 {
        assert(s1.drive(o1) == s1);
        assert(s1.attempts(o1) == Seq::<HookKind>::empty());
        assert(s0.attempts(outcomes) =~= expected);
    } else {
        assert(outcomes[0] is Some);
        assert(s1.drive(o1) == s2.drive(o2));
        assert(s1.attempts(o1) == seq![HookKind::WindowProcReturn] + s2.attempts(o2));
        if k == 1 {
            assert(s2.drive(o2) == s2);
            assert(s2.attempts(o2) == Seq::<HookKind>::empty());
            assert(s0.attempts(outcomes) =~= expected);
        } else {
            assert(outcomes[1] is Some);
            assert(s2.drive(o2) == s3.drive(o3));
            assert(s3.drive(o3) == s3);
            assert(s2.attempts(o2) == seq![HookKind::GetMessage] + s3.attempts(o3));
            assert(s3.attempts(o3) == Seq::<HookKind>::empty());
            assert(s0.attempts(outcomes) =~= expected);
        }
    }
}

/// When none of the three install steps fails, the chain is installed with
/// the three handles that were reported, each hook was attempted once and in
/// order, and the last report is answered with success.
pub proof fn lemma_install_succeeds_when_no_step_fails(
    s: ChainState,
    thread_id: u32,
    outcomes: Seq<Option<usize>>,
)
    requires
        s.module is Some,
        outcomes.len() == 3,
        forall|j: int| 0 <= j < 3 ==> outcomes[j] is Some,
    ensures
        s.after_request(thread_id).drive(outcomes).stage == InstallStage::Installed,
        s.after_request(thread_id).attempts(outcomes) == Seq::new(3, |i: int| kind_at(i)),
        forall|j: int|
            0 <= j < 3 ==> s.after_request(thread_id).drive(outcomes).hook(#[trigger] kind_at(j))
                == outcomes[j],
        s.after_request(thread_id).after_outcome(outcomes[0]).after_outcome(
            outcomes[1],
        ).outcome_action(outcomes[2]) == InstallAction::Succeeded,
{
    let s0 = s.after_request(thread_id);
    let o1 = outcomes.subrange(1, 3);
    let o2 = o1.subrange(1, 2);
    let o3 = o2.subrange(1, 1);
    let s1 = s0.after_outcome(outcomes[0]);
    let s2 = s1.after_outcome(o1[0]);
    let s3 = s2.after_outcome(o2[0]);
    assert(o1[0] == outcomes[1]);
    assert(o2[0] == outcomes[2]);
    assert(outcomes[0] is Some);
    assert(outcomes[1] is Some);
    assert(outcomes[2] is Some);
    assert(s0.drive(outcomes) == s1.drive(o1));
    assert(s1.drive(o1) == s2.drive(o2));
    assert(s2.drive(o2) == s3.drive(o3));
    assert(s3.drive(o3) == s3);
    assert(s0.attempts(outcomes) == seq![HookKind::WindowProc] + s1.attempts(o1));
    assert(s1.attempts(o1) == seq![HookKind::WindowProcReturn] + s2.attempts(o2));
    assert(s2.attempts(o2) == seq![HookKind::GetMessage] + s3.attempts(o3));
    assert(s3.attempts(o3) == Seq::<HookKind>::empty());
    assert(kind_at(0) == HookKind::WindowProc);
    assert(kind_at(1) == HookKind::WindowProcReturn);
    assert(kind_at(2) == HookKind::GetMessage);
    assert(s0.attempts(outcomes) =~= Seq::new(3, |i: int| kind_at(i)));
}

/// Without a module handle an install fails at once: no hook is attempted
/// and no hook changes.
pub proof fn lemma_install_needs_module(s: ChainState, thread_id: u32, outcomes: Seq<Option<usize>>)
    requires
        s.module is None,
    ensures
        s.request_action(thread_id) == InstallAction::Failed(HookError::ModuleHandleUnavailable),
        s.after_request(thread_id).attempts(outcomes) == Seq::<HookKind>::empty(),
        s.after_request(thread_id).drive(outcomes) == s.after_request(thread_id),
        forall|kind: HookKind| s.after_request(thread_id).hook(kind) == s.hook(kind),
{
}

/// A hook never keeps an event from the rest of the chain, and with a
/// negative filter code it does not look at the event: the answer is then to
/// pass the event on, whatever the record holds.
pub proof fn lemma_negative_code_passes_through(
    source: HookKind,
    n_code: i32,
    window: Option<usize>,
)
    requires
        n_code < 0,
    ensures
        hook_action(source, n_code, window) == HookAction::Forward,
        hook_action(source, n_code, window) == hook_action(source, n_code, None),
{
}


} // verus!
