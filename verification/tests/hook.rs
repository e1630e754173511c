use sentinel_window::error::{HookError, HookKind};
use sentinel_window::hook::{
    get_message_hook, install_hook, loader_reason, may_inspect, win_proc_hook, win_proc_ret_hook,
    DllMain, HookAction, HookChain, InstallAction, InstallStage, LoaderReason, DLL_PROCESS_ATTACH,
    DLL_PROCESS_DETACH, DLL_THREAD_ATTACH, DLL_THREAD_DETACH,
};

const KINDS: [HookKind; 3] = [HookKind::WindowProc, HookKind::WindowProcReturn, HookKind::GetMessage];

fn attached(module: usize) -> HookChain {
    let mut chain = HookChain::new();
    assert!(DllMain(&mut chain, module, DLL_PROCESS_ATTACH));
    chain
}

/// Runs an install with the given outcomes and returns the hooks that were
/// asked for, in order, with the last answer.
fn run_install(
    chain: &mut HookChain,
    thread_id: u32,
    outcomes: [Option<usize>; 3],
) -> (Vec<HookKind>, InstallAction) {
    let mut attempted = Vec::new();
    let mut action = install_hook(chain, thread_id);
    let mut next = 0;
    while let InstallAction::Install { kind, module, thread_id: thread } = action {
        assert_eq!(Some(module), chain.module());
        assert_eq!(thread, thread_id);
        attempted.push(kind);
        action = chain.hook_installed(outcomes[next]);
        next += 1;
    }
    (attempted, action)
}

#[test]
fn install_succeeds_when_all_three_steps_succeed() {
    let mut chain = attached(0x4000);
    let (attempted, last) = run_install(&mut chain, 77, [Some(11), Some(22), Some(33)]);
    assert_eq!(attempted, KINDS.to_vec());
    assert_eq!(last, InstallAction::Succeeded);
    assert_eq!(chain.stage(), InstallStage::Installed);
    assert_eq!(chain.hook(HookKind::WindowProc), Some(11));
    assert_eq!(chain.hook(HookKind::WindowProcReturn), Some(22));
    assert_eq!(chain.hook(HookKind::GetMessage), Some(33));
    assert_eq!(chain.thread_id(), 77);
}

#[test]
fn install_stops_at_the_first_failure() {
    let handles = [Some(11usize), Some(22), Some(33)];
    for k in 0..3usize {
        let mut outcomes = handles;
        outcomes[k] = None;
        let mut chain = attached(0x4000);
        let (attempted, last) = run_install(&mut chain, 9, outcomes);
        assert_eq!(attempted, KINDS[..=k].to_vec());
        assert_eq!(last, InstallAction::Failed(HookError::HookInstall(KINDS[k])));
        assert_eq!(chain.stage(), InstallStage::Failed(HookError::HookInstall(KINDS[k])));
        for j in 0..3usize {
            let expected = if j < k { handles[j] } else { None };
            assert_eq!(chain.hook(KINDS[j]), expected);
        }
        assert_eq!(chain.hook_installed(Some(99)), InstallAction::Rejected);
        for j in 0..3usize {
            let expected = if j < k { handles[j] } else { None };
            assert_eq!(chain.hook(KINDS[j]), expected);
        }
    }
}

#[test]
fn later_failures_do_not_matter_after_the_first() {
    let mut chain = attached(1);
    let (attempted, last) = run_install(&mut chain, 9, [None, None, None]);
    assert_eq!(attempted, vec![HookKind::WindowProc]);
    assert_eq!(last, InstallAction::Failed(HookError::HookInstall(HookKind::WindowProc)));
}

#[test]
fn install_without_module_handle_fails_at_once() {
    let mut chain = HookChain::new();
    assert_eq!(chain.module(), None);
    assert_eq!(
        install_hook(&mut chain, 5),
        InstallAction::Failed(HookError::ModuleHandleUnavailable)
    );
    assert_eq!(chain.stage(), InstallStage::Failed(HookError::ModuleHandleUnavailable));
    assert_eq!(chain.hook_installed(Some(1)), InstallAction::Rejected);
    for kind in KINDS {
        assert_eq!(chain.hook(kind), None);
    }
}

#[test]
fn outcome_without_pending_step_is_rejected() {
    let mut chain = attached(3);
    assert_eq!(chain.stage(), InstallStage::Idle);
    assert_eq!(chain.hook_installed(Some(1)), InstallAction::Rejected);
    assert_eq!(chain.hook_installed(None), InstallAction::Rejected);
    assert_eq!(chain.stage(), InstallStage::Idle);
    assert_eq!(chain.hook(HookKind::WindowProc), None);
}

#[test]
fn install_begun_anew_keeps_handles_until_replaced() {
    let mut chain = attached(3);
    run_install(&mut chain, 1, [Some(11), Some(22), Some(33)]);
    let (attempted, last) = run_install(&mut chain, 2, [Some(44), None, Some(66)]);
    assert_eq!(attempted, vec![HookKind::WindowProc, HookKind::WindowProcReturn]);
    assert_eq!(last, InstallAction::Failed(HookError::HookInstall(HookKind::WindowProcReturn)));
    assert_eq!(chain.hook(HookKind::WindowProc), Some(44));
    assert_eq!(chain.hook(HookKind::WindowProcReturn), Some(22));
    assert_eq!(chain.hook(HookKind::GetMessage), Some(33));
    assert_eq!(chain.thread_id(), 2);
}

#[test]
fn loader_notifications_record_the_module_on_process_attach_only() {
    let mut chain = HookChain::new();
    assert!(DllMain(&mut chain, 0x10, DLL_THREAD_ATTACH));
    assert_eq!(chain.module(), None);
    assert!(DllMain(&mut chain, 0x10, DLL_THREAD_DETACH));
    assert_eq!(chain.module(), None);
    assert!(DllMain(&mut chain, 0x10, 12345));
    assert_eq!(chain.module(), None);
    assert!(DllMain(&mut chain, 0x10, DLL_PROCESS_ATTACH));
    assert_eq!(chain.module(), Some(0x10));
    assert!(DllMain(&mut chain, 0x20, DLL_PROCESS_DETACH));
    assert_eq!(chain.module(), Some(0x10));
}

#[test]
fn detach_removes_no_hook() {
    let mut chain = attached(0x10);
    run_install(&mut chain, 1, [Some(11), Some(22), Some(33)]);
    assert!(DllMain(&mut chain, 0x10, DLL_PROCESS_DETACH));
    assert_eq!(chain.stage(), InstallStage::Installed);
    assert_eq!(chain.hook(HookKind::WindowProc), Some(11));
    assert_eq!(chain.hook(HookKind::WindowProcReturn), Some(22));
    assert_eq!(chain.hook(HookKind::GetMessage), Some(33));
}

#[test]
fn loader_reason_codes() {
    assert_eq!(loader_reason(0), LoaderReason::ProcessDetach);
    assert_eq!(loader_reason(1), LoaderReason::ProcessAttach);
    assert_eq!(loader_reason(2), LoaderReason::ThreadAttach);
    assert_eq!(loader_reason(3), LoaderReason::ThreadDetach);
    assert_eq!(loader_reason(4), LoaderReason::Unknown);
    assert_eq!(loader_reason(u32::MAX), LoaderReason::Unknown);
}

#[test]
fn negative_filter_code_forwards_without_observation() {
    for n_code in [-1, -2, i32::MIN] {
        assert!(!may_inspect(n_code));
        for window in [None, Some(0usize), Some(0xABCD)] {
            assert_eq!(win_proc_hook(n_code, window), HookAction::Forward);
            assert_eq!(win_proc_ret_hook(n_code, window), HookAction::Forward);
            assert_eq!(get_message_hook(n_code, window), HookAction::Forward);
        }
    }
}

#[test]
fn hooks_observe_then_forward() {
    for n_code in [0, 3, i32::MAX] {
        assert!(may_inspect(n_code));
        assert_eq!(
            win_proc_hook(n_code, Some(0xABCD)),
            HookAction::ObserveThenForward { source: HookKind::WindowProc, window: 0xABCD }
        );
        assert_eq!(
            win_proc_ret_hook(n_code, Some(0xABCD)),
            HookAction::ObserveThenForward { source: HookKind::WindowProcReturn, window: 0xABCD }
        );
        assert_eq!(
            get_message_hook(n_code, Some(0)),
            HookAction::ObserveThenForward { source: HookKind::GetMessage, window: 0 }
        );
    }
}

#[test]
fn missing_record_is_forwarded() {
    assert_eq!(win_proc_hook(0, None), HookAction::Forward);
    assert_eq!(win_proc_ret_hook(0, None), HookAction::Forward);
    assert_eq!(get_message_hook(0, None), HookAction::Forward);
}
