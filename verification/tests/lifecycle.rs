use mangrove::controller::ControlError;
use mangrove::controller::ProcessController;
use mangrove::controller::StopTarget;
use mangrove::controller::TickOutcome;
use mangrove::probe::liveness_verdict;
use mangrove::probe::LivenessVerdict;

fn controller() -> ProcessController {
    ProcessController::new(16, 3000)
}

fn dead_round(children: usize) -> Vec<Option<bool>> {
    vec![Some(false); children]
}

#[test]
fn launch_gate_unauthenticated() {
    let c = controller();
    let r = c.validate_launch(false, Some(String::from("/bin/true")), true);
    assert_eq!(r.unwrap_err(), ControlError::Unauthorized);
}

#[test]
fn launch_gate_unresolved_application() {
    let c = controller();
    let r = c.validate_launch(true, None, false);
    assert_eq!(r.unwrap_err(), ControlError::NotFound);
}

#[test]
fn launch_gate_missing_executable() {
    let c = controller();
    let r = c.validate_launch(true, Some(String::from("/no/such/file")), false);
    assert_eq!(r.unwrap_err(), ControlError::InvalidTarget);
    // Nothing was created: no registry entry, no count, no status.
    assert_eq!(c.process_count(), 0);
    assert_eq!(
        c.status(&String::from("/no/such/file")).unwrap_err(),
        ControlError::NotFound
    );
}

#[test]
fn launch_gate_accepts_existing_path() {
    let c = controller();
    let r = c.validate_launch(true, Some(String::from("/bin/true")), true);
    assert_eq!(r.unwrap(), String::from("/bin/true"));
}

#[test]
fn launch_reports_running() {
    let mut c = controller();
    c.register_launch(&String::from("app-1"), String::from("4100"), 4100, vec![4101]);
    assert_eq!(c.process_count(), 1);
    let resp = c.status(&String::from("4100")).unwrap();
    assert_eq!(resp.status, String::from("Running"));
    assert_eq!(resp.pid, 4100);
    assert_eq!(resp.exit_code, None);
}

#[test]
fn death_tick_removes_and_publishes() {
    let mut c = controller();
    c.register_launch(&String::from("app-1"), String::from("4200"), 4200, vec![4201]);
    let mut rx = c.subscribe(&String::from("4200")).ok().unwrap();
    let (baseline, mut count_rx) = c.subscribe_count();
    assert_eq!(baseline, 1);

    let outcome = c.monitor_tick(
        &String::from("4200"),
        Some(false),
        &dead_round(1),
        None,
    );
    match outcome {
        TickOutcome::Ended(event) => assert_eq!(event, String::from("Stopped")),
        _ => panic!("a decisive all-dead round must end monitoring"),
    }
    // Within the same tick: the record is gone and the events went out.
    assert_eq!(
        c.status(&String::from("4200")).unwrap_err(),
        ControlError::NotFound
    );
    assert_eq!(rx.try_recv().unwrap(), String::from("Stopped"));
    assert_eq!(count_rx.try_recv().unwrap(), 0);
}

#[test]
fn death_with_exit_code_publishes_exited() {
    let mut c = controller();
    c.register_launch(&String::from("app-1"), String::from("4300"), 4300, vec![]);
    let mut rx = c.subscribe(&String::from("4300")).ok().unwrap();
    let outcome = c.monitor_tick(&String::from("4300"), Some(false), &vec![], Some(0));
    match outcome {
        TickOutcome::Ended(event) => assert_eq!(event, String::from("Exited")),
        _ => panic!("a decisive all-dead round must end monitoring"),
    }
    assert_eq!(rx.try_recv().unwrap(), String::from("Exited"));
}

#[test]
fn probe_error_keeps_the_record() {
    let mut c = controller();
    c.register_launch(&String::from("app-1"), String::from("4400"), 4400, vec![4401]);
    // Parent probe errored, child probe errored: not determinable, retry.
    let outcome = c.monitor_tick(&String::from("4400"), None, &vec![None], None);
    assert!(matches!(outcome, TickOutcome::KeepWatching));
    // One decisive "not alive" among errors is still not decisive.
    let outcome = c.monitor_tick(&String::from("4400"), Some(false), &vec![None], None);
    assert!(matches!(outcome, TickOutcome::KeepWatching));
    let resp = c.status(&String::from("4400")).unwrap();
    assert_eq!(resp.status, String::from("Running"));
    assert_eq!(c.process_count(), 1);
}

#[test]
fn surviving_child_keeps_the_record() {
    let mut c = controller();
    c.register_launch(&String::from("app-1"), String::from("4500"), 4500, vec![4501, 4502]);
    // The parent is gone but one descendant still runs: the tree is alive.
    let outcome = c.monitor_tick(
        &String::from("4500"),
        Some(false),
        &vec![Some(false), Some(true)],
        None,
    );
    assert!(matches!(outcome, TickOutcome::KeepWatching));
    assert_eq!(c.process_count(), 1);
}

#[test]
fn stop_twice_reports_not_found() {
    let mut c = controller();
    c.register_launch(&String::from("app-1"), String::from("4600"), 4600, vec![4601]);
    let plan = c.stop(&StopTarget::Process(String::from("4600"))).unwrap();
    assert_eq!(plan.process_id, String::from("4600"));
    assert_eq!(plan.os_pid, 4600);
    assert_eq!(plan.child_os_pids, vec![4601]);
    assert_eq!(c.process_count(), 0);
    // The identifier no longer resolves: the second stop is NotFound.
    let again = c.stop(&StopTarget::Process(String::from("4600")));
    assert_eq!(again.unwrap_err(), ControlError::NotFound);
}

#[test]
fn stop_by_application_unbinds() {
    let mut c = controller();
    c.register_launch(&String::from("app-1"), String::from("4700"), 4700, vec![]);
    let plan = c.stop(&StopTarget::Application(String::from("app-1"))).unwrap();
    assert_eq!(plan.process_id, String::from("4700"));
    // Registry and binding went together: the application no longer resolves.
    let again = c.stop(&StopTarget::Application(String::from("app-1")));
    assert_eq!(again.unwrap_err(), ControlError::NotFound);
}

#[test]
fn stop_unknown_application_reports_not_found() {
    let mut c = controller();
    let r = c.stop(&StopTarget::Application(String::from("app-none")));
    assert_eq!(r.unwrap_err(), ControlError::NotFound);
}

#[test]
fn relaunch_overwrites_binding() {
    let mut c = controller();
    c.register_launch(&String::from("app-1"), String::from("4800"), 4800, vec![]);
    c.register_launch(&String::from("app-1"), String::from("4801"), 4801, vec![]);
    // The binding now points at the newer launch.
    let plan = c.stop(&StopTarget::Application(String::from("app-1"))).unwrap();
    assert_eq!(plan.process_id, String::from("4801"));
    // The earlier process is still tracked, addressable by process id.
    let resp = c.status(&String::from("4800")).unwrap();
    assert_eq!(resp.status, String::from("Running"));
    let plan = c.stop(&StopTarget::Process(String::from("4800"))).unwrap();
    assert_eq!(plan.os_pid, 4800);
    assert_eq!(c.process_count(), 0);
}

#[test]
fn detached_monitor_sees_explicit_stop() {
    let mut c = controller();
    c.register_launch(&String::from("app-1"), String::from("4900"), 4900, vec![]);
    let mut rx = c.subscribe(&String::from("4900")).ok().unwrap();
    c.stop(&StopTarget::Process(String::from("4900"))).unwrap();
    // The monitor notices the absence on its next tick, publishes the final
    // event, and terminates.
    let outcome = c.monitor_tick(&String::from("4900"), None, &vec![], None);
    assert!(matches!(outcome, TickOutcome::Detached));
    assert_eq!(rx.try_recv().unwrap(), String::from("Stopped"));
}

#[test]
fn subscribe_unknown_process_rejected() {
    let mut c = controller();
    let r = c.subscribe(&String::from("5000"));
    assert!(matches!(r, Err(ControlError::NotFound)));
}

#[test]
fn count_subscriber_gets_current_baseline() {
    let mut c = controller();
    c.register_launch(&String::from("app-1"), String::from("5100"), 5100, vec![]);
    c.register_launch(&String::from("app-2"), String::from("5101"), 5101, vec![]);
    c.register_launch(&String::from("app-3"), String::from("5102"), 5102, vec![]);
    // Three processes tracked, no count change since: the baseline is 3.
    let (baseline, mut rx) = c.subscribe_count();
    assert_eq!(baseline, 3);
    assert!(rx.try_recv().is_err());
    // Deltas follow as they happen.
    c.stop(&StopTarget::Process(String::from("5101"))).unwrap();
    assert_eq!(rx.try_recv().unwrap(), 2);
}

#[test]
fn count_published_on_launch_and_death() {
    let mut c = controller();
    let (baseline, mut rx) = c.subscribe_count();
    assert_eq!(baseline, 0);
    c.register_launch(&String::from("app-1"), String::from("5200"), 5200, vec![]);
    assert_eq!(rx.try_recv().unwrap(), 1);
    let outcome = c.monitor_tick(&String::from("5200"), Some(false), &vec![], None);
    assert!(matches!(outcome, TickOutcome::Ended(_)));
    assert_eq!(rx.try_recv().unwrap(), 0);
}

#[test]
fn monitor_poll_and_child_refresh() {
    let mut c = controller();
    c.register_launch(&String::from("app-1"), String::from("5300"), 5300, vec![5301]);
    let (pid, children) = c.monitor_poll(&String::from("5300")).unwrap();
    assert_eq!(pid, 5300);
    assert_eq!(children, vec![5301]);
    // A fresh discovery pass replaces the snapshot.
    c.refresh_children(&String::from("5300"), Some(vec![5301, 5302]));
    let (_, children) = c.monitor_poll(&String::from("5300")).unwrap();
    assert_eq!(children, vec![5301, 5302]);
    // A failed discovery keeps the previous snapshot.
    c.refresh_children(&String::from("5300"), None);
    let (_, children) = c.monitor_poll(&String::from("5300")).unwrap();
    assert_eq!(children, vec![5301, 5302]);
    assert!(c.monitor_poll(&String::from("5999")).is_none());
}

#[test]
fn verdict_decides_rounds() {
    assert_eq!(liveness_verdict(Some(true), &vec![]), LivenessVerdict::Alive);
    assert_eq!(
        liveness_verdict(Some(false), &vec![Some(false), Some(true)]),
        LivenessVerdict::Alive
    );
    assert_eq!(liveness_verdict(Some(false), &vec![]), LivenessVerdict::Dead);
    assert_eq!(
        liveness_verdict(Some(false), &vec![Some(false), Some(false)]),
        LivenessVerdict::Dead
    );
    assert_eq!(liveness_verdict(None, &vec![]), LivenessVerdict::Unknown);
    assert_eq!(
        liveness_verdict(Some(false), &vec![Some(false), None]),
        LivenessVerdict::Unknown
    );
    assert_eq!(
        liveness_verdict(None, &vec![Some(true)]),
        LivenessVerdict::Alive
    );
}

#[test]
fn two_subscribers_both_receive() {
    let mut c = controller();
    c.register_launch(&String::from("app-1"), String::from("5400"), 5400, vec![]);
    let mut rx1 = c.subscribe(&String::from("5400")).ok().unwrap();
    let mut rx2 = c.subscribe(&String::from("5400")).ok().unwrap();
    let outcome = c.monitor_tick(&String::from("5400"), Some(false), &vec![], None);
    assert!(matches!(outcome, TickOutcome::Ended(_)));
    assert_eq!(rx1.try_recv().unwrap(), String::from("Stopped"));
    assert_eq!(rx2.try_recv().unwrap(), String::from("Stopped"));
}

#[test]
fn poll_interval_is_kept() {
    let c = ProcessController::new(16, 5500);
    assert_eq!(c.poll_interval_millis(), 5500);
}
