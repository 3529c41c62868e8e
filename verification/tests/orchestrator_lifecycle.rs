//! The refresh task lifecycle: one live task at a time, retirement on
//! manual refresh, and the simulation-mode no-op.

use weathr::orchestrator::RefreshOrchestrator;
use weathr::types::Provider;

#[test]
fn start_spawns_one_live_task() {
    let mut orch = RefreshOrchestrator::new(Some(Provider::OpenMeteo));
    let g = orch.start().expect("a configured orchestrator starts a task");
    assert!(orch.can_deliver(g));
    assert!(orch.start().is_none(), "a second start is refused while a task lives");
}

#[test]
fn manual_refresh_retires_the_old_task() {
    let mut orch = RefreshOrchestrator::new(Some(Provider::OpenMeteo));
    let g0 = orch.start().unwrap();
    let g1 = orch.manual_refresh().expect("refresh spawns a task");
    assert!(!orch.can_deliver(g0), "the old task's sends can no longer reach the consumer");
    assert!(orch.can_deliver(g1));
    assert!(orch.refreshing);
}

#[test]
fn two_rapid_refreshes_leave_exactly_one_live_task() {
    let mut orch = RefreshOrchestrator::new(Some(Provider::OpenMeteo));
    let g0 = orch.start().unwrap();
    let g1 = orch.manual_refresh().unwrap();
    let g2 = orch.manual_refresh().unwrap();
    assert!(!orch.can_deliver(g0));
    assert!(!orch.can_deliver(g1));
    assert!(orch.can_deliver(g2));
    let live: Vec<u64> = [g0, g1, g2].into_iter().filter(|g| orch.can_deliver(*g)).collect();
    assert_eq!(live, vec![g2], "exactly one task's sends can reach the consumer");
}

#[test]
fn simulation_mode_never_runs_a_task() {
    let mut orch = RefreshOrchestrator::new(None);
    assert!(orch.start().is_none());
    assert!(orch.manual_refresh().is_none(), "manual refresh is a no-op without a provider");
    assert!(!orch.refreshing);
    assert_eq!(orch.spawned, 0);
}

#[test]
fn delivery_ends_the_refreshing_state() {
    let mut orch = RefreshOrchestrator::new(Some(Provider::MetOffice));
    orch.start().unwrap();
    orch.manual_refresh().unwrap();
    assert!(orch.refreshing);
    orch.note_result_delivered();
    assert!(!orch.refreshing);
}

#[test]
fn teardown_silences_every_task() {
    let mut orch = RefreshOrchestrator::new(Some(Provider::OpenMeteo));
    let g = orch.start().unwrap();
    orch.teardown();
    assert!(!orch.can_deliver(g), "after teardown no task reaches the consumer");
}
