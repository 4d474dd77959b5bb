//! The kernel lifecycle, the connection slot, and the session bridge,
//! exercised end to end on concrete values.

use notedag_server::bridge::Bridge;
use notedag_server::connection::{connect_outcome, liveness_update, KernelConnection};
use notedag_server::kernel::{launch_outcome, plan_launch, Kernel, KernelSpec};
use notedag_server::models::{KernelError, RunCell};
use notedag_server::normalize::{ExecState, IoPubEvent};
use notedag_server::registry::Outbound;

fn cell(id: &str, value: &str) -> RunCell {
    RunCell { id: id.to_string(), value: value.to_string() }
}

fn update_triple(m: &Outbound) -> (String, String, String) {
    match m {
        Outbound::Update(u) => (u.id.clone(), u.name.clone(), u.value.clone()),
        Outbound::Status(_) => panic!("expected a cell update"),
    }
}

fn status_of(m: &Outbound) -> String {
    match m {
        Outbound::Status(k) => k.status.clone(),
        Outbound::Update(_) => panic!("expected a status message"),
    }
}

#[test]
fn available_kernels_is_one_ipython() {
    let kernels = KernelSpec::get_available_kernels().unwrap();
    assert_eq!(kernels.len(), 1);
    assert_eq!(kernels[0].cmd, "ipython");
    assert_eq!(kernels[0].args, vec!["kernel".to_string(), "-f".to_string()]);
}

#[test]
fn launch_plan_has_fresh_descriptor_last() {
    let spec = KernelSpec {
        cmd: "ipython".to_string(),
        args: vec!["kernel".to_string(), "-f".to_string()],
    };
    let plan = plan_launch(&spec);
    assert_eq!(plan.cmd, "ipython");
    assert_eq!(plan.file.len(), 50);
    assert!(plan.file.starts_with("./kernel-"));
    assert!(plan.file.ends_with(".json"));
    assert_eq!(plan.args.len(), 3);
    assert_eq!(plan.args[0], "kernel");
    assert_eq!(plan.args[1], "-f");
    assert_eq!(plan.args[2], plan.file);
}

#[test]
fn launch_plans_do_not_share_descriptor_files() {
    let spec = KernelSpec { cmd: "ipython".to_string(), args: vec![] };
    let a = plan_launch(&spec);
    let b = plan_launch(&spec);
    assert_ne!(a.file, b.file);
}

#[test]
fn shutdown_twice_is_a_no_op_the_second_time() {
    let spec = KernelSpec { cmd: "ipython".to_string(), args: vec![] };
    let plan = plan_launch(&spec);
    let file = plan.file.clone();
    let mut kernel = Kernel::started(spec, plan.file);
    assert!(kernel.shutdown());
    assert!(!kernel.shutdown());
    assert!(!kernel.shutdown());
    assert_eq!(kernel.file, file);
}

#[test]
fn launch_outcome_maps_each_failure() {
    assert_eq!(launch_outcome(false, false), Err(KernelError::Launch));
    assert_eq!(launch_outcome(false, true), Err(KernelError::Launch));
    assert_eq!(launch_outcome(true, false), Err(KernelError::ReadinessTimeout));
    assert_eq!(launch_outcome(true, true), Ok(()));
}

#[test]
fn connect_outcome_needs_the_descriptor() {
    let conn = connect_outcome(true).unwrap();
    assert!(conn.last_run_cell.is_none());
    assert_eq!(connect_outcome(false).err(), Some(KernelError::Connect));
}

#[test]
fn submission_result_follows_the_reply() {
    let conn = KernelConnection::new();
    assert_eq!(conn.complete_submission(Some(4)), Ok(4));
    assert_eq!(conn.complete_submission(None), Err(KernelError::Execution));
}

#[test]
fn recorded_submission_becomes_the_current_cell() {
    let mut conn = KernelConnection::new();
    conn.record_submission(cell("c1", "1+1"));
    let current = conn.last_run_cell.as_ref().unwrap();
    assert_eq!(current.id, "c1");
    assert_eq!(current.value, "1+1");
}

#[test]
fn connected_client_is_told_ready() {
    let mut bridge = Bridge::new();
    let me = bridge.client_connected();
    assert_eq!(me, 1);
    let msgs = bridge.registry.drain(me);
    assert_eq!(msgs.len(), 1);
    assert_eq!(status_of(&msgs[0]), "ready");
}

#[test]
fn print_cell_lifecycle_in_order() {
    let mut bridge = Bridge::new();
    let me = bridge.client_connected();
    bridge.registry.drain(me);

    let c = cell("1", "print(1+1)");
    bridge.submit(c.duplicate());
    bridge.kernel_event(&IoPubEvent::ExecuteInput);
    bridge.kernel_event(&IoPubEvent::Stream { text: "2\n".to_string() });
    bridge.kernel_event(&IoPubEvent::Status { state: ExecState::Idle });
    assert_eq!(bridge.finish_submission(&c, Some(1)), Ok(1));

    let msgs = bridge.registry.drain(me);
    let got: Vec<(String, String, String)> = msgs.iter().map(update_triple).collect();
    assert_eq!(got, vec![
        ("1".to_string(), "queued".to_string(), ":".to_string()),
        ("1".to_string(), "running".to_string(), "*".to_string()),
        ("1".to_string(), "output".to_string(), "2\n".to_string()),
        ("1".to_string(), "complete".to_string(), "".to_string()),
        ("1".to_string(), "count".to_string(), "1".to_string()),
    ]);
}

#[test]
fn invalid_code_surfaces_error_and_session_survives() {
    let mut bridge = Bridge::new();
    let me = bridge.client_connected();
    bridge.registry.drain(me);

    let bad = cell("7", "print(");
    bridge.submit(bad.duplicate());
    bridge.kernel_event(&IoPubEvent::ExecuteInput);
    bridge.kernel_event(&IoPubEvent::ExecError {
        traceback: vec!["SyntaxError".to_string(), "  unexpected EOF".to_string()],
    });
    bridge.kernel_event(&IoPubEvent::Status { state: ExecState::Idle });
    assert_eq!(bridge.finish_submission(&bad, Some(1)), Ok(1));

    let msgs = bridge.registry.drain(me);
    let got: Vec<(String, String, String)> = msgs.iter().map(update_triple).collect();
    assert_eq!(got[2], ("7".to_string(), "error".to_string(),
        "SyntaxError\n  unexpected EOF".to_string()));

    // a subsequent valid submission still succeeds
    let good = cell("8", "1+1");
    bridge.submit(good.duplicate());
    bridge.kernel_event(&IoPubEvent::Stream { text: "2\n".to_string() });
    assert_eq!(bridge.finish_submission(&good, Some(2)), Ok(2));
    let msgs = bridge.registry.drain(me);
    let got: Vec<(String, String, String)> = msgs.iter().map(update_triple).collect();
    assert_eq!(got, vec![
        ("8".to_string(), "queued".to_string(), ":".to_string()),
        ("8".to_string(), "output".to_string(), "2\n".to_string()),
        ("8".to_string(), "count".to_string(), "2".to_string()),
    ]);
}

#[test]
fn failed_submission_broadcasts_error_update() {
    let mut bridge = Bridge::new();
    let me = bridge.client_connected();
    bridge.registry.drain(me);

    let c = cell("9", "while True: pass");
    bridge.submit(c.duplicate());
    assert_eq!(bridge.finish_submission(&c, None), Err(KernelError::Execution));
    let msgs = bridge.registry.drain(me);
    let got: Vec<(String, String, String)> = msgs.iter().map(update_triple).collect();
    assert_eq!(got, vec![
        ("9".to_string(), "queued".to_string(), ":".to_string()),
        ("9".to_string(), "error".to_string(), "failed to run code".to_string()),
    ]);
}

#[test]
fn updates_attributed_to_latest_submission() {
    let mut bridge = Bridge::new();
    let me = bridge.client_connected();
    bridge.registry.drain(me);

    bridge.submit(cell("c1", "a"));
    bridge.kernel_event(&IoPubEvent::Stream { text: "x".to_string() });
    bridge.submit(cell("c2", "b"));
    bridge.kernel_event(&IoPubEvent::Stream { text: "y".to_string() });

    let msgs = bridge.registry.drain(me);
    let got: Vec<(String, String, String)> = msgs.iter().map(update_triple).collect();
    assert_eq!(got[0].0, "c1");
    assert_eq!(got[1], ("c1".to_string(), "output".to_string(), "x".to_string()));
    assert_eq!(got[2].0, "c2");
    assert_eq!(got[3], ("c2".to_string(), "output".to_string(), "y".to_string()));
}

#[test]
fn queued_broadcasts_follow_submission_order() {
    let mut bridge = Bridge::new();
    let a = bridge.client_connected();
    let b = bridge.client_connected();
    bridge.registry.drain(a);
    bridge.registry.drain(b);

    bridge.submit(cell("first", "1"));
    bridge.submit(cell("second", "2"));

    for client in [a, b] {
        let msgs = bridge.registry.drain(client);
        let got: Vec<(String, String, String)> = msgs.iter().map(update_triple).collect();
        assert_eq!(got.len(), 2);
        assert_eq!(got[0].0, "first");
        assert_eq!(got[1].0, "second");
    }
}

#[test]
fn events_before_any_submission_are_suppressed() {
    let mut bridge = Bridge::new();
    let me = bridge.client_connected();
    bridge.registry.drain(me);

    bridge.kernel_event(&IoPubEvent::Stream { text: "boot noise".to_string() });
    bridge.kernel_event(&IoPubEvent::Status { state: ExecState::Idle });
    assert!(bridge.registry.drain(me).is_empty());
}

#[test]
fn busy_event_is_suppressed_by_the_bridge() {
    let mut bridge = Bridge::new();
    let me = bridge.client_connected();
    bridge.registry.drain(me);

    bridge.submit(cell("c1", "a"));
    bridge.registry.drain(me);
    bridge.kernel_event(&IoPubEvent::Status { state: ExecState::Busy });
    assert!(bridge.registry.drain(me).is_empty());
}

#[test]
fn disconnected_client_no_longer_receives() {
    let mut bridge = Bridge::new();
    let a = bridge.client_connected();
    let b = bridge.client_connected();
    bridge.registry.drain(a);
    bridge.registry.drain(b);

    bridge.client_disconnected(a);
    bridge.submit(cell("c", "1"));
    assert!(bridge.registry.drain(a).is_empty());
    assert_eq!(bridge.registry.drain(b).len(), 1);
    // disconnecting again, or an unknown id, is harmless
    bridge.client_disconnected(a);
    bridge.client_disconnected(999);
}

#[test]
fn malformed_message_is_dropped_with_protocol_error() {
    let mut bridge = Bridge::new();
    let me = bridge.client_connected();
    bridge.registry.drain(me);

    assert_eq!(bridge.client_message(None).err(), Some(KernelError::ClientProtocol));
    assert!(bridge.registry.drain(me).is_empty());

    let accepted = bridge.client_message(Some(cell("c1", "1+1"))).unwrap();
    assert_eq!(accepted.id, "c1");
    assert_eq!(accepted.value, "1+1");
    let msgs = bridge.registry.drain(me);
    let got: Vec<(String, String, String)> = msgs.iter().map(update_triple).collect();
    assert_eq!(got, vec![("c1".to_string(), "queued".to_string(), ":".to_string())]);
}

#[test]
fn missed_heartbeat_reports_shutting_down() {
    assert!(liveness_update(true).is_none());
    assert_eq!(liveness_update(false).unwrap().status, "shuttingdown");
}

#[test]
fn late_joiner_sees_only_later_events() {
    let mut bridge = Bridge::new();
    let early = bridge.client_connected();
    bridge.registry.drain(early);

    bridge.submit(cell("c1", "slow()"));
    // a second client connects after `queued` went out
    let late = bridge.client_connected();
    bridge.kernel_event(&IoPubEvent::Status { state: ExecState::Idle });

    let early_msgs = bridge.registry.drain(early);
    let early_got: Vec<(String, String, String)> = early_msgs.iter().map(update_triple).collect();
    assert_eq!(early_got.len(), 2);
    assert_eq!(early_got[0].1, "queued");
    assert_eq!(early_got[1].1, "complete");

    let late_msgs = bridge.registry.drain(late);
    assert_eq!(late_msgs.len(), 2);
    assert_eq!(status_of(&late_msgs[0]), "ready");
    assert_eq!(update_triple(&late_msgs[1]), ("c1".to_string(), "complete".to_string(), "".to_string()));
}
