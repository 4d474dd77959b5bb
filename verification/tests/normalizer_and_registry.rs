//! The event normalizer's mapping table, the registry's fan-out, and
//! the decimal rendering, each on concrete values.

use notedag_server::files::resolve_path;
use notedag_server::models::{RunCell, RunCellUpdate};
use notedag_server::normalize::{join_lines, normalize, ExecState, IoPubEvent};
use notedag_server::numfmt::{i64_to_string, u64_to_string};
use notedag_server::registry::{Outbound, SessionRegistry};

fn last(id: &str) -> Option<RunCell> {
    Some(RunCell { id: id.to_string(), value: "code".to_string() })
}

fn expect(u: Option<RunCellUpdate>, id: &str, name: &str, value: &str) {
    let u = u.unwrap();
    assert_eq!(u.id, id);
    assert_eq!(u.name, name);
    assert_eq!(u.value, value);
}

#[test]
fn stream_maps_to_output() {
    let ev = IoPubEvent::Stream { text: "hello\n".to_string() };
    expect(normalize(&last("c1"), &ev), "c1", "output", "hello\n");
}

#[test]
fn error_maps_to_joined_traceback() {
    let ev = IoPubEvent::ExecError {
        traceback: vec!["one".to_string(), "two".to_string(), "three".to_string()],
    };
    expect(normalize(&last("c1"), &ev), "c1", "error", "one\ntwo\nthree");
}

#[test]
fn busy_status_is_suppressed() {
    let ev = IoPubEvent::Status { state: ExecState::Busy };
    assert!(normalize(&last("c1"), &ev).is_none());
}

#[test]
fn starting_status_is_suppressed() {
    let ev = IoPubEvent::Status { state: ExecState::Starting };
    assert!(normalize(&last("c1"), &ev).is_none());
}

#[test]
fn idle_status_maps_to_complete() {
    let ev = IoPubEvent::Status { state: ExecState::Idle };
    expect(normalize(&last("c1"), &ev), "c1", "complete", "");
}

#[test]
fn execute_input_maps_to_running_marker() {
    expect(normalize(&last("c1"), &IoPubEvent::ExecuteInput), "c1", "running", "*");
}

#[test]
fn execute_result_maps_to_result() {
    let ev = IoPubEvent::ExecuteResult { data: "{\"text/plain\":\"2\"}".to_string() };
    expect(normalize(&last("c1"), &ev), "c1", "result", "{\"text/plain\":\"2\"}");
}

#[test]
fn display_data_maps_to_data() {
    let ev = IoPubEvent::DisplayData { data: "{\"image/png\":\"...\"}".to_string() };
    expect(normalize(&last("c1"), &ev), "c1", "data", "{\"image/png\":\"...\"}");
}

#[test]
fn unrecognized_event_is_suppressed() {
    assert!(normalize(&last("c1"), &IoPubEvent::Other).is_none());
}

#[test]
fn without_a_submission_everything_is_suppressed() {
    let events = [
        IoPubEvent::Stream { text: "x".to_string() },
        IoPubEvent::Status { state: ExecState::Idle },
        IoPubEvent::ExecuteInput,
        IoPubEvent::Other,
    ];
    for ev in events {
        assert!(normalize(&None, &ev).is_none());
    }
}

#[test]
fn joining_lines() {
    assert_eq!(join_lines(&vec![]), "");
    assert_eq!(join_lines(&vec!["a".to_string()]), "a");
    assert_eq!(join_lines(&vec!["a".to_string(), "".to_string(), "b".to_string()]), "a\n\nb");
}

#[test]
fn registry_assigns_increasing_ids() {
    let mut reg = SessionRegistry::new();
    assert_eq!(reg.register(), 1);
    assert_eq!(reg.register(), 2);
    reg.unregister(1);
    assert_eq!(reg.register(), 3);
}

#[test]
fn broadcast_reaches_every_registered_client() {
    let mut reg = SessionRegistry::new();
    let a = reg.register();
    let b = reg.register();
    let c = reg.register();
    let msg = Outbound::Update(RunCellUpdate {
        id: "c1".to_string(),
        name: "queued".to_string(),
        value: ":".to_string(),
    });
    reg.broadcast(&msg);
    for client in [a, b, c] {
        let msgs = reg.drain(client);
        assert_eq!(msgs.len(), 1);
        match &msgs[0] {
            Outbound::Update(u) => assert_eq!(u.name, "queued"),
            Outbound::Status(_) => panic!("expected a cell update"),
        }
    }
}

#[test]
fn late_joiner_misses_earlier_broadcasts() {
    let mut reg = SessionRegistry::new();
    let early = reg.register();
    let first = Outbound::Update(RunCellUpdate {
        id: "c1".to_string(),
        name: "queued".to_string(),
        value: ":".to_string(),
    });
    reg.broadcast(&first);
    let late = reg.register();
    let second = Outbound::Update(RunCellUpdate {
        id: "c1".to_string(),
        name: "complete".to_string(),
        value: "".to_string(),
    });
    reg.broadcast(&second);

    assert_eq!(reg.drain(early).len(), 2);
    let late_msgs = reg.drain(late);
    assert_eq!(late_msgs.len(), 1);
    match &late_msgs[0] {
        Outbound::Update(u) => assert_eq!(u.name, "complete"),
        Outbound::Status(_) => panic!("expected a cell update"),
    }
}

#[test]
fn unregister_absent_id_changes_nothing() {
    let mut reg = SessionRegistry::new();
    let a = reg.register();
    assert!(!reg.unregister(42));
    assert!(reg.unregister(a));
    assert!(!reg.unregister(a));
}

#[test]
fn send_to_reaches_only_its_target() {
    let mut reg = SessionRegistry::new();
    let a = reg.register();
    let b = reg.register();
    let msg = Outbound::Update(RunCellUpdate {
        id: "c1".to_string(),
        name: "count".to_string(),
        value: "3".to_string(),
    });
    reg.send_to(b, &msg);
    assert!(reg.drain(a).is_empty());
    assert_eq!(reg.drain(b).len(), 1);
}

#[test]
fn drain_empties_the_queue() {
    let mut reg = SessionRegistry::new();
    let a = reg.register();
    let msg = Outbound::Update(RunCellUpdate {
        id: "c".to_string(),
        name: "queued".to_string(),
        value: ":".to_string(),
    });
    reg.broadcast(&msg);
    assert_eq!(reg.drain(a).len(), 1);
    assert!(reg.drain(a).is_empty());
    assert!(reg.drain(99).is_empty());
}

#[test]
fn decimal_rendering() {
    assert_eq!(u64_to_string(0), "0");
    assert_eq!(u64_to_string(7), "7");
    assert_eq!(u64_to_string(10), "10");
    assert_eq!(u64_to_string(4567), "4567");
    assert_eq!(u64_to_string(u64::MAX), "18446744073709551615");
    assert_eq!(i64_to_string(0), "0");
    assert_eq!(i64_to_string(123), "123");
    assert_eq!(i64_to_string(-45), "-45");
    assert_eq!(i64_to_string(i64::MIN), "-9223372036854775808");
    assert_eq!(i64_to_string(i64::MAX), "9223372036854775807");
}

#[test]
fn path_resolution_prefixes_the_root() {
    assert_eq!(resolve_path("/data", "/a.txt"), "/data/a.txt");
    assert_eq!(resolve_path("", "/a.txt"), "/a.txt");
}
