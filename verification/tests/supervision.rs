use apexshell::lifecycle::drain_for_exit;
use apexshell::store::{ProcessHandle, ProcessHandleStore, Slot};
use apexshell::supervisor::{
    begin_start, commit_start, stop, tunnel_start_message, tunnel_stop_message, StartStep,
    StopResult, SupervisorResult,
};

#[test]
fn store_starts_empty() {
    let s = ProcessHandleStore::new();
    assert!(s.get(Slot::PrimaryService).is_none());
    assert!(s.get(Slot::Tunnel).is_none());
}

#[test]
fn set_and_get_per_slot() {
    let mut s = ProcessHandleStore::new();
    s.set(Slot::PrimaryService, ProcessHandle { pid: 11 });
    assert_eq!(s.get(Slot::PrimaryService), Some(ProcessHandle { pid: 11 }));
    assert!(s.get(Slot::Tunnel).is_none());
    s.set(Slot::Tunnel, ProcessHandle { pid: 22 });
    assert_eq!(s.get(Slot::Tunnel), Some(ProcessHandle { pid: 22 }));
    assert_eq!(s.get(Slot::PrimaryService), Some(ProcessHandle { pid: 11 }));
}

#[test]
fn take_removes_atomically() {
    let mut s = ProcessHandleStore::new();
    s.set(Slot::Tunnel, ProcessHandle { pid: 5 });
    assert_eq!(s.take(Slot::Tunnel), Some(ProcessHandle { pid: 5 }));
    assert!(s.take(Slot::Tunnel).is_none());
    assert!(s.get(Slot::Tunnel).is_none());
}

#[test]
fn start_twice_spawns_once() {
    let mut s = ProcessHandleStore::new();
    assert_eq!(begin_start(&s, Slot::PrimaryService), StartStep::SpawnNeeded);
    let first = commit_start(&mut s, Slot::PrimaryService, Ok(ProcessHandle { pid: 100 }));
    assert!(matches!(first, SupervisorResult::Started));
    // second start without an intervening stop: no spawn, one live process
    assert_eq!(begin_start(&s, Slot::PrimaryService), StartStep::AlreadyRunning);
    assert_eq!(s.get(Slot::PrimaryService), Some(ProcessHandle { pid: 100 }));
}

#[test]
fn racing_starts_yield_one_started() {
    // two callers race for the same empty slot; the store's lock serializes
    // them, so the loser's begin observes the winner's commit
    let mut s = ProcessHandleStore::new();
    let a = begin_start(&s, Slot::Tunnel);
    assert_eq!(a, StartStep::SpawnNeeded);
    let a_result = commit_start(&mut s, Slot::Tunnel, Ok(ProcessHandle { pid: 1 }));
    assert!(matches!(a_result, SupervisorResult::Started));
    let b = begin_start(&s, Slot::Tunnel);
    assert_eq!(b, StartStep::AlreadyRunning);
    assert_eq!(s.get(Slot::Tunnel), Some(ProcessHandle { pid: 1 }));
}

#[test]
fn failed_spawn_leaves_slot_empty() {
    let mut s = ProcessHandleStore::new();
    let r = commit_start(
        &mut s,
        Slot::Tunnel,
        Err::<ProcessHandle, String>(String::from("no such binary")),
    );
    match r {
        SupervisorResult::SpawnFailed(reason) => assert_eq!(reason, "no such binary"),
        _ => panic!("expected SpawnFailed"),
    }
    assert!(s.get(Slot::Tunnel).is_none());
    // the slot stays usable: the next start may spawn
    assert_eq!(begin_start(&s, Slot::Tunnel), StartStep::SpawnNeeded);
}

#[test]
fn stop_on_empty_slot_reports_not_running() {
    let mut s = ProcessHandleStore::new();
    let (result, victim) = stop(&mut s, Slot::Tunnel);
    assert_eq!(result, StopResult::NotRunning);
    assert!(victim.is_none());
    let (result2, victim2) = stop(&mut s, Slot::PrimaryService);
    assert_eq!(result2, StopResult::NotRunning);
    assert!(victim2.is_none());
}

#[test]
fn stop_hands_over_the_handle() {
    let mut s = ProcessHandleStore::new();
    s.set(Slot::Tunnel, ProcessHandle { pid: 77 });
    let (result, victim) = stop(&mut s, Slot::Tunnel);
    assert_eq!(result, StopResult::Stopped);
    assert_eq!(victim, Some(ProcessHandle { pid: 77 }));
    assert!(s.get(Slot::Tunnel).is_none());
}

#[test]
fn drain_empties_every_slot() {
    let mut s = ProcessHandleStore::new();
    s.set(Slot::PrimaryService, ProcessHandle { pid: 1 });
    s.set(Slot::Tunnel, ProcessHandle { pid: 2 });
    let victims = drain_for_exit(&mut s);
    assert_eq!(
        victims,
        vec![ProcessHandle { pid: 1 }, ProcessHandle { pid: 2 }]
    );
    assert!(s.get(Slot::PrimaryService).is_none());
    assert!(s.get(Slot::Tunnel).is_none());
}

#[test]
fn drain_from_partial_and_empty_states() {
    let mut s = ProcessHandleStore::new();
    assert!(drain_for_exit(&mut s).is_empty());
    assert!(s.get(Slot::PrimaryService).is_none());
    assert!(s.get(Slot::Tunnel).is_none());

    let mut s2 = ProcessHandleStore::new();
    s2.set(Slot::Tunnel, ProcessHandle { pid: 9 });
    let victims = drain_for_exit(&mut s2);
    assert_eq!(victims, vec![ProcessHandle { pid: 9 }]);
    assert!(s2.get(Slot::Tunnel).is_none());
}

#[test]
fn tunnel_messages_are_exact() {
    assert_eq!(tunnel_stop_message(StopResult::Stopped), "Tunnel Stopped");
    assert_eq!(
        tunnel_stop_message(StopResult::NotRunning),
        "Tunnel was not running"
    );
    assert_eq!(
        tunnel_start_message(SupervisorResult::Started),
        Ok("Tunnel Starting...")
    );
    assert_eq!(
        tunnel_start_message(SupervisorResult::AlreadyRunning),
        Ok("Tunnel already running")
    );
    assert_eq!(
        tunnel_start_message(SupervisorResult::SpawnFailed(String::from("denied"))),
        Err(String::from("denied"))
    );
}
