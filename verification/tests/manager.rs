//! The listener manager, and the map of running tasks beneath it.

use mcp_inbound::manager::{ListenerManager, RunAction, RunEvent};
use mcp_inbound::running::Running;
use mcp_inbound::xds::UpdateEvent;

type Event = RunEvent<u32, &'static str, &'static str>;

fn insert(name: &str) -> Event {
    RunEvent::Update(Some(UpdateEvent::Insert(name.to_string())))
}

fn remove(name: &str) -> Event {
    RunEvent::Update(Some(UpdateEvent::Remove(name.to_string())))
}

fn started(name: &str, handle: u32) -> Event {
    RunEvent::Started { name: name.to_string(), handle }
}

/// The handle that an action stops, where it stops one of this name.
fn aborted(action: RunAction<u32, &'static str, &'static str>, expected: &str) -> Option<u32> {
    match action {
        RunAction::Abort { name, handle } => {
            assert_eq!(name, expected);
            Some(handle)
        }
        RunAction::ReportNotRunning(name) => {
            assert_eq!(name, expected);
            None
        }
        _ => panic!("neither stopped nor missed"),
    }
}

#[test]
fn running_tasks_are_kept_by_name() {
    let mut running: Running<u32> = Running::new();
    running.insert("a".to_string(), 1);
    running.insert("b".to_string(), 2);
    running.insert("c".to_string(), 3);
    running.insert("b".to_string(), 4);
    assert_eq!(running.remove(&"b".to_string()), Some(4));
    assert_eq!(running.remove(&"b".to_string()), None);
    assert_eq!(running.remove(&"a".to_string()), Some(1));
    assert_eq!(running.remove(&"c".to_string()), Some(3));
    assert_eq!(running.remove(&"".to_string()), None);
}

#[test]
fn the_first_tasks_are_taken_over() {
    let mut manager = ListenerManager::new(vec![
        ("a".to_string(), 1),
        ("b".to_string(), 2),
        ("a".to_string(), 3),
    ]);
    assert_eq!(aborted(manager.run(remove("a")), "a"), Some(3));
    assert_eq!(aborted(manager.run(remove("b")), "b"), Some(2));
    assert_eq!(aborted(manager.run(remove("a")), "a"), None);
}

#[test]
fn an_added_listener_is_looked_up_and_started() {
    let mut manager = ListenerManager::new(Vec::new());
    assert!(matches!(manager.run(insert("a")), RunAction::Fetch(name) if name == "a"));
    let fetched: Event = RunEvent::Fetched { name: "a".to_string(), found: Ok("listener") };
    match manager.run(fetched) {
        RunAction::Spawn { name, listener } => assert_eq!((name.as_str(), listener), ("a", "listener")),
        _ => panic!("not started"),
    }
    assert!(matches!(manager.run(started("a", 7)), RunAction::Wait));
    assert_eq!(aborted(manager.run(remove("a")), "a"), Some(7));
}

#[test]
fn an_added_listener_runs_only_once_it_is_started() {
    let mut manager = ListenerManager::new(Vec::new());
    manager.run(insert("a"));
    assert_eq!(aborted(manager.run(remove("a")), "a"), None);
}

#[test]
fn a_listener_that_is_not_found_is_skipped() {
    let mut manager = ListenerManager::new(vec![("a".to_string(), 1)]);
    let fetched: Event = RunEvent::Fetched { name: "a".to_string(), found: Err("unknown") };
    match manager.run(fetched) {
        RunAction::ReportLookup { name, error } => assert_eq!((name.as_str(), error), ("a", "unknown")),
        _ => panic!("not reported"),
    }
    assert_eq!(aborted(manager.run(remove("a")), "a"), Some(1));
}

#[test]
fn only_the_latest_task_of_a_name_is_stopped() {
    let mut manager = ListenerManager::new(Vec::new());
    manager.run(started("a", 1));
    manager.run(started("b", 2));
    manager.run(started("a", 3));
    assert_eq!(aborted(manager.run(remove("a")), "a"), Some(3));
    assert_eq!(aborted(manager.run(remove("a")), "a"), None);
    assert_eq!(aborted(manager.run(remove("b")), "b"), Some(2));
}

#[test]
fn the_end_of_a_task_changes_nothing() {
    let mut manager = ListenerManager::new(vec![("a".to_string(), 1)]);
    let ended: Event = RunEvent::TaskEnded;
    assert!(matches!(manager.run(ended), RunAction::Wait));
    assert_eq!(aborted(manager.run(remove("a")), "a"), Some(1));
}

#[test]
fn the_manager_stops_when_told() {
    let mut manager = ListenerManager::new(vec![("a".to_string(), 1)]);
    let cancelled: Event = RunEvent::Cancelled;
    assert!(matches!(manager.run(cancelled), RunAction::Stop));
    let closed: Event = RunEvent::Update(None);
    assert!(matches!(manager.run(closed), RunAction::Stop));
}
