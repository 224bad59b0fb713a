use backend_supervisor::lifecycle::{Supervisor, SupervisorState};
use std::sync::{Arc, Mutex};

#[test]
fn new_supervisor_has_not_started() {
    let s: Supervisor<u32> = Supervisor::new();
    assert_eq!(s.state(), SupervisorState::NotStarted);
    assert!(!s.is_running());
}

#[test]
fn start_then_ready() {
    let mut s = Supervisor::new();
    assert!(s.begin());
    assert_eq!(s.state(), SupervisorState::Starting);
    assert_eq!(s.attach(11u32), Ok(()));
    assert!(s.is_running());
    s.finish(true);
    assert_eq!(s.state(), SupervisorState::Ready);
}

#[test]
fn start_only_once() {
    let mut s: Supervisor<u32> = Supervisor::new();
    assert!(s.begin());
    assert!(!s.begin());
    s.finish(false);
    assert_eq!(s.state(), SupervisorState::Failed);
    assert!(!s.begin());
    assert_eq!(s.state(), SupervisorState::Failed);
}

#[test]
fn second_handle_is_refused() {
    let mut s = Supervisor::new();
    s.begin();
    assert_eq!(s.attach(1u32), Ok(()));
    assert_eq!(s.attach(2u32), Err(2));
    assert_eq!(s.stop(), Some(1));
    assert_eq!(s.attach(3u32), Err(3));
}

#[test]
fn handle_refused_before_start() {
    let mut s = Supervisor::new();
    assert_eq!(s.attach(5u32), Err(5));
    assert!(!s.is_running());
}

#[test]
fn stop_is_idempotent() {
    let mut s = Supervisor::new();
    s.begin();
    s.attach(7u32).unwrap();
    s.finish(true);
    assert_eq!(s.stop(), Some(7));
    assert_eq!(s.state(), SupervisorState::Stopped);
    for _ in 0..5 {
        assert_eq!(s.stop(), None);
        assert_eq!(s.state(), SupervisorState::Stopped);
        assert!(!s.is_running());
    }
}

#[test]
fn stop_without_handle_is_harmless() {
    let mut s: Supervisor<u32> = Supervisor::new();
    assert_eq!(s.stop(), None);
    assert_eq!(s.state(), SupervisorState::Stopped);
    assert!(!s.begin());
    s.finish(true);
    assert_eq!(s.state(), SupervisorState::Stopped);
}

#[test]
fn stop_during_start_wins() {
    let mut s = Supervisor::new();
    s.begin();
    assert_eq!(s.stop(), None);
    assert_eq!(s.attach(9u32), Err(9));
    s.finish(true);
    assert_eq!(s.state(), SupervisorState::Stopped);
}

#[test]
fn shared_stops_release_handle_once() {
    let sup = Arc::new(Mutex::new(Supervisor::new()));
    {
        let mut g = sup.lock().unwrap();
        g.begin();
        g.attach(42u32).unwrap();
    }
    let callers: Vec<_> = (0..4).map(|_| sup.clone()).collect();
    let mut released = Vec::new();
    for c in &callers {
        if let Ok(mut g) = c.try_lock() {
            if let Some(h) = g.stop() {
                released.push(h);
            }
        }
    }
    assert_eq!(released, vec![42]);
}

#[test]
fn stop_dropped_while_lock_is_held() {
    let sup = Arc::new(Mutex::new(Supervisor::new()));
    let starter = sup.lock().unwrap();
    assert!(sup.try_lock().is_err());
    drop(starter);
    let mut g = sup.lock().unwrap();
    g.begin();
    g.attach(1u32).unwrap();
    assert_eq!(g.stop(), Some(1));
}
