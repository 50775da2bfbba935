use libobs_wrapper::handle::{ReleaseGuard, ResourceHandle, ResourceKind};
use libobs_wrapper::runtime::{ObsRuntime, RuntimeState};
use libobs_wrapper::ObsError;

fn running() -> ObsRuntime {
    let mut rt = ObsRuntime::new();
    assert!(rt.start());
    rt.finish_start(true);
    rt
}

#[test]
fn lifecycle() {
    let mut rt = ObsRuntime::new();
    assert_eq!(rt.state(), RuntimeState::Uninitialized);
    assert_eq!(rt.submit(), Err(ObsError::RuntimeUnavailable));
    assert!(rt.start());
    assert_eq!(rt.state(), RuntimeState::Starting);
    assert!(!rt.start());
    assert_eq!(rt.submit(), Err(ObsError::RuntimeUnavailable));
    rt.finish_start(true);
    assert_eq!(rt.state(), RuntimeState::Running);
    rt.shutdown();
    assert_eq!(rt.state(), RuntimeState::ShuttingDown);
    assert!(rt.terminate().is_empty());
    assert_eq!(rt.state(), RuntimeState::Terminated);
    rt.shutdown();
    assert_eq!(rt.state(), RuntimeState::Terminated);
}

#[test]
fn failed_initialization_is_terminal() {
    let mut rt = ObsRuntime::new();
    rt.start();
    rt.finish_start(false);
    assert_eq!(rt.state(), RuntimeState::Terminated);
    assert_eq!(rt.submit(), Err(ObsError::RuntimeUnavailable));
    assert!(!rt.start());
}

#[test]
fn two_callers_see_their_own_order() {
    let mut rt = running();
    let mut first = Vec::new();
    let mut second = Vec::new();
    for _ in 0..10 {
        first.push(rt.submit().unwrap());
        second.push(rt.submit().unwrap());
    }
    let mut ran = Vec::new();
    while let Some(t) = rt.next_command() {
        ran.push(t);
    }
    assert_eq!(ran.len(), 20);
    let seen_first: Vec<u64> = ran.iter().copied().filter(|t| first.contains(t)).collect();
    let seen_second: Vec<u64> = ran.iter().copied().filter(|t| second.contains(t)).collect();
    assert_eq!(seen_first, first);
    assert_eq!(seen_second, second);
    assert_eq!(ran, (0..20).collect::<Vec<u64>>());
}

#[test]
fn shutdown_cancels_queued_command() {
    let mut rt = running();
    let done = rt.submit().unwrap();
    let t = rt.submit().unwrap();
    assert_eq!(rt.next_command(), Some(done));
    rt.shutdown();
    assert_eq!(rt.submit(), Err(ObsError::RuntimeUnavailable));
    assert_eq!(rt.terminate(), vec![t]);
    assert_eq!(rt.next_command(), None);
}

#[test]
fn shutdown_still_drains() {
    let mut rt = running();
    let a = rt.submit().unwrap();
    let b = rt.submit().unwrap();
    rt.shutdown();
    assert_eq!(rt.next_command(), Some(a));
    assert_eq!(rt.terminate(), vec![b]);
}

#[test]
fn nothing_served_before_running() {
    let mut rt = ObsRuntime::new();
    assert_eq!(rt.next_command(), None);
    assert_eq!(rt.next_ticket(), 0);
}

#[test]
fn guard_releases_exactly_once() {
    let h = ResourceHandle { kind: ResourceKind::Source, raw: 42 };
    let mut g = ReleaseGuard::new(h);
    assert!(!g.released());
    assert_eq!(g.handle(), h);
    let mut count = 0;
    for _ in 0..5 {
        if let Some(r) = g.release() {
            assert_eq!(r, h);
            count += 1;
        }
    }
    assert_eq!(count, 1);
    assert!(g.released());
}

#[test]
fn pending_len_counts_queue() {
    let mut rt = running();
    assert_eq!(rt.pending_len(), 0);
    rt.submit().unwrap();
    rt.submit().unwrap();
    assert_eq!(rt.pending_len(), 2);
    rt.next_command();
    assert_eq!(rt.pending_len(), 1);
}
