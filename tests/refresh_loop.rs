use dwarf_reader::refresh::{RefreshAction, RefreshEvent, RefreshState, BACKOFF_SECS, REFRESH_PERIOD_SECS};

#[test]
fn three_attach_failures_back_off_three_times() {
    let events = vec![
        RefreshEvent::AttachFailed,
        RefreshEvent::Woke,
        RefreshEvent::AttachFailed,
        RefreshEvent::Woke,
        RefreshEvent::AttachFailed,
    ];
    let mut s = RefreshState::new();
    let mut sleeps = 0;
    for e in &events {
        let (t, a) = s.step(*e);
        s = t;
        assert_eq!(s.pid, 0);
        assert_ne!(a, RefreshAction::Rebuild);
        if let RefreshAction::Sleep(secs) = a {
            assert_eq!(secs, BACKOFF_SECS);
            sleeps += 1;
        }
    }
    assert_eq!(sleeps, 3);
    assert_eq!(s.swaps, 0);
    let (all, acts) = RefreshState::new().step_all(&events);
    assert_eq!(all, s);
    assert_eq!(acts.iter().filter(|a| matches!(a, RefreshAction::Sleep(_))).count(), 3);
}

#[test]
fn successful_cycle_waits_the_long_period() {
    let s = RefreshState::new();
    let (s, a) = s.step(RefreshEvent::Woke);
    assert_eq!(a, RefreshAction::Attach);
    let (s, a) = s.step(RefreshEvent::Attached(77));
    assert_eq!((s.pid, a), (77, RefreshAction::Rebuild));
    let (s, a) = s.step(RefreshEvent::Rebuilt);
    assert_eq!((s.swaps, a), (1, RefreshAction::Sleep(REFRESH_PERIOD_SECS)));
    let (s, a) = s.step(RefreshEvent::RebuildFailed(true));
    assert_eq!(a, RefreshAction::RefreshCreatures);
    let (s, a) = s.step(RefreshEvent::CreaturesRefreshed);
    assert_eq!(a, RefreshAction::Sleep(BACKOFF_SECS));
    let (_, a) = s.step(RefreshEvent::RebuildFailed(false));
    assert_eq!(a, RefreshAction::Sleep(BACKOFF_SECS));
}
