use kata_bridge::provision::{DownloadError, EnsureAction, EnsureEvent, EnsureState, Report};

// A request that fails before any network traffic: its address does not parse.
fn network_failure() -> reqwest::Error {
    reqwest::Client::new().get("not a url").build().unwrap_err()
}

#[test]
fn present_asset_is_found_without_fetch() {
    for _ in 0..3 {
        let state = EnsureState::new();
        let event = EnsureEvent::Presence(true);
        assert!(state.accepts(&event));
        let (state, action) = state.step(event);
        assert!(matches!(action, EnsureAction::Finish(Report::Found)));
        assert!(state.is_finished());
        assert!(!state.accepts(&EnsureEvent::Presence(true)));
        assert!(!state.accepts(&EnsureEvent::Fetched(Ok(()))));
    }
}

#[test]
fn fetch_that_creates_path_is_found() {
    let (state, action) = EnsureState::new().step(EnsureEvent::Presence(false));
    assert!(matches!(action, EnsureAction::Fetch));
    assert!(!state.is_finished());
    let (state, action) = state.step(EnsureEvent::Fetched(Ok(())));
    assert!(matches!(action, EnsureAction::Recheck));
    let (state, action) = state.step(EnsureEvent::Presence(true));
    assert!(matches!(action, EnsureAction::Finish(Report::Found)));
    assert!(state.is_finished());
}

#[test]
fn network_failure_is_reported_not_raised() {
    let (state, _) = EnsureState::new().step(EnsureEvent::Presence(false));
    let failure = DownloadError::Reqwest(network_failure());
    let (state, action) = state.step(EnsureEvent::Fetched(Err(failure)));
    assert!(matches!(action, EnsureAction::Recheck));
    let (state, action) = state.step(EnsureEvent::Presence(false));
    match action {
        EnsureAction::Finish(Report::Failed(DownloadError::Reqwest(e))) => {
            assert!(e.is_builder())
        }
        other => panic!("unexpected {:?}", matches!(other, EnsureAction::Fetch)),
    }
    assert!(state.is_finished());
}

#[test]
fn local_failure_keeps_its_class() {
    let (state, _) = EnsureState::new().step(EnsureEvent::Presence(false));
    let failure = DownloadError::IO(std::io::Error::new(
        std::io::ErrorKind::InvalidData,
        "unpack failed",
    ));
    let (state, _) = state.step(EnsureEvent::Fetched(Err(failure)));
    let (_, action) = state.step(EnsureEvent::Presence(true));
    assert!(matches!(
        action,
        EnsureAction::Finish(Report::Failed(DownloadError::IO(_)))
    ));
}

#[test]
fn claimed_success_without_path_is_missing() {
    let (state, _) = EnsureState::new().step(EnsureEvent::Presence(false));
    let (state, _) = state.step(EnsureEvent::Fetched(Ok(())));
    let (state, action) = state.step(EnsureEvent::Presence(false));
    assert!(matches!(action, EnsureAction::Finish(Report::Missing)));
    assert!(state.is_finished());
}

#[test]
fn events_out_of_order_are_not_accepted() {
    let state = EnsureState::new();
    assert!(!state.accepts(&EnsureEvent::Fetched(Ok(()))));
    let (state, _) = state.step(EnsureEvent::Presence(false));
    assert!(!state.accepts(&EnsureEvent::Presence(true)));
    assert!(state.accepts(&EnsureEvent::Fetched(Ok(()))));
}
