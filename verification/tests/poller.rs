use now_playing::error::ServiceError;
use now_playing::playback::PlaybackEvent;
use now_playing::playback::PlaybackSnapshot;
use now_playing::poller::AccessTokenResponse;
use now_playing::poller::Poller;
use now_playing::poller::PollerAction;
use now_playing::poller::PollerInput;
use now_playing::token::TokenRecord;

fn record(access: &str, expiry: i64, refresh: &str) -> TokenRecord {
    TokenRecord {
        access_token: access.to_string(),
        expiry,
        refresh_token: refresh.to_string(),
    }
}

fn snapshot() -> PlaybackSnapshot {
    PlaybackSnapshot {
        title: "Track".to_string(),
        artists: vec!["A".to_string(), "B".to_string()],
        album_images: vec!["http://img/1".to_string()],
        progress_ms: 170000,
        duration_ms: 180000,
        is_playing: true,
    }
}

fn expect_fetch(act: PollerAction) -> String {
    match act {
        PollerAction::Fetch(token) => token,
        _ => panic!("expected a fetch action"),
    }
}

fn expect_emit(act: PollerAction) -> PlaybackEvent {
    match act {
        PollerAction::Emit(event) => event,
        _ => panic!("expected an emit action"),
    }
}

fn expect_failure(act: PollerAction) -> String {
    match expect_emit(act) {
        PlaybackEvent::Failure(message) => message,
        PlaybackEvent::Success(_) => panic!("expected a failure event"),
    }
}

#[test]
fn fresh_credential_goes_straight_to_fetch() {
    let mut p = Poller::new();
    assert!(matches!(p.start(), PollerAction::LoadToken));
    let act = p.step(PollerInput::LoadOk(record("acc", 1000, "ref")), 0);
    assert_eq!(expect_fetch(act), "acc");
}

#[test]
fn boundary_of_the_refresh_margin() {
    let mut p = Poller::new();
    p.start();
    let act = p.step(PollerInput::LoadOk(record("acc", 60, "ref")), 0);
    assert_eq!(expect_fetch(act), "acc");

    let mut q = Poller::new();
    q.start();
    let act = q.step(PollerInput::LoadOk(record("acc", 59, "ref")), 0);
    assert!(matches!(act, PollerAction::Refresh(_)));
}

#[test]
fn stale_credential_is_refreshed_once_then_fetched() {
    let mut p = Poller::new();
    p.start();
    let act = p.step(PollerInput::LoadOk(record("old", 30, "ref")), 0);
    match act {
        PollerAction::Refresh(refresh_token) => assert_eq!(refresh_token, "ref"),
        _ => panic!("a credential within the margin must be refreshed"),
    }
    let response = AccessTokenResponse {
        access_token: "new".to_string(),
        expires_in: 3600,
    };
    let act = p.step(PollerInput::RefreshOk(response), 100);
    match act {
        PollerAction::Upsert(rec) => {
            assert_eq!(rec.access_token, "new");
            assert_eq!(rec.expiry, 3700);
            assert_eq!(rec.refresh_token, "ref");
        }
        _ => panic!("a refreshed credential must be persisted"),
    }
    let act = p.step(PollerInput::UpsertOk, 100);
    assert_eq!(expect_fetch(act), "new");
}

#[test]
fn failed_refresh_is_reported_and_the_stale_token_fetched() {
    let mut p = Poller::new();
    p.start();
    p.step(PollerInput::LoadOk(record("stale", 0, "ref")), 0);
    let act = p.step(PollerInput::RefreshErr, 0);
    assert_eq!(expect_failure(act), "Spotify API error");
    let act = p.step(PollerInput::EmitOk, 0);
    assert_eq!(expect_fetch(act), "stale");
}

#[test]
fn failed_upsert_is_reported_and_the_new_token_fetched() {
    let mut p = Poller::new();
    p.start();
    p.step(PollerInput::LoadOk(record("old", 0, "ref")), 0);
    let response = AccessTokenResponse {
        access_token: "new".to_string(),
        expires_in: 3600,
    };
    p.step(PollerInput::RefreshOk(response), 0);
    let act = p.step(PollerInput::UpsertErr, 0);
    assert_eq!(expect_failure(act), "token store error");
    let act = p.step(PollerInput::EmitOk, 0);
    assert_eq!(expect_fetch(act), "new");
}

#[test]
fn fetch_failure_emits_once_and_delays_ten_seconds() {
    let mut p = Poller::new();
    p.start();
    p.step(PollerInput::LoadOk(record("acc", 1000, "ref")), 0);
    let act = p.step(PollerInput::FetchErr, 0);
    assert_eq!(expect_failure(act), "Spotify API error");
    let act = p.step(PollerInput::EmitOk, 0);
    assert!(matches!(act, PollerAction::Sleep(10000)));
}

#[test]
fn snapshot_without_album_image_is_reported_not_fatal() {
    let mut p = Poller::new();
    p.start();
    p.step(PollerInput::LoadOk(record("acc", 1000, "ref")), 0);
    let mut snap = snapshot();
    snap.album_images.clear();
    let act = p.step(PollerInput::FetchOk(snap), 0);
    assert_eq!(expect_failure(act), "playback snapshot has no album image");
    let act = p.step(PollerInput::EmitOk, 0);
    assert!(matches!(act, PollerAction::Sleep(10000)));
}

#[test]
fn nothing_playing_is_suppressed_and_rechecked_at_the_ceiling() {
    let mut p = Poller::new();
    p.start();
    p.step(PollerInput::LoadOk(record("acc", 1000, "ref")), 0);
    let act = p.step(PollerInput::FetchNoContent, 0);
    assert!(matches!(act, PollerAction::Sleep(20000)));
}

#[test]
fn disconnect_stops_the_poller_without_further_work() {
    let mut p = Poller::new();
    p.start();
    p.step(PollerInput::LoadOk(record("acc", 1000, "ref")), 0);
    p.step(PollerInput::FetchErr, 0);
    let act = p.step(PollerInput::EmitErr, 0);
    assert!(matches!(act, PollerAction::Halt));
    let act = p.step(PollerInput::SleepDone, 0);
    assert!(matches!(act, PollerAction::Halt));
    let act = p.step(PollerInput::FetchErr, 0);
    assert!(matches!(act, PollerAction::Halt));
}

#[test]
fn missing_credential_yields_one_failure_then_the_stream_closes() {
    let mut p = Poller::new();
    assert!(matches!(p.start(), PollerAction::LoadToken));
    let mut events: Vec<PlaybackEvent> = Vec::new();
    let act = p.step(PollerInput::LoadErr(ServiceError::NotFound), 0);
    events.push(expect_emit(act));
    let act = p.step(PollerInput::EmitOk, 0);
    assert!(matches!(act, PollerAction::Halt));
    assert_eq!(events.len(), 1);
    match &events[0] {
        PlaybackEvent::Failure(message) => {
            assert_eq!(message, "no stored credential for subscriber")
        }
        PlaybackEvent::Success(_) => panic!("bootstrapping failure must be a failure event"),
    }
}

#[test]
fn valid_credential_yields_two_identical_successes() {
    let mut store = now_playing::store::TokenStore::new();
    let identity = "subscriber".to_string();
    store.upsert(identity.clone(), record("acc", 1_000_000, "ref"));
    let loaded = store.load(&identity).unwrap();

    let mut p = Poller::new();
    assert!(matches!(p.start(), PollerAction::LoadToken));
    let mut events: Vec<PlaybackEvent> = Vec::new();

    let act = p.step(PollerInput::LoadOk(loaded), 10);
    assert_eq!(expect_fetch(act), "acc");
    let act = p.step(PollerInput::FetchOk(snapshot()), 10);
    events.push(expect_emit(act));
    let act = p.step(PollerInput::EmitOk, 10);
    assert!(matches!(act, PollerAction::Sleep(10200)));
    let act = p.step(PollerInput::SleepDone, 21);
    assert_eq!(expect_fetch(act), "acc");
    let act = p.step(PollerInput::FetchOk(snapshot()), 21);
    events.push(expect_emit(act));
    let act = p.step(PollerInput::EmitOk, 21);
    assert!(matches!(act, PollerAction::Sleep(10200)));

    assert_eq!(events.len(), 2);
    for event in &events {
        match event {
            PlaybackEvent::Success(song) => {
                assert_eq!(song.title, "Track");
                assert_eq!(song.artist, "A, B");
                assert_eq!(song.album_cover, "http://img/1");
                assert_eq!(song.progress_ms, 170000);
                assert_eq!(song.total_ms, 180000);
                assert!(song.is_playing);
            }
            PlaybackEvent::Failure(message) => {
                panic!("expected only successes, got failure: {}", message)
            }
        }
    }
}

#[test]
fn stepping_at_the_wall_clock_fetches_a_long_lived_credential() {
    let mut p = Poller::new();
    p.start();
    let act = p.step_at_current_time(PollerInput::LoadOk(record("acc", i64::MAX, "ref")));
    match act {
        Some(PollerAction::Fetch(token)) => assert_eq!(token, "acc"),
        _ => panic!("a credential that never expires must be fetched with"),
    }
}
