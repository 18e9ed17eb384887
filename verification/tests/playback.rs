use now_playing::error::ServiceError;
use now_playing::playback::build_song_response;
use now_playing::playback::compute_delay;
use now_playing::playback::join_artists;
use now_playing::playback::PlaybackSnapshot;

fn snapshot(artists: Vec<&str>, images: Vec<&str>) -> PlaybackSnapshot {
    PlaybackSnapshot {
        title: "Track".to_string(),
        artists: artists.into_iter().map(|s| s.to_string()).collect(),
        album_images: images.into_iter().map(|s| s.to_string()).collect(),
        progress_ms: 170000,
        duration_ms: 180000,
        is_playing: true,
    }
}

#[test]
fn delay_near_track_end_lands_just_after_it() {
    assert_eq!(compute_delay(180000, 170000), 10200);
}

#[test]
fn delay_far_from_track_end_is_capped() {
    assert_eq!(compute_delay(180000, 50000), 20000);
}

#[test]
fn delay_is_clamped_when_progress_overshoots() {
    assert_eq!(compute_delay(1000, 2000), 0);
    assert_eq!(compute_delay(1000, 1100), 100);
    assert_eq!(compute_delay(1000, 1000), 200);
}

#[test]
fn artists_are_joined_with_comma_and_space() {
    let names: Vec<String> = vec!["A".to_string(), "B".to_string(), "C".to_string()];
    assert_eq!(join_artists(&names), "A, B, C");
}

#[test]
fn single_artist_stands_alone() {
    let names: Vec<String> = vec!["A".to_string()];
    assert_eq!(join_artists(&names), "A");
}

#[test]
fn no_artists_give_the_empty_string() {
    let names: Vec<String> = Vec::new();
    assert_eq!(join_artists(&names), "");
}

#[test]
fn snapshot_is_normalized_into_song_fields() {
    let snap = snapshot(vec!["A", "B"], vec!["http://img/1", "http://img/2"]);
    let song = build_song_response(snap).unwrap();
    assert_eq!(song.title, "Track");
    assert_eq!(song.artist, "A, B");
    assert_eq!(song.album_cover, "http://img/1");
    assert_eq!(song.progress_ms, 170000);
    assert_eq!(song.total_ms, 180000);
    assert!(song.is_playing);
}

#[test]
fn snapshot_without_album_image_is_malformed() {
    let snap = snapshot(vec!["A"], vec![]);
    match build_song_response(snap) {
        Err(e) => assert_eq!(e, ServiceError::MalformedSnapshot),
        Ok(_) => panic!("a snapshot without album images must be rejected"),
    }
}

#[test]
fn error_messages_name_each_failure() {
    assert_eq!(
        ServiceError::NotFound.message(),
        "no stored credential for subscriber"
    );
    assert_eq!(ServiceError::StorageError.message(), "token store error");
    assert_eq!(ServiceError::UpstreamError.message(), "Spotify API error");
    assert_eq!(
        ServiceError::MalformedSnapshot.message(),
        "playback snapshot has no album image"
    );
}

#[test]
fn http_error_is_an_internal_server_error() {
    let e = now_playing::error::HttpError;
    assert_eq!(e.status(), 500);
    assert_eq!(e.message(), "Internal Server Error");
}
