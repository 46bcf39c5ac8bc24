use harborz::playback::{
    file_uri, go_delta_song, minutes_width, play_pause_target, position_label, seek_target, uri_path, DeltaSong,
    PlayState,
};

#[test]
fn play_pause_toggles() {
    assert_eq!(play_pause_target(PlayState::Playing), PlayState::Paused);
    assert_eq!(play_pause_target(PlayState::Paused), PlayState::Playing);
    assert_eq!(play_pause_target(PlayState::Null), PlayState::Playing);
}

#[test]
fn delta_song_moves_within_album() {
    let album = vec![11, 12, 13];
    assert_eq!(
        go_delta_song(&album, 12, 1, true, true),
        Some(DeltaSong { index: 2, stop_first: true, resume: Some(PlayState::Playing) })
    );
    assert_eq!(
        go_delta_song(&album, 12, -1, true, false),
        Some(DeltaSong { index: 0, stop_first: true, resume: Some(PlayState::Paused) })
    );
    assert_eq!(
        go_delta_song(&album, 11, 1, false, true),
        Some(DeltaSong { index: 1, stop_first: false, resume: None })
    );
}

#[test]
fn delta_song_stops_at_album_edges() {
    let album = vec![11, 12, 13];
    assert_eq!(go_delta_song(&album, 13, 1, true, true), None);
    assert_eq!(go_delta_song(&album, 11, -1, true, true), None);
}

#[test]
fn delta_song_uses_first_occurrence() {
    let album = vec![5, 6, 5];
    assert_eq!(go_delta_song(&album, 5, 1, false, false).map(|d| d.index), Some(1));
}

#[test]
fn next_then_previous_returns() {
    let album = vec![21, 22, 23, 24];
    let next = go_delta_song(&album, 22, 1, true, true).unwrap();
    let back = go_delta_song(&album, album[next.index], -1, true, true).unwrap();
    assert_eq!(album[back.index], 22);
}

#[test]
fn seek_stays_within_song() {
    assert_eq!(seek_target(10_000_000_000, 5_000_000, 60_000_000_000), 15_000_000_000);
    assert_eq!(seek_target(10_000_000_000, -20_000_000, 60_000_000_000), 0);
    assert_eq!(seek_target(50_000_000_000, 20_000_000, 60_000_000_000), 60_000_000_000);
    assert_eq!(seek_target(1_000, 0, 60_000_000_000), 1_000);
}

#[test]
fn minutes_width_counts_duration_minutes() {
    assert_eq!(minutes_width(0), 1);
    assert_eq!(minutes_width(59_000_000_000), 1);
    assert_eq!(minutes_width(600_000_000_000), 2);
    assert_eq!(minutes_width(6_000_000_000_000), 3);
}

#[test]
fn position_label_matches_duration_width() {
    assert_eq!(position_label(5_000_000_000, 700_000_000_000), "00:05");
    assert_eq!(position_label(5_000_000_000, 70_000_000_000), "0:05");
    let duration = 6_000_000_000_000;
    for position in [0u64, 61_000_000_000, 599_000_000_000, duration] {
        assert_eq!(position_label(position, duration).len(), harborz::util::format(duration).len());
    }
}

#[test]
fn uri_round_trip() {
    assert_eq!(file_uri("/music/a.mp3"), "file:/music/a.mp3");
    assert_eq!(uri_path("file:/music/a.mp3"), "/music/a.mp3");
    let uri = file_uri("/música/ä.flac");
    assert_eq!(uri_path(&uri), "/música/ä.flac");
}
