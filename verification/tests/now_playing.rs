use harborz::now_playing::{art_url, offers_play};
use harborz::now_playing::updated_surface;
use harborz::now_playing::{
    back_action, pause_request_clicks, play_request_clicks, select_action, stream_started, swipe_action,
    BackAction, Highlight, SelectAction, Surface, SwipeAction,
};
use harborz::playback::PlayState;

#[test]
fn swipes() {
    assert_eq!(swipe_action(Surface::Body, true, false, true, false, false), SwipeAction::DeltaSong(-1));
    assert_eq!(swipe_action(Surface::Bottom, true, false, false, false, false), SwipeAction::DeltaSong(1));
    assert_eq!(swipe_action(Surface::Body, false, true, false, true, false), SwipeAction::ShowBottom);
    assert_eq!(swipe_action(Surface::Body, false, true, false, false, true), SwipeAction::Ignore);
    assert_eq!(swipe_action(Surface::Bottom, false, true, false, false, true), SwipeAction::ShowBody);
    assert_eq!(swipe_action(Surface::Bottom, false, false, false, false, true), SwipeAction::Ignore);
}

#[test]
fn back_button() {
    assert_eq!(back_action(0, true), BackAction::ShowArtists);
    assert_eq!(back_action(2, true), BackAction::PopAndShowLast);
    assert_eq!(back_action(2, false), BackAction::ShowBottomAndLast);
}

#[test]
fn selecting_a_song() {
    assert_eq!(select_action(PlayState::Playing), SelectAction::Play);
    assert_eq!(select_action(PlayState::Paused), SelectAction::ClickPlayPause);
    assert_eq!(select_action(PlayState::Null), SelectAction::ClickPlayPause);
}

#[test]
fn media_key_requests() {
    assert!(!play_request_clicks(PlayState::Playing));
    assert!(play_request_clicks(PlayState::Paused));
    assert!(pause_request_clicks(PlayState::Playing));
    assert!(!pause_request_clicks(PlayState::Paused));
}

#[test]
fn highlight_follows_started_song() {
    let listed = vec![1, 2, 3];
    assert_eq!(
        stream_started(Some(1), 2, &listed),
        Highlight { current: Some(2), emphasize_started: true, unemphasize: Some(1) }
    );
    assert_eq!(
        stream_started(Some(9), 2, &listed),
        Highlight { current: Some(2), emphasize_started: true, unemphasize: None }
    );
    assert_eq!(
        stream_started(Some(2), 2, &listed),
        Highlight { current: Some(2), emphasize_started: true, unemphasize: None }
    );
    assert_eq!(
        stream_started(None, 2, &listed),
        Highlight { current: None, emphasize_started: true, unemphasize: None }
    );
    assert_eq!(
        stream_started(Some(1), 7, &listed),
        Highlight { current: Some(1), emphasize_started: false, unemphasize: None }
    );
}

#[test]
fn updates_go_to_the_right_widget() {
    assert_eq!(updated_surface(true, false), Surface::Bottom);
    assert_eq!(updated_surface(true, true), Surface::Body);
    assert_eq!(updated_surface(false, false), Surface::Body);
    assert_eq!(updated_surface(false, true), Surface::Bottom);
}

#[test]
fn art_url_and_play_look() {
    assert_eq!(art_url("/music/a/cover.jpg", true), Some(String::from("file:/music/a/cover.jpg")));
    assert_eq!(art_url("/music/a/cover.jpg", false), None);
    assert!(offers_play("Play"));
    assert!(!offers_play("Pause"));
}
