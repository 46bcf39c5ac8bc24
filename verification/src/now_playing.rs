//! Decisions of the now-playing view: what a swipe, the back button, a
//! selected song or a started stream lead to.
use vstd::prelude::*;
use vstd::string::*;
use crate::playback::{file_uri, file_uri_text, PlayState};

verus! {

/// Which of the two now-playing widgets a gesture happened on.
#[derive(Clone, Copy, Debug, PartialEq, Eq, Structural)]
pub enum Surface {
    /// The full now-playing body.
    Body,
    /// The small widget at the bottom.
    Bottom,
}

/// What a swipe leads to.
#[derive(Clone, Copy, Debug, PartialEq, Eq, Structural)]
pub enum SwipeAction {
    /// Moves that many songs through the album.
    DeltaSong(i32),
    /// Shows the bottom widget and the last page of the history.
    ShowBottom,
    /// Shows the full now-playing body.
    ShowBody,
    /// Nothing.
    Ignore,
}

/// The action of a swipe on `surface`. A mostly horizontal swipe moves to the
/// previous song when it goes right and to the next one otherwise; a mostly
/// vertical one shows the bottom widget when it goes down on the body, and
/// the body when it goes up on the bottom widget.
pub fn swipe_action(
    surface: Surface,
    horizontal: bool,
    vertical: bool,
    rightward: bool,
    downward: bool,
    upward: bool,
) -> (action: SwipeAction)
    ensures
        action == (if horizontal {
            SwipeAction::DeltaSong(if rightward { -1i32 } else { 1i32 })
        } else if surface == Surface::Body && downward && vertical {
            SwipeAction::ShowBottom
        } else if surface == Surface::Bottom && upward && vertical {
            SwipeAction::ShowBody
        } else {
            SwipeAction::Ignore
        }),
{
    if horizontal {
        SwipeAction::DeltaSong(if rightward { -1 } else { 1 })
    } else {
        match surface {
            Surface::Body => if downward && vertical { SwipeAction::ShowBottom } else { SwipeAction::Ignore },
            Surface::Bottom => if upward && vertical { SwipeAction::ShowBody } else { SwipeAction::Ignore },
        }
    }
}

/// What the back button leads to.
#[derive(Clone, Copy, Debug, PartialEq, Eq, Structural)]
pub enum BackAction {
    /// With no history: shows the artists page and starts a history with it.
    ShowArtists,
    /// Drops the last page of the history and shows the one before.
    PopAndShowLast,
    /// Leaves the now-playing body for the bottom widget and shows the last page.
    ShowBottomAndLast,
}

/// The action of the back button: with an empty history it shows the
/// artists; as a back arrow it pops the history; otherwise it leaves the
/// now-playing body.
pub fn back_action(history_len: usize, shows_back_icon: bool) -> (action: BackAction)
    ensures
        action == (if history_len == 0 {
            BackAction::ShowArtists
        } else if shows_back_icon {
            BackAction::PopAndShowLast
        } else {
            BackAction::ShowBottomAndLast
        }),
{
    if history_len == 0 {
        BackAction::ShowArtists
    } else if shows_back_icon {
        BackAction::PopAndShowLast
    } else {
        BackAction::ShowBottomAndLast
    }
}

/// What selecting a song leads to once it is loaded.
#[derive(Clone, Copy, Debug, PartialEq, Eq, Structural)]
pub enum SelectAction {
    /// Plays it right away.
    Play,
    /// Clicks the play/pause button.
    ClickPlayPause,
}

/// The player is stopped, the song is loaded, and then a player that was
/// playing plays on, while a stopped or paused one is started by a click on
/// its play/pause button.
pub fn select_action(before: PlayState) -> (action: SelectAction)
    ensures
        action == (if before == PlayState::Playing { SelectAction::Play } else { SelectAction::ClickPlayPause }),
{
    match before {
        PlayState::Playing => SelectAction::Play,
        _ => SelectAction::ClickPlayPause,
    }
}

/// Whether a "play" request of the media keys clicks the play/pause button:
/// only when not already playing.
pub fn play_request_clicks(current: PlayState) -> (clicks: bool)
    ensures
        clicks == (current != PlayState::Playing),
{
    current != PlayState::Playing
}

/// Whether a "pause" request of the media keys clicks the play/pause button:
/// only when not already paused.
pub fn pause_request_clicks(current: PlayState) -> (clicks: bool)
    ensures
        clicks == (current != PlayState::Paused),
{
    current != PlayState::Paused
}

/// How the song list of an album follows the song that starts playing.
#[derive(Clone, Copy, Debug, PartialEq, Eq, Structural)]
pub struct Highlight {
    /// The song that the list now takes as current.
    pub current: Option<i32>,
    /// Whether the started song's row is emphasized (it is in the list).
    pub emphasize_started: bool,
    /// The song whose row loses its emphasis, if any.
    pub unemphasize: Option<i32>,
}

/// The change of the album list when `started` starts: a listed song is
/// emphasized; and when the list had another current song, that one loses its
/// emphasis (if listed) and `started` becomes current. A list with no current
/// song keeps none, and a song not in the list changes nothing.
pub fn stream_started(current: Option<i32>, started: i32, listed: &Vec<i32>) -> (change: Highlight)
    ensures
        !listed@.contains(started) ==> change == (Highlight {
            current: current,
            emphasize_started: false,
            unemphasize: None,
        }),
        listed@.contains(started) ==> change == (match current {
            Some(c) => if c != started {
                Highlight {
                    current: Some(started),
                    emphasize_started: true,
                    unemphasize: if listed@.contains(c) { Some(c) } else { None },
                }
            } else {
                Highlight { current: current, emphasize_started: true, unemphasize: None }
            },
            None => Highlight { current: None, emphasize_started: true, unemphasize: None },
        }),
{
    if !contains_id(listed, started) {
        return Highlight { current, emphasize_started: false, unemphasize: None };
    }
    match current {
        Some(c) => {
            if c != started {
                Highlight {
                    current: Some(started),
                    emphasize_started: true,
                    unemphasize: if contains_id(listed, c) { Some(c) } else { None },
                }
            } else {
                Highlight { current, emphasize_started: true, unemphasize: None }
            }
        },
        None => Highlight { current: None, emphasize_started: true, unemphasize: None },
    }
}

fn contains_id(ids: &Vec<i32>, id: i32) -> (found: bool)
    ensures
        found == ids@.contains(id),
{
    let mut i: usize = 0;
    while i < ids.len()
        invariant
            i <= ids@.len(),
            forall|j: int| 0 <= j < i ==> ids@[j] != id,
        decreases ids@.len() - i,
    {
        if ids[i] == id {
            proof { assert(ids@[i as int] == id); }
            return true;
        }
        i = i + 1;
    }
    false
}

/// The widget that an update of the song's details goes to: the bottom
/// widget when it is shown, unless the update is for the widget not shown.
pub fn updated_surface(bottom_shown: bool, other: bool) -> (surface: Surface)
    ensures
        surface == (if bottom_shown != other { Surface::Bottom } else { Surface::Body }),
{
    if bottom_shown != other {
        Surface::Bottom
    } else {
        Surface::Body
    }
}

/// The cover the media keys show: the stream location of the cover file,
/// when that file exists.
pub fn art_url(cover: &str, exists: bool) -> (url: Option<String>)
    ensures
        match url {
            Some(u) => exists && u@ == file_uri_text(cover@),
            None => !exists,
        },
{
    if exists {
        Some(file_uri(cover))
    } else {
        None
    }
}

/// Whether the play/pause button not shown takes the "play" look: when the
/// shown one offers to play.
pub fn offers_play(tooltip: &str) -> (play: bool)
    ensures
        play == (tooltip@ == "Play"@),
{
    let shown = String::from_str(tooltip);
    let play = String::from_str("Play");
    shown.eq(&play)
}

} // verus!
