//! Decisions of the player: which song comes next, where a seek lands,
//! how a position is labelled and how a file becomes a stream location.
use vstd::prelude::*;
use vstd::string::*;
use crate::decimal::{digit_count, digits, lemma_digits_len_monotone, zero_padded};
use crate::util::{clock_text, format_pad, whole_seconds, NANOS_PER_SECOND};

verus! {

/// The states of the player that its decisions name.
#[derive(Clone, Copy, Debug, PartialEq, Eq, Structural)]
pub enum PlayState {
    Null,
    Paused,
    Playing,
}

/// The state that the play/pause button asks for: a playing player pauses,
/// any other one plays.
pub fn play_pause_target(current: PlayState) -> (target: PlayState)
    ensures
        target == (if current == PlayState::Playing { PlayState::Paused } else { PlayState::Playing }),
{
    match current {
        PlayState::Playing => PlayState::Paused,
        _ => PlayState::Playing,
    }
}

/// The first position of `id` in `ids`.
pub open spec fn first_index(ids: Seq<i32>, id: i32) -> int
    recommends
        ids.contains(id),
{
    choose|i: int| 0 <= i < ids.len() && ids[i] == id && forall|j: int| 0 <= j < i ==> ids[j] != id
}

/// What the player does to move through an album: the index of the song to
/// load, whether it stops before loading it, and the state it takes after.
#[derive(Clone, Copy, Debug, PartialEq, Eq, Structural)]
pub struct DeltaSong {
    pub index: usize,
    pub stop_first: bool,
    pub resume: Option<PlayState>,
}

/// The first position of an id is where it occurs with no occurrence before.
pub proof fn lemma_first_index(ids: Seq<i32>, id: i32, k: int)
    requires
        0 <= k < ids.len(),
        ids[k] == id,
        forall|j: int| 0 <= j < k ==> ids[j] != id,
    ensures
        first_index(ids, id) == k,
{
    let i = first_index(ids, id);
    assert(0 <= i < ids.len() && ids[i] == id && forall|j: int| 0 <= j < i ==> ids[j] != id);
    if i < k {
        assert(ids[i] != id);
    }
    if k < i {
        assert(ids[k] != id);
    }
}

/// Moves `delta` songs away from the current one in its album, given the ids
/// of the album's songs in play order. There is no move when the target falls
/// outside the album. A move `now` stops the player first and afterwards
/// plays if it was playing, else pauses; a move for later leaves the state
/// alone.
pub fn go_delta_song(album_song_ids: &Vec<i32>, current_song_id: i32, delta: i32, now: bool, playing: bool)
    -> (result: Option<DeltaSong>)
    requires
        album_song_ids@.contains(current_song_id),
        album_song_ids@.len() <= i32::MAX,
        i32::MIN <= first_index(album_song_ids@, current_song_id) + delta <= i32::MAX,
    ensures
        ({
            let target = first_index(album_song_ids@, current_song_id) + delta;
            match result {
                Some(step) => {
                    &&& 0 <= target < album_song_ids@.len()
                    &&& step.index == target
                    &&& step.stop_first == now
                    &&& step.resume == (if now {
                        Some(if playing { PlayState::Playing } else { PlayState::Paused })
                    } else {
                        None::<PlayState>
                    })
                },
                None => !(0 <= target < album_song_ids@.len()),
            }
        }),
{
    let mut position: usize = 0;
    while album_song_ids[position] != current_song_id
        invariant
            0 <= position < album_song_ids@.len(),
            album_song_ids@.len() <= i32::MAX,
            album_song_ids@.contains(current_song_id),
            forall|j: int| 0 <= j < position ==> album_song_ids@[j] != current_song_id,
        decreases album_song_ids@.len() - position,
    {
        position = position + 1;
        if position == album_song_ids.len() {
            proof {
                let w = choose|w: int| 0 <= w < album_song_ids@.len() && album_song_ids@[w] == current_song_id;
                assert(album_song_ids@[w] != current_song_id);
            }
        }
    }
    proof { lemma_first_index(album_song_ids@, current_song_id, position as int); }
    let target: i32 = position as i32 + delta;
    if target >= 0 && (target as usize) < album_song_ids.len() {
        let resume = if now {
            Some(if playing { PlayState::Playing } else { PlayState::Paused })
        } else {
            None
        };
        Some(DeltaSong { index: target as usize, stop_first: now, resume })
    } else {
        None
    }
}

/// Going one song forward and then one back comes back to the song one
/// started from, in an album where no song appears twice.
pub proof fn law_next_then_previous(ids: Seq<i32>, current: i32)
    requires
        ids.contains(current),
        ids.no_duplicates(),
        0 <= first_index(ids, current) + 1 < ids.len(),
    ensures
        ({
            let next = ids[first_index(ids, current) + 1];
            &&& ids.contains(next)
            &&& first_index(ids, next) - 1 == first_index(ids, current)
        }),
{
    let w = choose|w: int| 0 <= w < ids.len() && ids[w] == current;
    let i = first_index(ids, current);
    assert(0 <= i < ids.len() && ids[i] == current && forall|j: int| 0 <= j < i ==> ids[j] != current);
    let next = ids[i + 1];
    assert(ids.contains(next)) by { assert(ids[i + 1] == next); }
    assert forall|j: int| 0 <= j < i + 1 implies ids[j] != next by {
        assert(j != i + 1);
    }
    lemma_first_index(ids, next, i + 1);
}

/// The minutes of a time stamp given in nanoseconds.
pub open spec fn whole_minutes(timestamp: u64) -> nat {
    whole_seconds(timestamp) / 60
}

/// How many digits the minutes of `duration` take: the width that the
/// position label pads its minutes to.
pub fn minutes_width(duration: u64) -> (width: usize)
    ensures
        width == digits(whole_minutes(duration)).len(),
{
    digit_count(duration / NANOS_PER_SECOND / 60)
}

/// The label of a playback position, its minutes padded to as many digits as
/// those of the song's duration.
pub fn position_label(position: u64, duration: u64) -> (label: String)
    ensures
        label@ == clock_text(position, digits(whole_minutes(duration)).len()),
{
    format_pad(position, minutes_width(duration))
}

proof fn lemma_seconds_text_len(seconds: nat)
    requires
        seconds < 60,
    ensures
        zero_padded(digits(seconds), 2).len() == 2,
{
    if seconds >= 10 {
        assert(digits(seconds) == digits(seconds / 10) + seq![crate::decimal::digit_char(seconds % 10)]);
        assert(seconds / 10 < 10);
    }
}

/// The position label is as wide as the duration label, for every position
/// within the song: the two read aligned while a song plays.
pub proof fn law_position_label_width(position: u64, duration: u64)
    requires
        position <= duration,
    ensures
        clock_text(position, digits(whole_minutes(duration)).len()).len() == clock_text(duration, 1).len(),
{
    assert(whole_seconds(position) <= whole_seconds(duration));
    assert(whole_minutes(position) <= whole_minutes(duration));
    lemma_digits_len_monotone(whole_minutes(position), whole_minutes(duration));
    lemma_seconds_text_len(whole_seconds(position) % 60);
    lemma_seconds_text_len(whole_seconds(duration) % 60);
}

/// The location that the player streams a file from.
pub open spec fn file_uri_text(path: Seq<char>) -> Seq<char> {
    seq!['f', 'i', 'l', 'e', ':'] + path
}

/// The stream location of a file path.
pub fn file_uri(path: &str) -> (uri: String)
    ensures
        uri@ == file_uri_text(path@),
{
    proof { reveal_strlit("file:"); }
    let scheme = String::from_str("file:");
    scheme.concat(path)
}

/// The path of a stream location: what follows its five-character scheme.
pub fn uri_path(uri: &str) -> (path: &str)
    requires
        uri@.len() >= 5,
        forall|i: int| 0 <= i < 5 ==> (uri@[i] as u32) < 128,
    ensures
        path@ == uri@.skip(5),
{
    let len = uri.unicode_len();
    uri.substring_char(5, len)
}

/// A path comes back unchanged from its stream location.
pub proof fn law_uri_round_trip(path: Seq<char>)
    ensures
        file_uri_text(path).skip(5) == path,
        file_uri_text(path).len() >= 5,
{
    assert(file_uri_text(path).skip(5) =~= path);
}

/// Where a seek of `delta_micros` microseconds from `position` lands, in
/// nanoseconds: the distance is made nanoseconds and taken as a signed 64-bit
/// value, and the target is kept within the song.
pub open spec fn seek_target_spec(position: u64, delta_micros: i64, duration: u64) -> int {
    let magnitude = if delta_micros < 0 { -delta_micros } else { delta_micros as int };
    let nanos = (magnitude * 1000) as i64;
    let target = (position as i64) + if delta_micros >= 0 { nanos as int } else { -nanos };
    if target < 0 {
        0
    } else if target > duration {
        duration as int
    } else {
        target
    }
}

/// A seek never lands outside the song.
pub proof fn law_seek_within_song(position: u64, delta_micros: i64, duration: u64)
    ensures
        0 <= seek_target_spec(position, delta_micros, duration) <= duration,
{
}

/// A seek moves by exactly the distance asked, in nanoseconds (a thousand
/// per microsecond, forward or back by the sign), unless that leaves the
/// song: then it stops at its start or its end. Stated for positions and
/// distances that fit a signed 64-bit value of nanoseconds.
pub proof fn law_seek_moves_by_distance(position: u64, delta_micros: i64, duration: u64)
    requires
        position <= i64::MAX,
        delta_micros * 1000 <= i64::MAX,
        -delta_micros * 1000 <= i64::MAX,
    ensures
        0 <= position + delta_micros * 1000 <= duration ==> seek_target_spec(position, delta_micros, duration)
            == position + delta_micros * 1000,
        position + delta_micros * 1000 < 0 ==> seek_target_spec(position, delta_micros, duration) == 0,
        position + delta_micros * 1000 > duration ==> seek_target_spec(position, delta_micros, duration)
            == duration,
{
    let magnitude = if delta_micros < 0 { -delta_micros } else { delta_micros as int };
    assert(0 <= magnitude * 1000 <= i64::MAX);
    assert((magnitude * 1000) as i64 == magnitude * 1000);
    assert((position as i64) == position);
}

/// Seeks `delta_micros` microseconds away from `position` (forward when not
/// negative), within `0..=duration`.
pub fn seek_target(position: u64, delta_micros: i64, duration: u64) -> (target: u64)
    requires
        delta_micros != i64::MIN,
        duration <= i64::MAX,
        ({
            let magnitude = if delta_micros < 0 { -delta_micros } else { delta_micros as int };
            let nanos = (magnitude * 1000) as i64;
            &&& delta_micros < 0 ==> nanos != i64::MIN
            &&& i64::MIN <= (position as i64) + (if delta_micros >= 0 { nanos as int } else { -nanos })
                <= i64::MAX
        }),
    ensures
        target == seek_target_spec(position, delta_micros, duration),
        position <= i64::MAX && delta_micros * 1000 <= i64::MAX && -delta_micros * 1000 <= i64::MAX
            && 0 <= position + delta_micros * 1000 <= duration ==> target == position + delta_micros * 1000,
        position <= i64::MAX && delta_micros * 1000 <= i64::MAX && -delta_micros * 1000 <= i64::MAX
            && position + delta_micros * 1000 < 0 ==> target == 0,
        position <= i64::MAX && delta_micros * 1000 <= i64::MAX && -delta_micros * 1000 <= i64::MAX
            && position + delta_micros * 1000 > duration ==> target == duration,
{
    proof {
        if position <= i64::MAX && delta_micros * 1000 <= i64::MAX && -delta_micros * 1000 <= i64::MAX {
            law_seek_moves_by_distance(position, delta_micros, duration);
        }
    }
    let forward = delta_micros >= 0;
    let magnitude: u64 = if delta_micros < 0 { (-delta_micros) as u64 } else { delta_micros as u64 };
    let wide: u128 = magnitude as u128 * 1000;
    let nanos: i64 = wide as i64;
    let start: i64 = position as i64;
    let moved: i64 = if forward { start + nanos } else { start - nanos };
    let limit: i64 = duration as i64;
    if moved < 0 {
        0
    } else if moved > limit {
        duration
    } else {
        moved as u64
    }
}

} // verus!
