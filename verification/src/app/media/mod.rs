//! The media controls the bar falls back to when no player backend is built in.
use vstd::prelude::*;

use crate::media::mpris::{status_label, status_word, PlaybackStatus};
use crate::media::windows::no_music_title;
use crate::media::{is_unsupported, unsupported};

pub mod popup;

verus! {

/// Toggles playback; the fallback backend always fails.
pub fn play_pause() -> (r: Result<(), String>)
    ensures
        is_unsupported(r),
{
    unsupported()
}

/// Skips to the next track; the fallback backend always fails.
pub fn next() -> (r: Result<(), String>)
    ensures
        is_unsupported(r),
{
    unsupported()
}

/// Goes back to the previous track; the fallback backend always fails.
pub fn previous() -> (r: Result<(), String>)
    ensures
        is_unsupported(r),
{
    unsupported()
}

/// What the media widget shows.
pub struct MediaView {
    pub title: String,
    pub artist: String,
    pub status: String,
    pub has_player: bool,
}

/// What the media widget shows for the active player: its track's title and
/// first artist (empty when unknown), whether its state could be read, and
/// the status word; with no player, "Sin música", stopped, no player.
pub fn media_view(
    player: Option<(Option<String>, Option<Vec<String>>, Option<PlaybackStatus>)>,
) -> (v: MediaView)
    ensures
        match player {
            Some((title, artists, status)) => {
                &&& v.title@ == match title {
                    Some(t) => t@,
                    None => Seq::empty(),
                }
                &&& v.artist@ == match artists {
                    Some(a) => if a@.len() > 0 {
                        a@[0]@
                    } else {
                        Seq::empty()
                    },
                    None => Seq::empty(),
                }
                &&& v.has_player == status is Some
                &&& v.status@ == status_word(status)
            },
            None => {
                &&& v.title@ == no_music_title()
                &&& v.artist@.len() == 0
                &&& !v.has_player
                &&& v.status@ == "stopped"@
            },
        },
{
    match player {
        Some((title, artists, status)) => {
            let title = match title {
                Some(t) => t,
                None => String::new(),
            };
            let artist = match &artists {
                Some(a) => if a.len() > 0 {
                    a[0].clone()
                } else {
                    String::new()
                },
                None => String::new(),
            };
            MediaView { title, artist, status: status_label(status), has_player: status.is_some() }
        },
        None => MediaView {
            title: String::from_str("Sin música"),
            artist: String::new(),
            status: String::from_str("stopped"),
            has_player: false,
        },
    }
}

} // verus!
