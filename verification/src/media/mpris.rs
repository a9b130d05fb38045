//! What the bar shows of the active MPRIS player.
use vstd::prelude::*;

verus! {

/// Playback state as the player reports it.
#[derive(PartialEq, Eq, Structural, Clone, Copy, Debug)]
pub enum PlaybackStatus {
    Playing,
    Paused,
    Stopped,
}

/// The active player's track and state, as shown by the bar.
pub struct MediaPlayerInfo {
    pub title: String,
    pub artist: String,
    /// "playing", "paused" or "stopped".
    pub status: String,
    pub has_player: bool,
}

/// The status word for a reported playback state; an unreadable state counts as stopped.
pub open spec fn status_word(s: Option<PlaybackStatus>) -> Seq<char> {
    match s {
        Some(PlaybackStatus::Playing) => "playing"@,
        Some(PlaybackStatus::Paused) => "paused"@,
        _ => "stopped"@,
    }
}

/// The status word for a reported playback state.
pub fn status_label(s: Option<PlaybackStatus>) -> (r: String)
    ensures
        r@ == status_word(s),
{
    match s {
        Some(PlaybackStatus::Playing) => String::from_str("playing"),
        Some(PlaybackStatus::Paused) => String::from_str("paused"),
        _ => String::from_str("stopped"),
    }
}

/// The text shown for a missing title or artist.
pub open spec fn unknown_text() -> Seq<char> {
    "Unknown"@
}

/// The title shown: the track's title, or "Unknown".
pub open spec fn shown_title(title: Option<Seq<char>>) -> Seq<char> {
    match title {
        Some(t) => t,
        None => unknown_text(),
    }
}

/// The artist shown: the first of the track's artists, or "Unknown".
pub open spec fn shown_artist(artists: Option<Seq<Seq<char>>>) -> Seq<char> {
    match artists {
        Some(a) => if a.len() > 0 {
            a[0]
        } else {
            unknown_text()
        },
        None => unknown_text(),
    }
}

/// What the bar shows of the active player, from the track's title, its
/// artists and the playback state read from the player.
pub fn media_info(
    title: Option<String>,
    artists: Option<Vec<String>>,
    status: Option<PlaybackStatus>,
) -> (r: MediaPlayerInfo)
    ensures
        r.title@ == shown_title(
            match title {
                Some(t) => Some(t@),
                None => None,
            },
        ),
        r.artist@ == shown_artist(
            match artists {
                Some(a) => Some(a@.map_values(|s: String| s@)),
                None => None,
            },
        ),
        r.status@ == status_word(status),
        r.has_player,
{
    let title = match title {
        Some(t) => t,
        None => String::from_str("Unknown"),
    };
    let artist = match &artists {
        Some(a) => if a.len() > 0 {
            a[0].clone()
        } else {
            String::from_str("Unknown")
        },
        None => String::from_str("Unknown"),
    };
    MediaPlayerInfo { title, artist, status: status_label(status), has_player: true }
}

} // verus!
