//! Helpers of the Windows media session reader: thumbnail checks and the
//! progress labels.
use vstd::prelude::*;

use crate::text::{decimal, push_decimal, push_two_digits, two_digits};

verus! {

/// Whether the bytes start like a PNG, a JPEG or a BMP image.
pub open spec fn looks_like_image(data: Seq<u8>) -> bool {
    &&& data.len() >= 4
    &&& {
        ||| (data[0] == 0x89 && data[1] == 0x50 && data[2] == 0x4E && data[3] == 0x47)
        ||| (data[0] == 0xFF && data[1] == 0xD8 && data[2] == 0xFF)
        ||| (data[0] == 0x42 && data[1] == 0x4D && data[2] == 0x00 && data[3] == 0x00)
    }
}

/// Whether a thumbnail's bytes carry a PNG, JPEG or BMP signature.
pub fn is_valid_image_format(data: &[u8]) -> (r: bool)
    ensures
        r == looks_like_image(data@),
{
    if data.len() < 4 {
        return false;
    }
    (data[0] == 0x89 && data[1] == 0x50 && data[2] == 0x4E && data[3] == 0x47) || (data[0] == 0xFF
        && data[1] == 0xD8 && data[2] == 0xFF) || (data[0] == 0x42 && data[1] == 0x4D && data[2]
        == 0x00 && data[3] == 0x00)
}

/// A duration in seconds as minutes and two-digit seconds ("3:07").
pub open spec fn time_label(seconds: nat) -> Seq<char> {
    decimal(seconds / 60) + seq![':'] + two_digits(seconds % 60)
}

/// Formats a duration in seconds as "m:ss".
pub fn format_time(seconds: u64) -> (r: String)
    ensures
        r@ == time_label(seconds as nat),
{
    let mut r = String::new();
    push_decimal(&mut r, seconds / 60);
    crate::text::push_char(&mut r, ':');
    push_two_digits(&mut r, seconds % 60);
    r
}

/// Whether a thumbnail stream of `size` bytes is read at all.
pub open spec fn thumbnail_size_ok(size: u32) -> bool {
    100 < size && size < 2_000_000
}

/// Whether a thumbnail stream of `size` bytes is small enough to be read.
pub fn thumbnail_readable(size: u32) -> (r: bool)
    ensures
        r == thumbnail_size_ok(size),
{
    size > 100 && size < 2_000_000
}

/// Playback state of a media session.
#[derive(PartialEq, Eq, Structural, Clone, Copy, Debug)]
pub enum SessionPlayback {
    Closed,
    Opened,
    Changing,
    Stopped,
    Playing,
    Paused,
}

/// The status word of a session: its state when it plays or pauses,
/// "stopped" otherwise and when the state cannot be read.
pub open spec fn session_status_word(s: Option<SessionPlayback>) -> Seq<char> {
    match s {
        Some(SessionPlayback::Playing) => "playing"@,
        Some(SessionPlayback::Paused) => "paused"@,
        _ => "stopped"@,
    }
}

/// The status word of a session.
pub fn session_status(s: Option<SessionPlayback>) -> (r: String)
    ensures
        r@ == session_status_word(s),
{
    match s {
        Some(SessionPlayback::Playing) => String::from_str("playing"),
        Some(SessionPlayback::Paused) => String::from_str("paused"),
        _ => String::from_str("stopped"),
    }
}

/// The title shown when no track is known.
pub open spec fn no_music_title() -> Seq<char> {
    "Sin música"@
}

/// The title shown for a session: its track title, or "Sin música" when it has none.
pub open spec fn shown_session_title(title: Seq<char>) -> Seq<char> {
    if title.len() == 0 {
        no_music_title()
    } else {
        title
    }
}

/// The title shown for a session's track title.
pub fn session_title(title: String) -> (r: String)
    ensures
        r@ == shown_session_title(title@),
{
    if title.as_str().is_empty() {
        String::from_str("Sin música")
    } else {
        title
    }
}

/// A session counts as an active player when it has a title or is playing.
pub fn has_active_player(title: &str, playing: bool) -> (r: bool)
    ensures
        r == (title@.len() > 0 || playing),
{
    !title.is_empty() || playing
}

} // verus!
