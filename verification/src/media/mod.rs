//! Media-player control: the commands for platforms without a media backend,
//! the MPRIS status mapping, and the Windows session bookkeeping helpers.
use vstd::prelude::*;

pub mod mpris;
pub mod windows;

verus! {

/// The error every media command reports where no backend exists.
pub open spec fn unsupported_message() -> Seq<char> {
    "Media control not supported on this platform"@
}

/// A command that this platform cannot carry out.
pub open spec fn is_unsupported(r: Result<(), String>) -> bool {
    r matches Err(e) && e@ == unsupported_message()
}

pub(crate) fn unsupported() -> (r: Result<(), String>)
    ensures
        is_unsupported(r),
{
    Err(String::from_str("Media control not supported on this platform"))
}

/// Toggles playback; without a media backend this always fails.
pub fn play_pause() -> (r: Result<(), String>)
    ensures
        is_unsupported(r),
{
    unsupported()
}

/// Skips to the next track; without a media backend this always fails.
pub fn next() -> (r: Result<(), String>)
    ensures
        is_unsupported(r),
{
    unsupported()
}

/// Goes back to the previous track; without a media backend this always fails.
pub fn previous() -> (r: Result<(), String>)
    ensures
        is_unsupported(r),
{
    unsupported()
}

} // verus!
