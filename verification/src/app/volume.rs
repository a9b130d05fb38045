//! The volume widget: its icon by level, and the levels its buttons set.
use vstd::prelude::*;

use crate::data::VolumeInfo;

verus! {

/// The icon name for a volume level.
pub open spec fn volume_icon(level: u8) -> Seq<char> {
    if level == 0 {
        "volume_off"@
    } else if level <= 33 {
        "volume_mute"@
    } else if level <= 66 {
        "volume_down"@
    } else {
        "volume_up"@
    }
}

/// The icon name for a volume level: off at 0, mute up to 33, down up to 66, up above.
pub fn volume_icon_name(level: u8) -> (r: String)
    ensures
        r@ == volume_icon(level),
{
    if level == 0 {
        String::from_str("volume_off")
    } else if level <= 33 {
        String::from_str("volume_mute")
    } else if level <= 66 {
        String::from_str("volume_down")
    } else {
        String::from_str("volume_up")
    }
}

/// What the widget shows for the level read from the output device: the
/// level, muted exactly at 0, and the icon for the level.
pub fn volume_info_for(level: u8) -> (v: VolumeInfo)
    ensures
        v.volume == level,
        v.muted == (level == 0),
        v.icon@ == volume_icon(level),
{
    VolumeInfo { volume: level, muted: level == 0, icon: volume_icon_name(level) }
}

/// The volume where no output device can be queried: 50, not muted, "volume_up".
pub fn get_volume_info() -> (r: Option<VolumeInfo>)
    ensures
        r matches Some(v) && v.volume == 50 && !v.muted && v.icon@ == "volume_up"@,
{
    Some(VolumeInfo { volume: 50, muted: false, icon: String::from_str("volume_up") })
}

/// The level after one step up: ten more, at most 100.
pub fn raised_volume(current: u8) -> (r: u8)
    ensures
        r == if current + 10 <= 100 {
            current + 10
        } else {
            100
        },
{
    if current >= 90 {
        100
    } else {
        current + 10
    }
}

/// The level after one step down: ten less, at least 0.
pub fn lowered_volume(current: u8) -> (r: u8)
    ensures
        r == if current >= 10 {
            current - 10
        } else {
            0
        },
{
    current.saturating_sub(10)
}

/// Mute toggling from `current` (0 when it cannot be read): a sounding
/// device is set to 0 and reported muted; a silent one is set to 50 and
/// reported unmuted.
pub fn mute_toggle(current: u8) -> (r: (u8, bool))
    ensures
        current > 0 ==> r == (0u8, true),
        current == 0 ==> r == (50u8, false),
{
    if current > 0 {
        (0, true)
    } else {
        (50, false)
    }
}

/// Raising the volume where no output device can be driven reports 60.
pub fn increase_volume() -> (r: Result<u8, String>)
    ensures
        r == Ok::<u8, String>(60),
{
    Ok(60)
}

/// Lowering the volume where no output device can be driven reports 40.
pub fn decrease_volume() -> (r: Result<u8, String>)
    ensures
        r == Ok::<u8, String>(40),
{
    Ok(40)
}

/// Setting the volume where no output device can be driven succeeds and does nothing.
pub fn set_volume(volume: u8) -> (r: Result<(), String>)
    ensures
        r == Ok::<(), String>(()),
{
    Ok(())
}

/// Toggling mute where no output device can be driven reports unmuted.
pub fn toggle_mute() -> (r: Result<bool, String>)
    ensures
        r == Ok::<bool, String>(false),
{
    Ok(false)
}

} // verus!
