//! The volume controls of the options screen.
//!
//! A volume is shown as a level from 0 to 10 and stored as that many tenths.

use vstd::prelude::*;
use crate::fixed::{Fixed, SCALE};
use crate::settings::Settings;
use crate::timer::TENTH;

verus! {

/// Highest volume level.
pub const MAX_LEVEL: u8 = 10;

/// The four volume buttons.
#[derive(Clone, Copy, Debug, PartialEq, Eq, Structural)]
pub enum VolumeButton {
    MusicUp,
    MusicDown,
    EffectsUp,
    EffectsDown,
}

pub open spec fn spec_clamp(val: i16, min: u8, max: u8) -> u8 {
    if val < min {
        min
    } else if val > max {
        max
    } else {
        val as u8
    }
}

/// `val` if it lies between `min` and `max`, else the bound that it
/// passes; `min` wins where it lies above `max`.
#[verifier::when_used_as_spec(spec_clamp)]
pub fn clamp(val: i16, min: u8, max: u8) -> (r: u8)
    ensures
        r == spec_clamp(val, min, max),
        min <= val <= max ==> r == val,
        val < min ==> r == min,
        min <= val && val > max ==> r == max,
{
    if val < min as i16 {
        min
    } else if val > max as i16 {
        max
    } else {
        val as u8
    }
}

/// The level one step above or below `level`, kept between 0 and 10.
pub open spec fn stepped_level(level: i16, up: bool) -> int {
    let next = if up {
        level + 1
    } else {
        level - 1
    };
    if next < 0 {
        0
    } else if next > MAX_LEVEL {
        MAX_LEVEL as int
    } else {
        next
    }
}

/// Steps a volume level up or down by one.
pub fn step_level(level: i16, up: bool) -> (r: u8)
    ensures
        r == stepped_level(level, up),
{
    if up {
        if level >= MAX_LEVEL as i16 {
            MAX_LEVEL
        } else {
            clamp(level + 1, 0, MAX_LEVEL)
        }
    } else if level <= 0 {
        0
    } else {
        clamp(level - 1, 0, MAX_LEVEL)
    }
}

pub open spec fn spec_volume_of_level(level: u8) -> Fixed {
    Fixed { raw: (level * TENTH) as i64 }
}

/// The volume of a level: that many tenths.
#[verifier::when_used_as_spec(spec_volume_of_level)]
pub fn volume_of_level(level: u8) -> (r: Fixed)
    ensures
        r == spec_volume_of_level(level),
        r@ == level * TENTH,
{
    let wide: i64 = level as i64;
    Fixed { raw: wide * TENTH }
}

/// The level that is shown for a volume: its whole tenths, no less than 0
/// and no more than 255.
pub open spec fn level_shown(volume: Fixed) -> int {
    if volume@ < 0 {
        0
    } else if volume@ / (TENTH as int) > 255 {
        255
    } else {
        volume@ / (TENTH as int)
    }
}

/// The level to show for a volume.
pub fn level_of_volume(volume: Fixed) -> (r: u8)
    ensures
        r == level_shown(volume),
{
    if volume.raw < 0 {
        0
    } else {
        let tenths = volume.raw / TENTH;
        if tenths > 255 {
            255
        } else {
            tenths as u8
        }
    }
}

/// The settings after a volume button was pushed while its label showed
/// `level`.
pub open spec fn volume_updated(settings: Settings, button: VolumeButton, level: i16) -> Settings {
    let audio = settings.audio_settings;
    Settings {
        window_settings: settings.window_settings,
        audio_settings: match button {
            VolumeButton::MusicUp => crate::settings::AudioSettings {
                music_volume: volume_of_level(stepped_level(level, true) as u8),
                effects_volume: audio.effects_volume,
            },
            VolumeButton::MusicDown => crate::settings::AudioSettings {
                music_volume: volume_of_level(stepped_level(level, false) as u8),
                effects_volume: audio.effects_volume,
            },
            VolumeButton::EffectsUp => crate::settings::AudioSettings {
                music_volume: audio.music_volume,
                effects_volume: volume_of_level(stepped_level(level, true) as u8),
            },
            VolumeButton::EffectsDown => crate::settings::AudioSettings {
                music_volume: audio.music_volume,
                effects_volume: volume_of_level(stepped_level(level, false) as u8),
            },
        },
    }
}

/// Applies a push of a volume button: steps the level that the button's
/// label shows, stores the new volume, and returns the level for the label.
pub fn update_volume(settings: &mut Settings, button: VolumeButton, level: i16) -> (shown: u8)
    ensures
        *final(settings) == volume_updated(*old(settings), button, level),
        shown == stepped_level(
            level,
            button == VolumeButton::MusicUp || button == VolumeButton::EffectsUp,
        ),
{
    match button {
        VolumeButton::MusicUp => {
            let next = step_level(level, true);
            settings.audio_settings.music_volume = volume_of_level(next);
            next
        },
        VolumeButton::MusicDown => {
            let next = step_level(level, false);
            settings.audio_settings.music_volume = volume_of_level(next);
            next
        },
        VolumeButton::EffectsUp => {
            let next = step_level(level, true);
            settings.audio_settings.effects_volume = volume_of_level(next);
            next
        },
        VolumeButton::EffectsDown => {
            let next = step_level(level, false);
            settings.audio_settings.effects_volume = volume_of_level(next);
            next
        },
    }
}

/// A volume button never leaves its channel outside the range from silent
/// to full: whatever level the label showed, the stepped level is at most
/// ten and the stored volume lies between zero and one.
pub proof fn lemma_volume_stays_in_range(settings: Settings, button: VolumeButton, level: i16)
    ensures
        0 <= stepped_level(level, true) <= MAX_LEVEL,
        0 <= stepped_level(level, false) <= MAX_LEVEL,
        button == VolumeButton::MusicUp || button == VolumeButton::MusicDown ==> 0
            <= volume_updated(settings, button, level).audio_settings.music_volume@ <= SCALE,
        button == VolumeButton::EffectsUp || button == VolumeButton::EffectsDown ==> 0
            <= volume_updated(settings, button, level).audio_settings.effects_volume@ <= SCALE,
{
}

} // verus!
