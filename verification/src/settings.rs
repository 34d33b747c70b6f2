//! The settings that outlive a session: the window's size and the two
//! volumes.

use vstd::prelude::*;
use crate::fixed::Fixed;
use crate::window::WindowSettings;

verus! {

/// Volumes of music and sound effects, each between zero and one.
#[derive(Clone, Copy, Debug, PartialEq, Eq, Structural)]
pub struct AudioSettings {
    pub music_volume: Fixed,
    pub effects_volume: Fixed,
}

impl Default for AudioSettings {
    /// Both volumes at one tenth.
    fn default() -> (r: AudioSettings)
        ensures
            r == (AudioSettings {
                music_volume: Fixed { raw: 100_000 },
                effects_volume: Fixed { raw: 100_000 },
            }),
    {
        AudioSettings {
            music_volume: Fixed { raw: 100_000 },
            effects_volume: Fixed { raw: 100_000 },
        }
    }
}

/// Everything that is kept between sessions.
#[derive(Clone, Copy, Debug, PartialEq, Eq, Structural)]
pub struct Settings {
    pub window_settings: WindowSettings,
    pub audio_settings: AudioSettings,
}

impl Default for Settings {
    /// A window of 1024 by 726 units and both volumes at one tenth.
    fn default() -> (r: Settings)
        ensures
            r == (Settings {
                window_settings: WindowSettings {
                    width: Fixed { raw: 1_024_000_000 },
                    height: Fixed { raw: 726_000_000 },
                },
                audio_settings: AudioSettings {
                    music_volume: Fixed { raw: 100_000 },
                    effects_volume: Fixed { raw: 100_000 },
                },
            }),
    {
        Settings {
            window_settings: WindowSettings::default(),
            audio_settings: AudioSettings::default(),
        }
    }
}

impl Settings {
    /// The settings that were read, or the defaults where nothing could be
    /// read.
    pub fn read_or_default(read: Option<Settings>) -> (r: Settings)
        ensures
            r == match read {
                Some(settings) => settings,
                None => Settings {
                    window_settings: WindowSettings {
                        width: Fixed { raw: 1_024_000_000 },
                        height: Fixed { raw: 726_000_000 },
                    },
                    audio_settings: AudioSettings {
                        music_volume: Fixed { raw: 100_000 },
                        effects_volume: Fixed { raw: 100_000 },
                    },
                },
            },
    {
        match read {
            Some(settings) => settings,
            None => Settings::default(),
        }
    }

    /// Takes over the window's dimensions and tells whether they differ from
    /// the ones known so far. Equal dimensions change nothing.
    pub fn update_window(&mut self, dimensions: &WindowSettings) -> (changed: bool)
        ensures
            changed == (*dimensions != old(self).window_settings),
            final(self).window_settings == *dimensions,
            final(self).audio_settings == old(self).audio_settings,
    {
        if self.window_settings.height.raw != dimensions.height.raw {
            self.window_settings.height = dimensions.height;
            self.window_settings.width = dimensions.width;
            true
        } else if self.window_settings.width.raw != dimensions.width.raw {
            self.window_settings.height = dimensions.height;
            self.window_settings.width = dimensions.width;
            true
        } else {
            false
        }
    }
}

} // verus!
