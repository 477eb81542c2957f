//! Persisted user settings and their effect on the window.

use vstd::prelude::*;
use crate::rational::{rat_le, rat_one, rat_zero, Q, Rat};

verus! {

/// The display language.
#[derive(Debug, PartialEq, Eq, Structural, Clone, Copy)]
pub enum Language {
    English,
}

/// How the window waits for the display's vertical sync.
#[derive(Debug, PartialEq, Eq, Structural, Clone, Copy)]
pub enum PresentMode {
    AutoVsync,
    AutoNoVsync,
}

/// The user settings: vsync, audio levels in `[0, 1]`, and language.
#[derive(Debug, Clone, Copy)]
pub struct Settings {
    pub vsync_enabled: bool,
    pub music_level: Q,
    pub sound_level: Q,
    pub language: Language,
}

impl Settings {
    /// Audio levels are fractions in `[0, 1]`.
    pub open spec fn wf(&self) -> bool {
        &&& self.music_level.wf()
        &&& self.sound_level.wf()
        &&& rat_le(rat_zero(), self.music_level@)
        &&& rat_le(self.music_level@, rat_one())
        &&& rat_le(rat_zero(), self.sound_level@)
        &&& rat_le(self.sound_level@, rat_one())
    }
}

impl Default for Settings {
    /// Stock settings: vsync on, both audio levels at full, English.
    fn default() -> (r: Self)
        ensures
            r.wf(),
            r.vsync_enabled,
            r.music_level@ == rat_one(),
            r.sound_level@ == rat_one(),
            r.language == Language::English,
    {
        Settings {
            vsync_enabled: true,
            music_level: Q::one(),
            sound_level: Q::one(),
            language: Language::English,
        }
    }
}

/// The present mode the window must use for the given settings.
pub open spec fn spec_present_mode(vsync_enabled: bool) -> PresentMode {
    if vsync_enabled {
        PresentMode::AutoVsync
    } else {
        PresentMode::AutoNoVsync
    }
}

/// React to a settings change: choose the window's present mode from the
/// vsync flag. Applying it to the window is the windowing collaborator's
/// job.
pub fn update_settings(settings: &Settings) -> (mode: PresentMode)
    ensures
        mode == spec_present_mode(settings.vsync_enabled),
{
    if settings.vsync_enabled {
        PresentMode::AutoVsync
    } else {
        PresentMode::AutoNoVsync
    }
}

/// The plugin that installs the settings: builds the stock settings value.
pub struct SettingsPlugin;

impl SettingsPlugin {
    pub fn build(&self) -> (r: Settings)
        ensures
            r.wf(),
            r.vsync_enabled,
            r.music_level@ == rat_one(),
            r.sound_level@ == rat_one(),
            r.language == Language::English,
    {
        Settings::default()
    }
}

} // verus!
