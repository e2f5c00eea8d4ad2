//! Audio output settings: the speaker and virtual microphone selection,
//! their volumes, and the last-used devices kept for quick re-enabling.
//! Persisting the settings file is left to the embedding.

use vstd::prelude::*;

use crate::localhost::clone_opt;

verus! {

/// Audio output settings.
#[derive(Debug, PartialEq)]
pub struct AudioSettings {
    /// Speaker device identifier; `None` selects the default device.
    pub speaker_device: Option<String>,
    pub speaker_enabled: bool,
    /// Speaker volume, `0` through `100`.
    pub speaker_volume: u8,
    /// Last speaker device, kept as a fallback.
    pub last_speaker_device: Option<String>,
    /// Virtual microphone device; `None` means disabled.
    pub virtual_mic_device: Option<String>,
    /// Virtual microphone volume, `0` through `100`.
    pub virtual_mic_volume: u8,
    /// Last virtual microphone device, kept for quick re-enabling.
    pub last_virtual_mic_device: Option<String>,
}

impl Clone for AudioSettings {
    fn clone(&self) -> (r: Self)
        ensures
            r == *self,
    {
        AudioSettings {
            speaker_device: clone_opt(&self.speaker_device),
            speaker_enabled: self.speaker_enabled,
            speaker_volume: self.speaker_volume,
            last_speaker_device: clone_opt(&self.last_speaker_device),
            virtual_mic_device: clone_opt(&self.virtual_mic_device),
            virtual_mic_volume: self.virtual_mic_volume,
            last_virtual_mic_device: clone_opt(&self.last_virtual_mic_device),
        }
    }
}

impl Default for AudioSettings {
    /// The default settings: no devices selected, speaker enabled, both
    /// volumes at the maximum.
    fn default() -> (r: Self)
        ensures
            r.speaker_device is None,
            r.speaker_enabled,
            r.speaker_volume == 100,
            r.last_speaker_device is None,
            r.virtual_mic_device is None,
            r.virtual_mic_volume == 100,
            r.last_virtual_mic_device is None,
    {
        AudioSettings {
            speaker_device: None,
            speaker_enabled: true,
            speaker_volume: 100,
            last_speaker_device: None,
            virtual_mic_device: None,
            virtual_mic_volume: 100,
            last_virtual_mic_device: None,
        }
    }
}

/// Holds the current audio settings and applies updates to them. Every
/// update succeeds here; writing the settings to disk afterwards is the
/// embedding's concern.
#[derive(Debug, PartialEq)]
pub struct AudioSettingsManager {
    settings: AudioSettings,
}

impl AudioSettingsManager {
    /// The current settings.
    pub closed spec fn spec_settings(&self) -> AudioSettings {
        self.settings
    }

    /// Create a manager over already-loaded settings.
    pub fn new(settings: AudioSettings) -> (r: Self)
        ensures
            r.spec_settings() == settings,
    {
        AudioSettingsManager { settings }
    }

    /// Get the current settings.
    pub fn get(&self) -> (r: &AudioSettings)
        ensures
            *r == self.spec_settings(),
    {
        &self.settings
    }

    /// Apply an arbitrary update to the settings.
    pub fn update<F: FnOnce(AudioSettings) -> AudioSettings>(&mut self, f: F) -> (r: Result<
        (),
        String,
    >)
        requires
            f.requires((old(self).spec_settings(),)),
        ensures
            r is Ok,
            f.ensures((old(self).spec_settings(),), final(self).spec_settings()),
    {
        let mut taken = AudioSettings::default();
        core::mem::swap(&mut taken, &mut self.settings);
        self.settings = f(taken);
        Ok(())
    }

    /// Select the speaker device; a selected device is also remembered as
    /// the last one used.
    pub fn set_speaker_device(&mut self, device: Option<String>) -> (r: Result<(), String>)
        ensures
            r is Ok,
            final(self).spec_settings() == (AudioSettings {
                speaker_device: device,
                last_speaker_device: if device is Some {
                    device
                } else {
                    old(self).spec_settings().last_speaker_device
                },
                ..old(self).spec_settings()
            }),
    {
        if device.is_some() {
            self.settings.last_speaker_device = clone_opt(&device);
        }
        self.settings.speaker_device = device;
        Ok(())
    }

    /// Enable or disable the speaker output.
    pub fn set_speaker_enabled(&mut self, enabled: bool) -> (r: Result<(), String>)
        ensures
            r is Ok,
            final(self).spec_settings() == (AudioSettings {
                speaker_enabled: enabled,
                ..old(self).spec_settings()
            }),
    {
        self.settings.speaker_enabled = enabled;
        Ok(())
    }

    /// Set the speaker volume, saturating at 100.
    pub fn set_speaker_volume(&mut self, volume: u8) -> (r: Result<(), String>)
        ensures
            r is Ok,
            final(self).spec_settings() == (AudioSettings {
                speaker_volume: if volume < 100 {
                    volume
                } else {
                    100
                },
                ..old(self).spec_settings()
            }),
    {
        self.settings.speaker_volume = if volume < 100 {
            volume
        } else {
            100
        };
        Ok(())
    }

    /// Select the virtual microphone device; a selected device is also
    /// remembered as the last one used.
    pub fn set_virtual_mic_device(&mut self, device: Option<String>) -> (r: Result<(), String>)
        ensures
            r is Ok,
            final(self).spec_settings() == (AudioSettings {
                virtual_mic_device: device,
                last_virtual_mic_device: if device is Some {
                    device
                } else {
                    old(self).spec_settings().last_virtual_mic_device
                },
                ..old(self).spec_settings()
            }),
    {
        if device.is_some() {
            self.settings.last_virtual_mic_device = clone_opt(&device);
        }
        self.settings.virtual_mic_device = device;
        Ok(())
    }

    /// Re-enable the virtual microphone on the last device used; an error
    /// exactly when no last device is known.
    pub fn enable_virtual_mic(&mut self) -> (r: Result<(), String>)
        ensures
            old(self).spec_settings().last_virtual_mic_device is None ==> (r matches Err(m) && m@
                == "No previous virtual mic device"@ && final(self).spec_settings() == old(self).spec_settings()),
            old(self).spec_settings().last_virtual_mic_device is Some ==> (r is Ok
                && final(self).spec_settings() == (AudioSettings {
                virtual_mic_device: old(self).spec_settings().last_virtual_mic_device,
                ..old(self).spec_settings()
            })),
    {
        let last_device = clone_opt(&self.settings.last_virtual_mic_device);
        if last_device.is_none() {
            return Err(String::from_str("No previous virtual mic device"));
        }
        self.set_virtual_mic_device(last_device)
    }

    /// Disable the virtual microphone.
    pub fn disable_virtual_mic(&mut self) -> (r: Result<(), String>)
        ensures
            r is Ok,
            final(self).spec_settings() == (AudioSettings {
                virtual_mic_device: None,
                ..old(self).spec_settings()
            }),
    {
        self.set_virtual_mic_device(None)
    }

    /// Set the virtual microphone volume, saturating at 100.
    pub fn set_virtual_mic_volume(&mut self, volume: u8) -> (r: Result<(), String>)
        ensures
            r is Ok,
            final(self).spec_settings() == (AudioSettings {
                virtual_mic_volume: if volume < 100 {
                    volume
                } else {
                    100
                },
                ..old(self).spec_settings()
            }),
    {
        self.settings.virtual_mic_volume = if volume < 100 {
            volume
        } else {
            100
        };
        Ok(())
    }
}

} // verus!
