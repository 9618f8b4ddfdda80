//! User-facing settings: the equalizer profile, the source mode, the chosen
//! device names, and the in-process store they live in.
//!
//! The two enums also cross thread boundaries as small integers inside
//! atomics, so each carries an exact encode/decode pair with a documented
//! fallback variant for out-of-range values. Reading and writing the on-disk
//! form of `AppConfig` is the configuration store collaborator's job; this
//! module only owns the value-level state.

use vstd::prelude::*;

verus! {

/// Which equalization correction to apply; `Flat` applies none and is the
/// decode fallback.
#[derive(Clone, Copy, PartialEq, Eq, Structural, Debug)]
pub enum EqualizerProfile {
    Flat,
    EarPods,
    AirPods4,
    K702,
    DT770Pro,
}

impl EqualizerProfile {
    pub open spec fn spec_encode(self) -> u32 {
        match self {
            EqualizerProfile::Flat => 0,
            EqualizerProfile::EarPods => 1,
            EqualizerProfile::AirPods4 => 2,
            EqualizerProfile::K702 => 3,
            EqualizerProfile::DT770Pro => 4,
        }
    }

    pub open spec fn spec_decode(value: u32) -> EqualizerProfile {
        match value {
            0u32 => EqualizerProfile::Flat,
            1u32 => EqualizerProfile::EarPods,
            2u32 => EqualizerProfile::AirPods4,
            3u32 => EqualizerProfile::K702,
            4u32 => EqualizerProfile::DT770Pro,
            _ => EqualizerProfile::Flat,
        }
    }

    /// The integer the profile travels as through an atomic.
    pub fn to_u32(self) -> (r: u32)
        ensures
            r == self.spec_encode(),
    {
        match self {
            EqualizerProfile::Flat => 0,
            EqualizerProfile::EarPods => 1,
            EqualizerProfile::AirPods4 => 2,
            EqualizerProfile::K702 => 3,
            EqualizerProfile::DT770Pro => 4,
        }
    }

    /// The profile an atomic's integer stands for; anything out of range
    /// falls back to `Flat`.
    pub fn from_u32(value: u32) -> (r: EqualizerProfile)
        ensures
            r == EqualizerProfile::spec_decode(value),
            r.spec_encode() <= 4,
    {
        if value == 1 {
            EqualizerProfile::EarPods
        } else if value == 2 {
            EqualizerProfile::AirPods4
        } else if value == 3 {
            EqualizerProfile::K702
        } else if value == 4 {
            EqualizerProfile::DT770Pro
        } else {
            EqualizerProfile::Flat
        }
    }

    pub open spec fn spec_label(self) -> Seq<char> {
        match self {
            EqualizerProfile::Flat => "None"@,
            EqualizerProfile::EarPods => "EarPods"@,
            EqualizerProfile::AirPods4 => "AirPods 4"@,
            EqualizerProfile::K702 => "K702"@,
            EqualizerProfile::DT770Pro => "DT 770 Pro"@,
        }
    }

    /// The menu label of the profile.
    pub fn label(&self) -> (r: &'static str)
        ensures
            r@ == self.spec_label(),
    {
        match self {
            EqualizerProfile::Flat => "None",
            EqualizerProfile::EarPods => "EarPods",
            EqualizerProfile::AirPods4 => "AirPods 4",
            EqualizerProfile::K702 => "K702",
            EqualizerProfile::DT770Pro => "DT 770 Pro",
        }
    }
}

/// How the source signal is to be interpreted; `Universal` lets the channel
/// count decide and is the decode fallback.
#[derive(Clone, Copy, PartialEq, Eq, Structural, Debug)]
pub enum AudioSourceMode {
    Universal,
    Stereo,
    Mono,
}

impl AudioSourceMode {
    pub open spec fn spec_encode(self) -> u32 {
        match self {
            AudioSourceMode::Universal => 0,
            AudioSourceMode::Stereo => 1,
            AudioSourceMode::Mono => 2,
        }
    }

    pub open spec fn spec_decode(value: u32) -> AudioSourceMode {
        match value {
            0u32 => AudioSourceMode::Universal,
            1u32 => AudioSourceMode::Stereo,
            2u32 => AudioSourceMode::Mono,
            _ => AudioSourceMode::Universal,
        }
    }

    /// The integer the mode travels as through an atomic.
    pub fn to_u32(self) -> (r: u32)
        ensures
            r == self.spec_encode(),
    {
        match self {
            AudioSourceMode::Universal => 0,
            AudioSourceMode::Stereo => 1,
            AudioSourceMode::Mono => 2,
        }
    }

    /// The mode an atomic's integer stands for; anything out of range falls
    /// back to `Universal`.
    pub fn from_u32(value: u32) -> (r: AudioSourceMode)
        ensures
            r == AudioSourceMode::spec_decode(value),
    {
        if value == 1 {
            AudioSourceMode::Stereo
        } else if value == 2 {
            AudioSourceMode::Mono
        } else {
            AudioSourceMode::Universal
        }
    }

    pub open spec fn spec_label(self) -> Seq<char> {
        match self {
            AudioSourceMode::Universal => "Universal"@,
            AudioSourceMode::Stereo => "Stereo"@,
            AudioSourceMode::Mono => "Mono"@,
        }
    }

    /// The menu label of the mode.
    pub fn label(&self) -> (r: &'static str)
        ensures
            r@ == self.spec_label(),
    {
        match self {
            AudioSourceMode::Universal => "Universal",
            AudioSourceMode::Stereo => "Stereo",
            AudioSourceMode::Mono => "Mono",
        }
    }
}

/// The persisted settings record.
#[derive(Debug)]
pub struct AppConfig {
    pub equalizer_profile: EqualizerProfile,
    pub input_device_name: Option<String>,
    pub output_device_name: Option<String>,
    pub audio_source_mode: AudioSourceMode,
}

/// The in-process home of the current configuration.
pub struct ConfigStore {
    pub config: AppConfig,
}

/// The defaults used before any configuration is loaded, and after a load
/// failure: no equalization, channel count decides the layout, no pinned
/// device names.
pub fn default_config() -> (r: AppConfig)
    ensures
        r.equalizer_profile == EqualizerProfile::Flat,
        r.audio_source_mode == AudioSourceMode::Universal,
        r.input_device_name is None,
        r.output_device_name is None,
{
    AppConfig {
        equalizer_profile: EqualizerProfile::Flat,
        input_device_name: Option::None,
        output_device_name: Option::None,
        audio_source_mode: AudioSourceMode::Universal,
    }
}

impl ConfigStore {
    pub fn new() -> (r: Self)
        ensures
            r.config.equalizer_profile == EqualizerProfile::Flat,
            r.config.audio_source_mode == AudioSourceMode::Universal,
            r.config.input_device_name is None,
            r.config.output_device_name is None,
    {
        ConfigStore { config: default_config() }
    }
}

/// An owned copy of an optional device name.
fn clone_device_name(name: &Option<String>) -> (r: Option<String>)
    ensures
        r == *name,
{
    match name {
        Option::None => Option::None,
        Option::Some(s) => Option::Some(s.clone()),
    }
}

/// A copy of the current configuration, for a reader that must not hold the
/// store.
pub fn get_snapshot(store: &ConfigStore) -> (r: AppConfig)
    ensures
        r == store.config,
{
    AppConfig {
        equalizer_profile: store.config.equalizer_profile,
        input_device_name: clone_device_name(&store.config.input_device_name),
        output_device_name: clone_device_name(&store.config.output_device_name),
        audio_source_mode: store.config.audio_source_mode,
    }
}

/// Replaces the current configuration; persisting the new value is the
/// caller's follow-up.
pub fn update(store: &mut ConfigStore, new_config: AppConfig)
    ensures
        final(store).config == new_config,
{
    store.config = new_config;
}

} // verus!
