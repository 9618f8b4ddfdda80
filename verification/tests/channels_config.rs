//! Channel views over interleaved blocks, and the settings types.

use audio_virtualizer::audio_data::AudioData;
use audio_virtualizer::config::default_config;
use audio_virtualizer::config::get_snapshot;
use audio_virtualizer::config::update;
use audio_virtualizer::config::AppConfig;
use audio_virtualizer::config::AudioSourceMode;
use audio_virtualizer::config::ConfigStore;
use audio_virtualizer::config::EqualizerProfile;

#[test]
fn strided_channel_selection() {
    // Two frames of four channels.
    let data = AudioData::new(vec![0u32, 1, 2, 3, 10, 11, 12, 13], 4);
    assert_eq!(data.num_channels(), 4);
    assert_eq!(data.num_frames(), 2);
    assert_eq!(data.select_channel(0), vec![0, 10]);
    assert_eq!(data.select_channel(2), vec![2, 12]);
    assert_eq!(data.select_channel(3), vec![3, 13]);
}

#[test]
fn channel_write_touches_only_its_channel() {
    let mut data = AudioData::new(vec![0u32; 8], 2);
    data.copy_channel_from_slice(1, &vec![7, 8, 9, 10]);
    assert_eq!(data.select_channel(0), vec![0, 0, 0, 0]);
    assert_eq!(data.select_channel(1), vec![7, 8, 9, 10]);
    let mut out = vec![0u32; 4];
    data.copy_channel_to_slice(1, &mut out);
    assert_eq!(out, vec![7, 8, 9, 10]);
}

#[test]
fn profile_labels() {
    assert_eq!(EqualizerProfile::Flat.label(), "None");
    assert_eq!(EqualizerProfile::EarPods.label(), "EarPods");
    assert_eq!(EqualizerProfile::AirPods4.label(), "AirPods 4");
    assert_eq!(EqualizerProfile::K702.label(), "K702");
    assert_eq!(EqualizerProfile::DT770Pro.label(), "DT 770 Pro");
    assert_eq!(AudioSourceMode::Universal.label(), "Universal");
    assert_eq!(AudioSourceMode::Stereo.label(), "Stereo");
    assert_eq!(AudioSourceMode::Mono.label(), "Mono");
}

#[test]
fn enum_transport_round_trips_and_falls_back() {
    let profiles = [
        EqualizerProfile::Flat,
        EqualizerProfile::EarPods,
        EqualizerProfile::AirPods4,
        EqualizerProfile::K702,
        EqualizerProfile::DT770Pro,
    ];
    for p in profiles {
        assert_eq!(EqualizerProfile::from_u32(p.to_u32()), p);
    }
    assert_eq!(EqualizerProfile::from_u32(99), EqualizerProfile::Flat);

    let modes = [AudioSourceMode::Universal, AudioSourceMode::Stereo, AudioSourceMode::Mono];
    for m in modes {
        assert_eq!(AudioSourceMode::from_u32(m.to_u32()), m);
    }
    assert_eq!(AudioSourceMode::from_u32(77), AudioSourceMode::Universal);
}

#[test]
fn store_snapshot_and_update() {
    let mut store = ConfigStore::new();
    let first = get_snapshot(&store);
    assert_eq!(first.equalizer_profile, EqualizerProfile::Flat);
    assert_eq!(first.audio_source_mode, AudioSourceMode::Universal);
    assert!(first.input_device_name.is_none());
    assert!(first.output_device_name.is_none());

    update(
        &mut store,
        AppConfig {
            equalizer_profile: EqualizerProfile::EarPods,
            input_device_name: Some("Loopback".to_string()),
            output_device_name: None,
            audio_source_mode: AudioSourceMode::Stereo,
        },
    );
    let snap = get_snapshot(&store);
    assert_eq!(snap.equalizer_profile, EqualizerProfile::EarPods);
    assert_eq!(snap.input_device_name.as_deref(), Some("Loopback"));
    assert!(snap.output_device_name.is_none());
    assert_eq!(snap.audio_source_mode, AudioSourceMode::Stereo);

    let defaults = default_config();
    assert_eq!(defaults.equalizer_profile, EqualizerProfile::Flat);
}
