//! Session recovery, stream negotiation, render-path routing, cooldowns.

use audio_virtualizer::backend::clamped_buffer;
use audio_virtualizer::backend::select_input_config;
use audio_virtualizer::backend::select_output_config;
use audio_virtualizer::backend::select_render_path;
use audio_virtualizer::backend::session_step;
use audio_virtualizer::backend::LiveSettings;
use audio_virtualizer::backend::reload_backend;
use audio_virtualizer::backend::set_equalizer_profile;
use audio_virtualizer::backend::set_source_mode;
use audio_virtualizer::backend::take_reload_request;
use audio_virtualizer::backend::RenderPath;
use audio_virtualizer::backend::SessionAction;
use audio_virtualizer::backend::SessionEvent;
use audio_virtualizer::backend::SessionState;
use audio_virtualizer::backend::StreamConfigCandidate;
use audio_virtualizer::config::AudioSourceMode;
use audio_virtualizer::config::EqualizerProfile;
use audio_virtualizer::timing::RateLimiter;

#[test]
fn device_loss_and_reinsertion_recovers_within_one_cooldown() {
    // Streaming, then the device disappears.
    let (s, a) = session_step(SessionState::Streaming, SessionEvent::StreamError);
    assert_eq!(s, SessionState::NegotiatingDevices);
    assert_eq!(a, SessionAction::TearDownThenNegotiate);
    // Negotiation fails while the device is absent.
    let (s, _) = session_step(s, SessionEvent::NegotiationFailed);
    assert_eq!(s, SessionState::ErrorBackoff);
    // One cooldown later the device is back.
    let (s, a) = session_step(s, SessionEvent::CooldownElapsed);
    assert_eq!(s, SessionState::NegotiatingDevices);
    assert_eq!(a, SessionAction::Negotiate);
    let (s, _) = session_step(s, SessionEvent::NegotiationSucceeded);
    assert_eq!(s, SessionState::Streaming);
}

#[test]
fn startup_and_reload_transitions() {
    let (s, a) = session_step(SessionState::Idle, SessionEvent::ReloadRequested);
    assert_eq!(s, SessionState::NegotiatingDevices);
    assert_eq!(a, SessionAction::Negotiate);
    let (s2, a2) = session_step(SessionState::Streaming, SessionEvent::ReloadRequested);
    assert_eq!(s2, SessionState::NegotiatingDevices);
    assert_eq!(a2, SessionAction::TearDownThenNegotiate);
    let (s3, a3) = session_step(SessionState::Streaming, SessionEvent::BufferSizeMismatch);
    assert_eq!(s3, SessionState::NegotiatingDevices);
    assert_eq!(a3, SessionAction::TearDownThenNegotiate);
    // Unrelated events leave a state alone.
    let (s4, a4) = session_step(SessionState::Idle, SessionEvent::StreamError);
    assert_eq!(s4, SessionState::Idle);
    assert_eq!(a4, SessionAction::Stay);
}

fn cand(
    channels: u16,
    min_rate: u32,
    max_rate: u32,
    range: Option<(usize, usize)>,
) -> StreamConfigCandidate {
    StreamConfigCandidate {
        channels,
        min_sample_rate: min_rate,
        max_sample_rate: max_rate,
        has_buffer_range: range.is_some(),
        min_buffer: range.map_or(0, |r| r.0),
        max_buffer: range.map_or(0, |r| r.1),
    }
}

#[test]
fn input_negotiation_minimizes_channel_then_buffer_distance() {
    let candidates = vec![
        cand(2, 44100, 48000, Some((256, 4096))),
        cand(8, 44100, 96000, Some((64, 512))),
        cand(8, 44100, 96000, Some((64, 4096))),
        cand(16, 8000, 192000, None),
    ];
    // Both eight-channel candidates tie on channel distance; the second wins
    // on buffer distance (2048 reachable vs capped at 512).
    let i = select_input_config(&candidates, 8, 2048, 48000).unwrap();
    assert_eq!(i, 2);
    assert_eq!(clamped_buffer(&candidates[i], 2048), 2048);
}

#[test]
fn input_negotiation_ties_go_to_the_first() {
    let candidates = vec![
        cand(4, 44100, 48000, None),
        cand(4, 44100, 48000, None),
    ];
    assert_eq!(select_input_config(&candidates, 8, 2048, 48000), Some(0));
}

#[test]
fn negotiation_fails_without_a_rate_match() {
    let candidates = vec![
        cand(8, 8000, 44100, None),
        cand(2, 88200, 192000, None),
    ];
    assert_eq!(select_input_config(&candidates, 8, 2048, 48000), None);
    assert_eq!(select_output_config(&candidates, 2, 2048, 48000), None);
}

#[test]
fn output_negotiation_needs_enough_channels() {
    let candidates = vec![
        cand(1, 44100, 48000, None),
        cand(2, 44100, 48000, Some((64, 256))),
        cand(2, 44100, 48000, Some((64, 1024))),
    ];
    let i = select_output_config(&candidates, 2, 2048, 48000).unwrap();
    assert_eq!(i, 2);
    assert_eq!(clamped_buffer(&candidates[i], 2048), 1024);
}

#[test]
fn buffer_clamping() {
    let c = cand(8, 44100, 48000, Some((256, 1024)));
    assert_eq!(clamped_buffer(&c, 2048), 1024);
    assert_eq!(clamped_buffer(&c, 100), 256);
    assert_eq!(clamped_buffer(&c, 512), 512);
    let unconstrained = cand(8, 44100, 48000, None);
    assert_eq!(clamped_buffer(&unconstrained, 2048), 2048);
}

#[test]
fn render_path_routing() {
    assert_eq!(select_render_path(AudioSourceMode::Universal, 8), RenderPath::Surround8);
    assert_eq!(select_render_path(AudioSourceMode::Universal, 16), RenderPath::Surround8);
    assert_eq!(select_render_path(AudioSourceMode::Universal, 2), RenderPath::Stereo2);
    assert_eq!(select_render_path(AudioSourceMode::Universal, 1), RenderPath::Mono1);
    assert_eq!(select_render_path(AudioSourceMode::Stereo, 8), RenderPath::Stereo2);
    assert_eq!(select_render_path(AudioSourceMode::Stereo, 1), RenderPath::Mono1);
    assert_eq!(select_render_path(AudioSourceMode::Mono, 8), RenderPath::Mono1);
}

#[test]
fn live_settings_travel_as_integers() {
    let mut settings = LiveSettings::new();
    assert!(!settings.reload_needed);
    set_equalizer_profile(&mut settings, EqualizerProfile::K702);
    set_source_mode(&mut settings, AudioSourceMode::Mono);
    assert_eq!(settings.eq_profile, 3);
    assert_eq!(settings.source_mode, 2);
    assert_eq!(EqualizerProfile::from_u32(settings.eq_profile), EqualizerProfile::K702);
    assert_eq!(AudioSourceMode::from_u32(settings.source_mode), AudioSourceMode::Mono);

    reload_backend(&mut settings);
    assert!(settings.reload_needed);
    assert!(take_reload_request(&mut settings));
    assert!(!take_reload_request(&mut settings));
}

#[test]
fn cooldown_gate_fires_once_per_window() {
    let mut gate = RateLimiter::new(1000);
    assert!(!gate.should_fire(500));
    assert!(gate.should_fire(1000));
    assert!(!gate.should_fire(1500));
    assert!(gate.should_fire(2100));
    // A clock that appears to run backwards never fires early.
    assert!(!gate.should_fire(100));
}
