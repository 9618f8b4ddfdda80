//! Session supervision: live settings, device/stream negotiation, and the
//! reload/recovery state machine.
//!
//! The engine's hardware callbacks are registered by a thin runtime layer;
//! everything that layer must decide — which stream configuration to pick,
//! which render path a block takes, when to retry after an error, how the
//! live settings travel as integers — is decided by the functions here, over
//! plain values, so the runtime only performs what was decided.

use crate::config::AudioSourceMode;
use crate::config::EqualizerProfile;
use vstd::prelude::*;

verus! {

/// The render block size: 2048 frames per processed block.
pub const CH_BUF_SIZE: usize = 2048;

/// Eight source channels make a full surround layout.
pub const NUM_SURROUND_CHANNELS: usize = 8;

/// The stereo output side.
pub const NUM_OUT_CHANNELS: usize = 2;

/// The fixed engine sample rate all impulse responses were measured at.
pub const HRIR_SAMPLE_RATE: u32 = 48000;

/// The cooldown between negotiation attempts after a failure, about one
/// second.
pub const RETRY_COOLDOWN_MS: u64 = 1000;

/// The device names used when the configuration pins none.
pub const DEFAULT_INPUT_DEVICE_NAME: &'static str = "BlackHole 16ch";

pub const DEFAULT_OUTPUT_DEVICE_NAME: &'static str = "External Headphones";

/// The settings the render path reads while another thread mutates them.
///
/// In the process they live as single-word atomics with no cross-field
/// ordering; this type is the value each atomic holds, and the functions on
/// it say exactly how every mutation reads back.
pub struct LiveSettings {
    pub reload_needed: bool,
    pub eq_profile: u32,
    pub source_mode: u32,
}

impl LiveSettings {
    pub fn new() -> (r: Self)
        ensures
            !r.reload_needed,
            r.eq_profile == EqualizerProfile::Flat.spec_encode(),
            r.source_mode == AudioSourceMode::Universal.spec_encode(),
    {
        LiveSettings { reload_needed: false, eq_profile: 0, source_mode: 0 }
    }
}

/// Asks the supervisor to tear the session down and negotiate anew.
pub fn reload_backend(settings: &mut LiveSettings)
    ensures
        final(settings).reload_needed,
        final(settings).eq_profile == old(settings).eq_profile,
        final(settings).source_mode == old(settings).source_mode,
{
    settings.reload_needed = true;
}

/// Consumes a pending reload request, reporting whether one was pending.
pub fn take_reload_request(settings: &mut LiveSettings) -> (was_pending: bool)
    ensures
        was_pending == old(settings).reload_needed,
        !final(settings).reload_needed,
        final(settings).eq_profile == old(settings).eq_profile,
        final(settings).source_mode == old(settings).source_mode,
{
    let was_pending = settings.reload_needed;
    settings.reload_needed = false;
    was_pending
}

/// Publishes a new equalizer profile for the next rendered block.
pub fn set_equalizer_profile(settings: &mut LiveSettings, profile: EqualizerProfile)
    ensures
        final(settings).eq_profile == profile.spec_encode(),
        final(settings).reload_needed == old(settings).reload_needed,
        final(settings).source_mode == old(settings).source_mode,
{
    settings.eq_profile = profile.to_u32();
}

/// Publishes a new source mode for the next rendered block.
pub fn set_source_mode(settings: &mut LiveSettings, source_mode: AudioSourceMode)
    ensures
        final(settings).source_mode == source_mode.spec_encode(),
        final(settings).reload_needed == old(settings).reload_needed,
        final(settings).eq_profile == old(settings).eq_profile,
{
    settings.source_mode = source_mode.to_u32();
}

/// One supported stream configuration of a device, as plain values.
#[derive(Clone, Copy, PartialEq, Eq, Structural, Debug)]
pub struct StreamConfigCandidate {
    pub channels: u16,
    pub min_sample_rate: u32,
    pub max_sample_rate: u32,
    /// Whether the candidate constrains the buffer size to a range; without
    /// one the target block size is taken as is.
    pub has_buffer_range: bool,
    pub min_buffer: usize,
    pub max_buffer: usize,
}

/// Whether a candidate can run at the fixed engine sample rate.
pub open spec fn spec_rate_ok(c: StreamConfigCandidate, rate: u32) -> bool {
    c.min_sample_rate <= rate && rate <= c.max_sample_rate
}

/// The block size actually used with a candidate: the target, pulled into
/// the candidate's buffer range when it has one. A lower bound wins over an
/// upper bound, so even a malformed range cannot fault.
pub open spec fn spec_clamped_buffer(c: StreamConfigCandidate, target: usize) -> usize {
    if !c.has_buffer_range {
        target
    } else if target < c.min_buffer {
        c.min_buffer
    } else if target > c.max_buffer {
        c.max_buffer
    } else {
        target
    }
}

pub fn clamped_buffer(c: &StreamConfigCandidate, target: usize) -> (r: usize)
    ensures
        r == spec_clamped_buffer(*c, target),
{
    if !c.has_buffer_range {
        target
    } else if target < c.min_buffer {
        c.min_buffer
    } else if target > c.max_buffer {
        c.max_buffer
    } else {
        target
    }
}

/// How far a candidate's channel count sits from the wanted one.
pub open spec fn spec_channel_distance(c: StreamConfigCandidate, target_channels: u16) -> int {
    if c.channels >= target_channels {
        c.channels - target_channels
    } else {
        target_channels - c.channels
    }
}

/// How far a candidate's clamped block size sits from the wanted one.
pub open spec fn spec_buffer_distance(c: StreamConfigCandidate, target_buffer: usize) -> int {
    let b = spec_clamped_buffer(c, target_buffer);
    if b >= target_buffer {
        b - target_buffer
    } else {
        target_buffer - b
    }
}

/// Lexicographic order on (channel distance, buffer distance).
pub open spec fn spec_key_le(
    c1: StreamConfigCandidate,
    c2: StreamConfigCandidate,
    target_channels: u16,
    target_buffer: usize,
) -> bool {
    spec_channel_distance(c1, target_channels) < spec_channel_distance(c2, target_channels) || (
    spec_channel_distance(c1, target_channels) == spec_channel_distance(c2, target_channels)
        && spec_buffer_distance(c1, target_buffer) <= spec_buffer_distance(c2, target_buffer))
}

/// Picks the input configuration: among the candidates that support the
/// engine sample rate, the first one minimizing (channel-count distance,
/// block-size distance) lexicographically; nothing when none supports the
/// rate.
pub fn select_input_config(
    candidates: &Vec<StreamConfigCandidate>,
    target_channels: u16,
    target_buffer: usize,
    rate: u32,
) -> (r: Option<usize>)
    ensures
        r is Some <==> exists|j: int|
            0 <= j < candidates@.len() && spec_rate_ok(#[trigger] candidates@[j], rate),
        r matches Some(i) ==> (i < candidates@.len() && spec_rate_ok(candidates@[i as int], rate)
            && (forall|j: int|
            0 <= j < candidates@.len() && spec_rate_ok(#[trigger] candidates@[j], rate)
                ==> spec_key_le(
                candidates@[i as int],
                candidates@[j],
                target_channels,
                target_buffer,
            )) && (forall|j: int|
            0 <= j < i && spec_rate_ok(#[trigger] candidates@[j], rate) ==> !spec_key_le(
                candidates@[j],
                candidates@[i as int],
                target_channels,
                target_buffer,
            ))),
{
    let n = candidates.len();
    let mut best: Option<usize> = Option::None;
    let mut j: usize = 0;
    while j < n
        invariant
            n == candidates@.len(),
            j <= n,
            best is Some <==> exists|k: int|
                0 <= k < j && spec_rate_ok(#[trigger] candidates@[k], rate),
            best matches Some(i) ==> (i < j && spec_rate_ok(candidates@[i as int], rate) && (
            forall|k: int|
                0 <= k < j && spec_rate_ok(#[trigger] candidates@[k], rate) ==> spec_key_le(
                    candidates@[i as int],
                    candidates@[k],
                    target_channels,
                    target_buffer,
                )) && (forall|k: int|
                0 <= k < i && spec_rate_ok(#[trigger] candidates@[k], rate) ==> !spec_key_le(
                    candidates@[k],
                    candidates@[i as int],
                    target_channels,
                    target_buffer,
                ))),
        decreases n - j,
    {
        let c = &candidates[j];
        if c.min_sample_rate <= rate && rate <= c.max_sample_rate {
            match best {
                Option::None => {
                    best = Option::Some(j);
                },
                Option::Some(i) => {
                    if strictly_better(&candidates[j], &candidates[i], target_channels,
                        target_buffer) {
                        best = Option::Some(j);
                    }
                },
            }
        }
        j += 1;
    }
    best
}

/// Whether `a` beats `b` strictly in the lexicographic order.
fn strictly_better(
    a: &StreamConfigCandidate,
    b: &StreamConfigCandidate,
    target_channels: u16,
    target_buffer: usize,
) -> (r: bool)
    ensures
        r == !spec_key_le(*b, *a, target_channels, target_buffer),
{
    let da = channel_distance(a, target_channels);
    let db = channel_distance(b, target_channels);
    if da < db {
        true
    } else if da > db {
        false
    } else {
        buffer_distance(a, target_buffer) < buffer_distance(b, target_buffer)
    }
}

fn channel_distance(c: &StreamConfigCandidate, target_channels: u16) -> (r: u16)
    ensures
        r == spec_channel_distance(*c, target_channels),
{
    if c.channels >= target_channels {
        c.channels - target_channels
    } else {
        target_channels - c.channels
    }
}

fn buffer_distance(c: &StreamConfigCandidate, target_buffer: usize) -> (r: usize)
    ensures
        r == spec_buffer_distance(*c, target_buffer),
{
    let b = clamped_buffer(c, target_buffer);
    if b >= target_buffer {
        b - target_buffer
    } else {
        target_buffer - b
    }
}

/// Whether a candidate can carry the stereo output at the engine rate.
pub open spec fn spec_output_ok(c: StreamConfigCandidate, min_channels: u16, rate: u32) -> bool {
    c.channels >= min_channels && spec_rate_ok(c, rate)
}

/// Picks the output configuration: among the candidates with enough channels
/// at the engine sample rate, the first one minimizing the block-size
/// distance; nothing when none qualifies.
pub fn select_output_config(
    candidates: &Vec<StreamConfigCandidate>,
    min_channels: u16,
    target_buffer: usize,
    rate: u32,
) -> (r: Option<usize>)
    ensures
        r is Some <==> exists|j: int|
            0 <= j < candidates@.len() && spec_output_ok(#[trigger] candidates@[j], min_channels, rate),
        r matches Some(i) ==> (i < candidates@.len() && spec_output_ok(
            candidates@[i as int],
            min_channels,
            rate,
        ) && (forall|j: int|
            0 <= j < candidates@.len() && spec_output_ok(
                #[trigger] candidates@[j],
                min_channels,
                rate,
            ) ==> spec_buffer_distance(candidates@[i as int], target_buffer)
                <= spec_buffer_distance(candidates@[j], target_buffer)) && (forall|j: int|
            0 <= j < i && spec_output_ok(#[trigger] candidates@[j], min_channels, rate)
                ==> spec_buffer_distance(candidates@[j], target_buffer) > spec_buffer_distance(
                candidates@[i as int],
                target_buffer,
            ))),
{
    let n = candidates.len();
    let mut best: Option<usize> = Option::None;
    let mut j: usize = 0;
    while j < n
        invariant
            n == candidates@.len(),
            j <= n,
            best is Some <==> exists|k: int|
                0 <= k < j && spec_output_ok(#[trigger] candidates@[k], min_channels, rate),
            best matches Some(i) ==> (i < j && spec_output_ok(
                candidates@[i as int],
                min_channels,
                rate,
            ) && (forall|k: int|
                0 <= k < j && spec_output_ok(#[trigger] candidates@[k], min_channels, rate)
                    ==> spec_buffer_distance(candidates@[i as int], target_buffer)
                    <= spec_buffer_distance(candidates@[k], target_buffer)) && (forall|k: int|
                0 <= k < i && spec_output_ok(#[trigger] candidates@[k], min_channels, rate)
                    ==> spec_buffer_distance(candidates@[k], target_buffer) > spec_buffer_distance(
                    candidates@[i as int],
                    target_buffer,
                ))),
        decreases n - j,
    {
        let c = &candidates[j];
        if c.channels >= min_channels && c.min_sample_rate <= rate && rate <= c.max_sample_rate {
            match best {
                Option::None => {
                    best = Option::Some(j);
                },
                Option::Some(i) => {
                    if buffer_distance(&candidates[j], target_buffer) < buffer_distance(
                        &candidates[i],
                        target_buffer,
                    ) {
                        best = Option::Some(j);
                    }
                },
            }
        }
        j += 1;
    }
    best
}

/// Which render path a block takes, given the live mode and how many
/// channels the input stream carries.
#[derive(Clone, Copy, PartialEq, Eq, Structural, Debug)]
pub enum RenderPath {
    Surround8,
    Stereo2,
    Mono1,
}

pub open spec fn spec_render_path(mode: AudioSourceMode, in_channels: usize) -> RenderPath {
    match mode {
        AudioSourceMode::Universal => if in_channels >= 8 {
            RenderPath::Surround8
        } else if in_channels >= 2 {
            RenderPath::Stereo2
        } else {
            RenderPath::Mono1
        },
        AudioSourceMode::Stereo => if in_channels >= 2 {
            RenderPath::Stereo2
        } else {
            RenderPath::Mono1
        },
        AudioSourceMode::Mono => RenderPath::Mono1,
    }
}

/// The per-block routing decision: universal mode follows the channel count,
/// stereo and mono modes force their layout (stereo still needs two
/// channels).
pub fn select_render_path(mode: AudioSourceMode, in_channels: usize) -> (r: RenderPath)
    ensures
        r == spec_render_path(mode, in_channels),
{
    match mode {
        AudioSourceMode::Universal => {
            if in_channels >= NUM_SURROUND_CHANNELS {
                RenderPath::Surround8
            } else if in_channels >= NUM_OUT_CHANNELS {
                RenderPath::Stereo2
            } else {
                RenderPath::Mono1
            }
        },
        AudioSourceMode::Stereo => {
            if in_channels >= NUM_OUT_CHANNELS {
                RenderPath::Stereo2
            } else {
                RenderPath::Mono1
            }
        },
        AudioSourceMode::Mono => RenderPath::Mono1,
    }
}

/// Where the session controller stands.
#[derive(Clone, Copy, PartialEq, Eq, Structural, Debug)]
pub enum SessionState {
    Idle,
    NegotiatingDevices,
    Streaming,
    ErrorBackoff,
}

/// What the controller learns between steps.
#[derive(Clone, Copy, PartialEq, Eq, Structural, Debug)]
pub enum SessionEvent {
    /// Startup, a settings change, or any external reload request.
    ReloadRequested,
    /// Both hardware streams were built and started.
    NegotiationSucceeded,
    /// A device was missing or no acceptable configuration was found.
    NegotiationFailed,
    /// A runtime stream error callback fired.
    StreamError,
    /// A hardware callback saw a block of the wrong size.
    BufferSizeMismatch,
    /// The retry cooldown after a failure has passed.
    CooldownElapsed,
}

/// What the runtime layer must do after a step.
#[derive(Clone, Copy, PartialEq, Eq, Structural, Debug)]
pub enum SessionAction {
    /// Nothing; wait for the next event.
    Stay,
    /// Resolve devices and build both streams.
    Negotiate,
    /// Stop callbacks and drop the session first, then negotiate.
    TearDownThenNegotiate,
}

/// The recovery state machine. No state is terminal: every failure path
/// leads back to negotiation after a cooldown, and a running session is torn
/// down in full before a new one is built.
pub open spec fn spec_session_step(s: SessionState, e: SessionEvent) -> (SessionState,
    SessionAction) {
    match (s, e) {
        (SessionState::Idle, SessionEvent::ReloadRequested) => (
            SessionState::NegotiatingDevices,
            SessionAction::Negotiate,
        ),
        (SessionState::NegotiatingDevices, SessionEvent::NegotiationSucceeded) => (
            SessionState::Streaming,
            SessionAction::Stay,
        ),
        (SessionState::NegotiatingDevices, SessionEvent::NegotiationFailed) => (
            SessionState::ErrorBackoff,
            SessionAction::Stay,
        ),
        (SessionState::ErrorBackoff, SessionEvent::CooldownElapsed) => (
            SessionState::NegotiatingDevices,
            SessionAction::Negotiate,
        ),
        (SessionState::Streaming, SessionEvent::StreamError) => (
            SessionState::NegotiatingDevices,
            SessionAction::TearDownThenNegotiate,
        ),
        (SessionState::Streaming, SessionEvent::BufferSizeMismatch) => (
            SessionState::NegotiatingDevices,
            SessionAction::TearDownThenNegotiate,
        ),
        (SessionState::Streaming, SessionEvent::ReloadRequested) => (
            SessionState::NegotiatingDevices,
            SessionAction::TearDownThenNegotiate,
        ),
        _ => (s, SessionAction::Stay),
    }
}

/// One step of the session controller.
pub fn session_step(s: SessionState, e: SessionEvent) -> (r: (SessionState, SessionAction))
    ensures
        r == spec_session_step(s, e),
{
    match (s, e) {
        (SessionState::Idle, SessionEvent::ReloadRequested) => (
            SessionState::NegotiatingDevices,
            SessionAction::Negotiate,
        ),
        (SessionState::NegotiatingDevices, SessionEvent::NegotiationSucceeded) => (
            SessionState::Streaming,
            SessionAction::Stay,
        ),
        (SessionState::NegotiatingDevices, SessionEvent::NegotiationFailed) => (
            SessionState::ErrorBackoff,
            SessionAction::Stay,
        ),
        (SessionState::ErrorBackoff, SessionEvent::CooldownElapsed) => (
            SessionState::NegotiatingDevices,
            SessionAction::Negotiate,
        ),
        (SessionState::Streaming, SessionEvent::StreamError) => (
            SessionState::NegotiatingDevices,
            SessionAction::TearDownThenNegotiate,
        ),
        (SessionState::Streaming, SessionEvent::BufferSizeMismatch) => (
            SessionState::NegotiatingDevices,
            SessionAction::TearDownThenNegotiate,
        ),
        (SessionState::Streaming, SessionEvent::ReloadRequested) => (
            SessionState::NegotiatingDevices,
            SessionAction::TearDownThenNegotiate,
        ),
        (state, _) => (state, SessionAction::Stay),
    }
}

/// Law: a device removal during streaming, followed by its re-insertion, is
/// recovered within one backoff cooldown and no state is terminal along the
/// way. The stream error tears the session down; the failed negotiation
/// (device still absent) enters backoff; the elapsed cooldown retries; the
/// successful negotiation (device back) returns the controller to
/// `Streaming`.
pub proof fn lemma_recovery_after_device_loss()
    ensures
        spec_session_step(SessionState::Streaming, SessionEvent::StreamError) == (
            SessionState::NegotiatingDevices,
            SessionAction::TearDownThenNegotiate,
        ),
        spec_session_step(SessionState::NegotiatingDevices, SessionEvent::NegotiationFailed).0
            == SessionState::ErrorBackoff,
        spec_session_step(SessionState::ErrorBackoff, SessionEvent::CooldownElapsed) == (
            SessionState::NegotiatingDevices,
            SessionAction::Negotiate,
        ),
        spec_session_step(SessionState::NegotiatingDevices, SessionEvent::NegotiationSucceeded).0
            == SessionState::Streaming,
{
}

} // verus!
