//! Real-time binaural audio virtualization engine.
//!
//! The crate renders multichannel surround audio to head-tracked binaural
//! stereo: partitioned FFT convolution against measured head-related impulse
//! responses, live angular interpolation steered by head orientation, an
//! equalization stage, pool-backed sample swapchains between hardware
//! callbacks, and the device-session recovery state machine.
//!
//! Sample arithmetic is generic over the scalar type and runs through the
//! numeric crates (`realfft`, `num-complex`, `num-traits`); everything the
//! engine decides about structure — block layout, history rings, channel
//! routing, steering, buffering, session state — is stated in contracts.

pub mod audio_data;
pub mod audio_swapchain;
pub mod backend;
pub mod block_convolver;
pub mod config;
pub mod pitch_filter;
pub mod sample_ops;
pub mod surround_virtualizer;
pub mod timing;
