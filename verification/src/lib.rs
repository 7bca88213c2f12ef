//! The verified core of a gateway between Signal calls and SIP: raw PCM queues in place of a
//! sound device, and the decisions behind a C interface for call control.

pub mod c_string;
pub mod call_manager;
pub mod callbacks;
pub mod device_state;
pub mod pacing;
pub mod raw_pcm_audio_device_module;
pub mod sample_queue;
pub mod worker;
