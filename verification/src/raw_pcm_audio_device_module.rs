//! An audio device module without a sound device: PCM samples are pushed in, as if from a
//! microphone, and pulled out, as if to a speaker, by native code.
//!
//! The module is a state machine. Its owner runs one worker thread per direction and performs
//! what the module decides: when a worker is spawned or joined, what a worker hands to or asks
//! of WebRTC in each period, and what becomes of the reply.

use vstd::prelude::*;

use crate::device_state::{DeviceState, PlayDataReply};
use crate::sample_queue::{front, padded};
use crate::sample_queue::{SampleQueue, NUM_CHANNELS, SAMPLE_FREQUENCY, WEBRTC_WINDOW};

verus! {

/// Size of one sample in bytes.
pub const BYTES_PER_SAMPLE: usize = 2;

/// Writes `v` through `out` and returns 0; returns -1 if there is nowhere to write.
fn write_bool(out: Option<&mut bool>, v: bool) -> (status: i32)
    ensures
        match out {
            Some(p) => status == 0 && *final(p) == v,
            None => status == -1,
        },
{
    match out {
        Some(p) => {
            *p = v;
            0
        },
        None => -1,
    }
}

/// Writes `v` through `out` and returns 0; returns -1 if there is nowhere to write.
fn write_u16(out: Option<&mut u16>, v: u16) -> (status: i32)
    ensures
        match out {
            Some(p) => status == 0 && *final(p) == v,
            None => status == -1,
        },
{
    match out {
        Some(p) => {
            *p = v;
            0
        },
        None => -1,
    }
}

/// What a playout worker asks of WebRTC: to fill `data`, one window long.
#[derive(Debug)]
pub struct PlayDataRequest {
    pub data: Vec<i16>,
    pub bytes_per_sample: usize,
    pub n_channels: usize,
    pub samples_per_sec: u32,
}

impl PlayDataRequest {
    /// A silent buffer for one window of mono audio.
    pub open spec fn is_window(self) -> bool {
        &&& self.data@ == padded(Seq::empty(), WEBRTC_WINDOW as nat)
        &&& self.bytes_per_sample == BYTES_PER_SAMPLE
        &&& self.n_channels == NUM_CHANNELS
        &&& self.samples_per_sec == SAMPLE_FREQUENCY
    }
}

/// What a recording worker hands to WebRTC.
#[derive(Debug)]
pub struct RecordedData {
    pub samples: Vec<i16>,
    pub bytes_per_sample: usize,
    pub n_channels: usize,
    pub samples_per_sec: u32,
    pub total_delay_ms: u32,
    pub clock_drift: i32,
    pub current_mic_level: u32,
    pub key_pressed: bool,
    pub estimated_capture_time_ns: i64,
}

impl RecordedData {
    /// `samples` as mono audio with no delay, drift, level, key press or capture time known.
    pub open spec fn carries(self, samples: Seq<i16>) -> bool {
        &&& self.samples@ == samples
        &&& self.bytes_per_sample == BYTES_PER_SAMPLE
        &&& self.n_channels == NUM_CHANNELS
        &&& self.samples_per_sec == SAMPLE_FREQUENCY
        &&& self.total_delay_ms == 0
        &&& self.clock_drift == 0
        &&& self.current_mic_level == 0
        &&& !self.key_pressed
        &&& self.estimated_capture_time_ns == -1
    }
}

/// Status of a request to start a direction, and whether its worker is to be spawned.
#[derive(Debug, PartialEq, Eq, Structural)]
pub struct StartOutcome {
    pub status: i32,
    pub spawn: bool,
}

/// Status of a request to stop a direction, and whether its worker is to be joined.
#[derive(Debug, PartialEq, Eq, Structural)]
pub struct StopOutcome {
    pub status: i32,
    pub join: bool,
}

/// Status of a request to terminate, and which workers are to be joined.
#[derive(Debug, PartialEq, Eq, Structural)]
pub struct TerminateOutcome {
    pub status: i32,
    pub join_playout: bool,
    pub join_recording: bool,
}

/// A device module that is driven by native code instead of a sound device.
#[derive(Debug)]
pub struct RawPcmAudioDeviceModule {
    // "Microphone" side: samples pushed in here by native code are what gets encoded and sent
    // to the remote peer.
    mic_queue: SampleQueue,
    // "Speaker" side: decoded audio received from the remote peer lands here for native code
    // to pull out.
    speaker_queue: SampleQueue,
    playing: bool,
    recording: bool,
    playout_initialized: bool,
    recording_initialized: bool,
    playout_thread: bool,
    recording_thread: bool,
    stop_playout_flag: bool,
    stop_recording_flag: bool,
}

impl View for RawPcmAudioDeviceModule {
    type V = DeviceState;

    closed spec fn view(&self) -> DeviceState {
        DeviceState {
            mic: self.mic_queue@,
            speaker: self.speaker_queue@,
            playing: self.playing,
            recording: self.recording,
            playout_initialized: self.playout_initialized,
            recording_initialized: self.recording_initialized,
            playout_thread: self.playout_thread,
            recording_thread: self.recording_thread,
            stop_playout: self.stop_playout_flag,
            stop_recording: self.stop_recording_flag,
        }
    }
}

impl RawPcmAudioDeviceModule {
    /// The module is in a valid state.
    pub open spec fn wf(&self) -> bool {
        self@.wf()
    }

    /// A module with empty queues and both directions off.
    pub fn new() -> (adm: Self)
        ensures
            adm.wf(),
            adm@ == DeviceState::initial(),
    {
        RawPcmAudioDeviceModule {
            mic_queue: SampleQueue::new(),
            speaker_queue: SampleQueue::new(),
            playing: false,
            recording: false,
            playout_initialized: false,
            recording_initialized: false,
            playout_thread: false,
            recording_thread: false,
            stop_playout_flag: false,
            stop_recording_flag: false,
        }
    }

    /// Feeds PCM samples (mono, 48 kHz) to be encoded and sent to the remote peer: the
    /// "microphone" input.
    pub fn push_recorded_samples(&mut self, samples: &[i16])
        requires
            old(self).wf(),
        ensures
            final(self).wf(),
            final(self)@ == old(self)@.recorded(samples@),
    {
        self.mic_queue.push(samples);
    }

    /// Pulls up to `max_samples` of decoded PCM received from the remote peer (mono, 48 kHz):
    /// the "speaker" output. Returns fewer than requested, possibly none, if not enough is
    /// buffered yet.
    pub fn pull_playout_samples(&mut self, max_samples: usize) -> (samples: Vec<i16>)
        requires
            old(self).wf(),
        ensures
            final(self).wf(),
            samples@ == front(old(self)@.speaker, max_samples as nat),
            final(self)@ == old(self)@.pulled(max_samples as nat),
    {
        self.speaker_queue.pull(max_samples)
    }

    /// Turns playout on. If it was off, the owner spawns a playout worker.
    pub fn start_playout(&mut self) -> (outcome: StartOutcome)
        requires
            old(self).wf(),
        ensures
            final(self).wf(),
            final(self)@ == old(self)@.playout_started(),
            outcome.status == 0,
            outcome.spawn == !old(self)@.playing,
    {
        if self.playing {
            return StartOutcome { status: 0, spawn: false };
        }
        self.playing = true;
        self.stop_playout_flag = false;
        self.playout_thread = true;
        StartOutcome { status: 0, spawn: true }
    }

    /// Begins a period of the playout worker: what to ask of WebRTC, or `None` once the worker
    /// is to end.
    pub fn playout_request(&self) -> (request: Option<PlayDataRequest>)
        ensures
            match request {
                Some(r) => !self@.stop_playout && r.is_window(),
                None => self@.stop_playout,
            },
    {
        if self.stop_playout_flag {
            return None;
        }
        let data: Vec<i16> = vec![0; WEBRTC_WINDOW];
        assert(data@ =~= padded(Seq::empty(), WEBRTC_WINDOW as nat));
        Some(
            PlayDataRequest {
                data,
                bytes_per_sample: BYTES_PER_SAMPLE,
                n_channels: NUM_CHANNELS as usize,
                samples_per_sec: SAMPLE_FREQUENCY,
            },
        )
    }

    /// Takes WebRTC's answer to a request for play data: `ret` is 0 on success, and
    /// `samples_out` tells how much of `data` was filled.
    pub fn play_data_received(&mut self, ret: i32, samples_out: usize, data: Vec<i16>)
        requires
            old(self).wf(),
        ensures
            final(self).wf(),
            final(self)@ == old(self)@.played(
                (PlayDataReply { ret, samples_out: samples_out as nat, data: data@ }),
            ),
    {
        let ghost reply = PlayDataReply { ret, samples_out: samples_out as nat, data: data@ };
        if ret == 0 && samples_out > 0 {
            let mut data = data;
            data.truncate(samples_out);
            assert(data@ =~= reply.decoded());
            self.speaker_queue.push(data.as_slice());
        } else {
            assert(reply.decoded() =~= Seq::empty());
            assert(self@.speaker + reply.decoded() =~= self@.speaker);
        }
    }

    /// Turns playout off. If there is a playout worker, the owner joins it.
    pub fn stop_playout(&mut self) -> (outcome: StopOutcome)
        requires
            old(self).wf(),
        ensures
            final(self).wf(),
            final(self)@ == old(self)@.playout_stopped(),
            outcome.status == 0,
            outcome.join == old(self)@.playout_thread,
    {
        self.stop_playout_flag = true;
        let join = self.playout_thread;
        self.playout_thread = false;
        self.playing = false;
        StopOutcome { status: 0, join }
    }

    /// Turns recording on. If it was off, the owner spawns a recording worker.
    pub fn start_recording(&mut self) -> (outcome: StartOutcome)
        requires
            old(self).wf(),
        ensures
            final(self).wf(),
            final(self)@ == old(self)@.recording_started(),
            outcome.status == 0,
            outcome.spawn == !old(self)@.recording,
    {
        if self.recording {
            return StartOutcome { status: 0, spawn: false };
        }
        self.recording = true;
        self.stop_recording_flag = false;
        self.recording_thread = true;
        StartOutcome { status: 0, spawn: true }
    }

    /// Begins a period of the recording worker: takes the next window off the microphone
    /// queue, padded with silence on underrun, or returns `None` once the worker is to end.
    pub fn next_recorded_data(&mut self) -> (recorded: Option<RecordedData>)
        requires
            old(self).wf(),
        ensures
            final(self).wf(),
            match recorded {
                Some(r) => {
                    &&& !old(self)@.stop_recording
                    &&& r.carries(padded(old(self)@.mic, WEBRTC_WINDOW as nat))
                    &&& final(self)@ == old(self)@.window_taken()
                },
                None => old(self)@.stop_recording && *final(self) == *old(self),
            },
    {
        if self.stop_recording_flag {
            return None;
        }
        let samples = self.mic_queue.pull_window();
        Some(
            RecordedData {
                samples,
                bytes_per_sample: BYTES_PER_SAMPLE,
                n_channels: NUM_CHANNELS as usize,
                samples_per_sec: SAMPLE_FREQUENCY,
                total_delay_ms: 0,
                clock_drift: 0,
                current_mic_level: 0,
                key_pressed: false,
                estimated_capture_time_ns: -1,
            },
        )
    }

    /// Turns recording off. If there is a recording worker, the owner joins it.
    pub fn stop_recording(&mut self) -> (outcome: StopOutcome)
        requires
            old(self).wf(),
        ensures
            final(self).wf(),
            final(self)@ == old(self)@.recording_stopped(),
            outcome.status == 0,
            outcome.join == old(self)@.recording_thread,
    {
        self.stop_recording_flag = true;
        let join = self.recording_thread;
        self.recording_thread = false;
        self.recording = false;
        StopOutcome { status: 0, join }
    }

    /// Ends both workers. The owner joins the playout worker and then the recording worker,
    /// as far as there are any. Also what the owner does before it drops the module.
    pub fn terminate(&mut self) -> (outcome: TerminateOutcome)
        requires
            old(self).wf(),
        ensures
            final(self).wf(),
            final(self)@ == old(self)@.terminated(),
            outcome.status == 0,
            outcome.join_playout == old(self)@.playout_thread,
            outcome.join_recording == old(self)@.recording_thread,
    {
        self.stop_playout_flag = true;
        self.stop_recording_flag = true;
        let join_playout = self.playout_thread;
        self.playout_thread = false;
        let join_recording = self.recording_thread;
        self.recording_thread = false;
        TerminateOutcome { status: 0, join_playout, join_recording }
    }

    /// There is no audio layer to report.
    pub fn active_audio_layer(&self, _audio_layer_out: Option<&mut i32>) -> (status: i32)
        ensures
            status == -1,
            _audio_layer_out matches Some(p) ==> *final(p) == *p,
    {
        -1
    }

    /// Nothing needs initializing.
    pub fn init(&mut self) -> (status: i32)
        ensures
            status == 0,
            *final(self) == *old(self),
    {
        0
    }

    /// The module is always initialized.
    pub fn initialized(&self) -> (answer: bool)
        ensures
            answer,
    {
        true
    }

    /// There is one playout device.
    pub fn playout_devices(&mut self) -> (count: i16)
        ensures
            count == 1,
            *final(self) == *old(self),
    {
        1
    }

    /// There is one recording device.
    pub fn recording_devices(&mut self) -> (count: i16)
        ensures
            count == 1,
            *final(self) == *old(self),
    {
        1
    }

    /// Playout devices have no names.
    pub fn playout_device_name(
        &mut self,
        _index: u16,
        _name_out: Option<&mut u8>,
        _guid_out: Option<&mut u8>,
    ) -> (status: i32)
        ensures
            status == -1,
            *final(self) == *old(self),
            _name_out matches Some(p) ==> *final(p) == *p,
            _guid_out matches Some(p) ==> *final(p) == *p,
    {
        -1
    }

    /// Recording devices have no names.
    pub fn recording_device_name(
        &mut self,
        _index: u16,
        _name_out: Option<&mut u8>,
        _guid_out: Option<&mut u8>,
    ) -> (status: i32)
        ensures
            status == -1,
            *final(self) == *old(self),
            _name_out matches Some(p) ==> *final(p) == *p,
            _guid_out matches Some(p) ==> *final(p) == *p,
    {
        -1
    }

    /// Playout is available.
    pub fn playout_is_available(&self, available_out: Option<&mut bool>) -> (status: i32)
        ensures
            match available_out {
                Some(p) => status == 0 && *final(p),
                None => status == -1,
            },
    {
        write_bool(available_out, true)
    }

    /// Marks playout as initialized.
    pub fn init_playout(&mut self) -> (status: i32)
        ensures
            status == 0,
            final(self)@ == (DeviceState { playout_initialized: true, ..old(self)@ }),
    {
        self.playout_initialized = true;
        0
    }

    /// Whether playout was initialized.
    pub fn playout_is_initialized(&self) -> (answer: bool)
        ensures
            answer == self@.playout_initialized,
    {
        self.playout_initialized
    }

    /// Recording is available.
    pub fn recording_is_available(&self, available_out: Option<&mut bool>) -> (status: i32)
        ensures
            match available_out {
                Some(p) => status == 0 && *final(p),
                None => status == -1,
            },
    {
        write_bool(available_out, true)
    }

    /// Marks recording as initialized.
    pub fn init_recording(&mut self) -> (status: i32)
        ensures
            status == 0,
            final(self)@ == (DeviceState { recording_initialized: true, ..old(self)@ }),
    {
        self.recording_initialized = true;
        0
    }

    /// Whether recording was initialized.
    pub fn recording_is_initialized(&self) -> (answer: bool)
        ensures
            answer == self@.recording_initialized,
    {
        self.recording_initialized
    }

    /// Whether playout is on.
    pub fn playing(&self) -> (answer: bool)
        ensures
            answer == self@.playing,
    {
        self.playing
    }

    /// Whether recording is on.
    pub fn recording(&self) -> (answer: bool)
        ensures
            answer == self@.recording,
    {
        self.recording
    }

    /// The speaker needs no initializing.
    pub fn init_speaker(&mut self) -> (status: i32)
        ensures
            status == 0,
            *final(self) == *old(self),
    {
        0
    }

    /// The speaker is always initialized.
    pub fn speaker_is_initialized(&self) -> (answer: bool)
        ensures
            answer,
    {
        true
    }

    /// The microphone needs no initializing.
    pub fn init_microphone(&mut self) -> (status: i32)
        ensures
            status == 0,
            *final(self) == *old(self),
    {
        0
    }

    /// The microphone is always initialized.
    pub fn microphone_is_initialized(&self) -> (answer: bool)
        ensures
            answer,
    {
        true
    }

    /// The speaker has no volume.
    pub fn speaker_volume_is_available(&self, available_out: Option<&mut bool>) -> (status: i32)
        ensures
            match available_out {
                Some(p) => status == 0 && !*final(p),
                None => status == -1,
            },
    {
        write_bool(available_out, false)
    }

    /// The speaker has no volume to set.
    pub fn set_speaker_volume(&mut self, _volume: u32) -> (status: i32)
        ensures
            status == -1,
            *final(self) == *old(self),
    {
        -1
    }

    /// The speaker has no volume to report.
    pub fn speaker_volume(&self, _volume_out: Option<&mut u32>) -> (status: i32)
        ensures
            status == -1,
            _volume_out matches Some(p) ==> *final(p) == *p,
    {
        -1
    }

    /// The speaker has no greatest volume to report.
    pub fn max_speaker_volume(&self, _max_volume_out: Option<&mut u32>) -> (status: i32)
        ensures
            status == -1,
            _max_volume_out matches Some(p) ==> *final(p) == *p,
    {
        -1
    }

    /// The speaker has no least volume to report.
    pub fn min_speaker_volume(&self, _min_volume_out: Option<&mut u32>) -> (status: i32)
        ensures
            status == -1,
            _min_volume_out matches Some(p) ==> *final(p) == *p,
    {
        -1
    }

    /// The microphone has no volume.
    pub fn microphone_volume_is_available(&self, available_out: Option<&mut bool>) -> (status: i32)
        ensures
            match available_out {
                Some(p) => status == 0 && !*final(p),
                None => status == -1,
            },
    {
        write_bool(available_out, false)
    }

    /// The microphone has no volume to set.
    pub fn set_microphone_volume(&mut self, _volume: u32) -> (status: i32)
        ensures
            status == -1,
            *final(self) == *old(self),
    {
        -1
    }

    /// The microphone has no volume to report.
    pub fn microphone_volume(&self, _volume_out: Option<&mut u32>) -> (status: i32)
        ensures
            status == -1,
            _volume_out matches Some(p) ==> *final(p) == *p,
    {
        -1
    }

    /// The microphone has no greatest volume to report.
    pub fn max_microphone_volume(&self, _max_volume_out: Option<&mut u32>) -> (status: i32)
        ensures
            status == -1,
            _max_volume_out matches Some(p) ==> *final(p) == *p,
    {
        -1
    }

    /// The microphone has no least volume to report.
    pub fn min_microphone_volume(&self, _min_volume_out: Option<&mut u32>) -> (status: i32)
        ensures
            status == -1,
            _min_volume_out matches Some(p) ==> *final(p) == *p,
    {
        -1
    }

    /// The speaker cannot be muted.
    pub fn speaker_mute_is_available(&self, available_out: Option<&mut bool>) -> (status: i32)
        ensures
            match available_out {
                Some(p) => status == 0 && !*final(p),
                None => status == -1,
            },
    {
        write_bool(available_out, false)
    }

    /// The speaker has no mute to set.
    pub fn set_speaker_mute(&mut self, _enable: bool) -> (status: i32)
        ensures
            status == -1,
            *final(self) == *old(self),
    {
        -1
    }

    /// The speaker has no mute to report.
    pub fn speaker_mute(&self, _enabled_out: Option<&mut bool>) -> (status: i32)
        ensures
            status == -1,
            _enabled_out matches Some(p) ==> *final(p) == *p,
    {
        -1
    }

    /// The microphone cannot be muted.
    pub fn microphone_mute_is_available(&self, available_out: Option<&mut bool>) -> (status: i32)
        ensures
            match available_out {
                Some(p) => status == 0 && !*final(p),
                None => status == -1,
            },
    {
        write_bool(available_out, false)
    }

    /// The microphone has no mute to set.
    pub fn set_microphone_mute(&mut self, _enable: bool) -> (status: i32)
        ensures
            status == -1,
            *final(self) == *old(self),
    {
        -1
    }

    /// The microphone has no mute to report.
    pub fn microphone_mute(&self, _enabled_out: Option<&mut bool>) -> (status: i32)
        ensures
            status == -1,
            _enabled_out matches Some(p) ==> *final(p) == *p,
    {
        -1
    }

    /// Playout is mono only.
    pub fn stereo_playout_is_available(&self, available_out: Option<&mut bool>) -> (status: i32)
        ensures
            match available_out {
                Some(p) => status == 0 && !*final(p),
                None => status == -1,
            },
    {
        write_bool(available_out, false)
    }

    /// Playout cannot be switched to stereo, nor back.
    pub fn set_stereo_playout(&mut self, _enable: bool) -> (status: i32)
        ensures
            status == -1,
            *final(self) == *old(self),
    {
        -1
    }

    /// Playout is not stereo.
    pub fn stereo_playout(&self, enabled_out: Option<&mut bool>) -> (status: i32)
        ensures
            match enabled_out {
                Some(p) => status == 0 && !*final(p),
                None => status == -1,
            },
    {
        write_bool(enabled_out, false)
    }

    /// Recording is mono only.
    pub fn stereo_recording_is_available(&self, available_out: Option<&mut bool>) -> (status: i32)
        ensures
            match available_out {
                Some(p) => status == 0 && !*final(p),
                None => status == -1,
            },
    {
        write_bool(available_out, false)
    }

    /// Recording cannot be switched to stereo, nor back.
    pub fn set_stereo_recording(&mut self, _enable: bool) -> (status: i32)
        ensures
            status == -1,
            *final(self) == *old(self),
    {
        -1
    }

    /// Recording is not stereo.
    pub fn stereo_recording(&self, enabled_out: Option<&mut bool>) -> (status: i32)
        ensures
            match enabled_out {
                Some(p) => status == 0 && !*final(p),
                None => status == -1,
            },
    {
        write_bool(enabled_out, false)
    }

    /// Playout has no delay.
    pub fn playout_delay(&self, delay_ms_out: Option<&mut u16>) -> (status: i32)
        ensures
            match delay_ms_out {
                Some(p) => status == 0 && *final(p) == 0,
                None => status == -1,
            },
    {
        write_u16(delay_ms_out, 0)
    }
}

/// Why a call from the C side could not reach its module.
#[derive(Debug, Clone, Copy, PartialEq, Eq, Structural)]
pub enum InternalFailure {
    NullPtr,
    MutexPoison,
}

impl From<InternalFailure> for i32 {
    fn from(_failure: InternalFailure) -> (status: i32) {
        -1
    }
}

impl vstd::std_specs::convert::FromSpecImpl<InternalFailure> for i32 {
    open spec fn obeys_from_spec() -> bool {
        true
    }

    open spec fn from_spec(failure: InternalFailure) -> i32 {
        -1i32
    }
}

impl From<InternalFailure> for i16 {
    fn from(_failure: InternalFailure) -> (count: i16) {
        -1
    }
}

impl vstd::std_specs::convert::FromSpecImpl<InternalFailure> for i16 {
    open spec fn obeys_from_spec() -> bool {
        true
    }

    open spec fn from_spec(failure: InternalFailure) -> i16 {
        -1i16
    }
}

impl From<InternalFailure> for bool {
    fn from(_failure: InternalFailure) -> (answer: bool) {
        false
    }
}

impl vstd::std_specs::convert::FromSpecImpl<InternalFailure> for bool {
    open spec fn obeys_from_spec() -> bool {
        true
    }

    open spec fn from_spec(failure: InternalFailure) -> bool {
        false
    }
}

/// WebRTC's play data reaches the speaker queue as it is: of a successful reply the first
/// `samples_out` samples, or all where there are fewer, each with the value that it has in
/// `data`, behind what is queued already; of a failed reply nothing. The oldest samples beyond two
/// seconds are let go, and nothing else changes.
pub proof fn law_play_data_is_queued_as_received(
    adm: &mut RawPcmAudioDeviceModule,
    ret: i32,
    samples_out: usize,
    data: Vec<i16>,
)
    requires
        call_ensures(
            RawPcmAudioDeviceModule::play_data_received,
            (adm, ret, samples_out, data),
            (),
        ),
    ensures
        ({
            let before = old(adm)@.speaker;
            let after = final(adm)@.speaker;
            let added = if ret != 0 {
                0
            } else if samples_out < data@.len() {
                samples_out as int
            } else {
                data@.len() as int
            };
            let dropped = if before.len() + added > 96_000 {
                before.len() + added - 96_000
            } else {
                0
            };
            &&& after.len() == before.len() + added - dropped
            &&& forall|i: int|
                dropped <= i < before.len() ==> after[i - dropped] == #[trigger] before[i]
            &&& forall|i: int|
                0 <= i < added && dropped <= before.len() + i ==> after[before.len() + i - dropped]
                    == #[trigger] data@[i]
            &&& final(adm)@ == (DeviceState { speaker: after, ..old(adm)@ })
        }),
{
}

/// A pull hands out the oldest samples of the speaker queue as they are, as many as are asked for
/// or are there, and changes nothing else.
pub proof fn law_playout_samples_are_pulled_in_order(
    adm: &mut RawPcmAudioDeviceModule,
    max_samples: usize,
    samples: Vec<i16>,
)
    requires
        call_ensures(RawPcmAudioDeviceModule::pull_playout_samples, (adm, max_samples), samples),
    ensures
        ({
            let before = old(adm)@.speaker;
            let after = final(adm)@.speaker;
            &&& samples@.len() == if max_samples < before.len() {
                max_samples as nat
            } else {
                before.len()
            }
            &&& after.len() == before.len() - samples@.len()
            &&& forall|i: int| 0 <= i < samples@.len() ==> #[trigger] samples@[i] == before[i]
            &&& forall|i: int|
                0 <= i < after.len() ==> #[trigger] after[i] == before[samples@.len() + i]
            &&& final(adm)@ == (DeviceState { speaker: after, ..old(adm)@ })
        }),
{
}

/// A push puts every sample, whatever its value, behind those that wait in the microphone queue,
/// lets go of the oldest beyond two seconds, and changes nothing else.
pub proof fn law_recorded_samples_are_queued_as_pushed(
    adm: &mut RawPcmAudioDeviceModule,
    samples: &[i16],
)
    requires
        call_ensures(RawPcmAudioDeviceModule::push_recorded_samples, (adm, samples), ()),
    ensures
        ({
            let before = old(adm)@.mic;
            let after = final(adm)@.mic;
            let total = before.len() + samples@.len();
            let dropped = if total > 96_000 {
                total - 96_000
            } else {
                0
            };
            &&& after.len() == total - dropped
            &&& forall|i: int|
                dropped <= i < before.len() ==> after[i - dropped] == #[trigger] before[i]
            &&& forall|i: int|
                0 <= i < samples@.len() && dropped <= before.len() + i ==> after[before.len() + i
                    - dropped] == #[trigger] samples@[i]
            &&& final(adm)@ == (DeviceState { mic: after, ..old(adm)@ })
        }),
{
}

/// What WebRTC is handed is the oldest 480 samples of the microphone queue as they are, with zeros
/// from where the queue has run dry: mono, two bytes each, at 48 kHz, with nothing said of delay,
/// drift, level, keys or time of capture. The samples leave the queue and nothing else changes.
/// There is no window just where the worker is to end.
pub proof fn law_recorded_data_holds_the_oldest_samples(
    adm: &mut RawPcmAudioDeviceModule,
    recorded: Option<RecordedData>,
)
    requires
        call_ensures(RawPcmAudioDeviceModule::next_recorded_data, (adm,), recorded),
    ensures
        recorded is None <==> old(adm)@.stop_recording,
        recorded is None ==> *final(adm) == *old(adm),
        recorded matches Some(r) ==> {
            let before = old(adm)@.mic;
            let after = final(adm)@.mic;
            &&& r.samples@.len() == 480
            &&& forall|i: int|
                0 <= i < 480 ==> #[trigger] r.samples@[i] == if i < before.len() {
                    before[i]
                } else {
                    0
                }
            &&& r.bytes_per_sample == 2
            &&& r.n_channels == 1
            &&& r.samples_per_sec == 48_000
            &&& r.total_delay_ms == 0
            &&& r.clock_drift == 0
            &&& r.current_mic_level == 0
            &&& !r.key_pressed
            &&& r.estimated_capture_time_ns == -1
            &&& after.len() == if before.len() > 480 {
                before.len() - 480
            } else {
                0
            }
            &&& forall|i: int| 0 <= i < after.len() ==> #[trigger] after[i] == before[480 + i]
            &&& final(adm)@ == (DeviceState { mic: after, ..old(adm)@ })
        },
{
}

/// WebRTC is asked for 480 samples of mono audio, two bytes each, at 48 kHz, in a silent buffer,
/// unless the worker is to end.
pub proof fn law_play_data_is_asked_for_in_windows(
    adm: &RawPcmAudioDeviceModule,
    request: Option<PlayDataRequest>,
)
    requires
        call_ensures(RawPcmAudioDeviceModule::playout_request, (adm,), request),
    ensures
        request is None <==> adm@.stop_playout,
        request matches Some(r) ==> {
            &&& r.data@.len() == 480
            &&& forall|i: int| 0 <= i < 480 ==> #[trigger] r.data@[i] == 0
            &&& r.bytes_per_sample == 2
            &&& r.n_channels == 1
            &&& r.samples_per_sec == 48_000
        },
{
}

/// The audio of a call can be pulled out of it: what WebRTC gives a new module in any number of
/// replies comes out of one pull unchanged and in order, as long as it lasts no more than two
/// seconds.
pub proof fn law_received_audio_can_be_pulled(
    new: RawPcmAudioDeviceModule,
    periods: Seq<&mut RawPcmAudioDeviceModule>,
    buffers: Seq<Vec<i16>>,
    last: &mut RawPcmAudioDeviceModule,
    samples: Vec<i16>,
)
    requires
        call_ensures(RawPcmAudioDeviceModule::new, (), new),
        0 < periods.len() <= 200,
        buffers.len() == periods.len(),
        *periods[0] == new,
        forall|k: int| 0 < k < periods.len() ==> *(#[trigger] periods[k]) == *final(periods[k - 1]),
        forall|k: int|
            0 <= k < periods.len() ==> (#[trigger] buffers[k])@.len() == 480 && call_ensures(
                RawPcmAudioDeviceModule::play_data_received,
                (periods[k], 0i32, 480usize, buffers[k]),
                (),
            ),
        *old(last) == *final(periods[periods.len() - 1]),
        call_ensures(RawPcmAudioDeviceModule::pull_playout_samples, (last, usize::MAX), samples),
    ensures
        samples@.len() == periods.len() * 480,
        forall|k: int, i: int|
            0 <= k < periods.len() && 0 <= i < 480 ==> samples@[k * 480 + i] == #[trigger] (
            buffers[k]@[i]),
{
    lemma_speaker_holds_replies(new, periods, buffers, periods.len() as int - 1);
}

/// After the period `n` the speaker queue of a new module holds the replies so far.
proof fn lemma_speaker_holds_replies(
    new: RawPcmAudioDeviceModule,
    periods: Seq<&mut RawPcmAudioDeviceModule>,
    buffers: Seq<Vec<i16>>,
    n: int,
)
    requires
        call_ensures(RawPcmAudioDeviceModule::new, (), new),
        0 <= n < periods.len() <= 200,
        buffers.len() == periods.len(),
        *periods[0] == new,
        forall|k: int| 0 < k < periods.len() ==> *(#[trigger] periods[k]) == *final(periods[k - 1]),
        forall|k: int|
            0 <= k < periods.len() ==> (#[trigger] buffers[k])@.len() == 480 && call_ensures(
                RawPcmAudioDeviceModule::play_data_received,
                (periods[k], 0i32, 480usize, buffers[k]),
                (),
            ),
    ensures
        final(periods[n])@.speaker.len() == (n + 1) * 480,
        forall|k: int, i: int|
            0 <= k <= n && 0 <= i < 480 ==> final(periods[n])@.speaker[k * 480 + i]
                == #[trigger] (buffers[k]@[i]),
    decreases n,
{
    assert(buffers[n]@.len() == 480);
    if n > 0 {
        lemma_speaker_holds_replies(new, periods, buffers, n - 1);
        assert(*periods[n] == *final(periods[n - 1]));
    }
}

/// PCM can be pushed into a call: what native code pushes into a new module is, joined over the
/// periods, what WebRTC is handed, sample for sample and followed by silence, as long as it lasts
/// no more than two seconds.
pub proof fn law_pushed_audio_is_handed_on(
    new: RawPcmAudioDeviceModule,
    first: &mut RawPcmAudioDeviceModule,
    samples: &[i16],
    periods: Seq<&mut RawPcmAudioDeviceModule>,
    windows: Seq<RecordedData>,
)
    requires
        call_ensures(RawPcmAudioDeviceModule::new, (), new),
        *old(first) == new,
        call_ensures(RawPcmAudioDeviceModule::push_recorded_samples, (first, samples), ()),
        samples@.len() <= 96_000,
        0 < periods.len(),
        windows.len() == periods.len(),
        *periods[0] == *final(first),
        forall|k: int| 0 < k < periods.len() ==> *(#[trigger] periods[k]) == *final(periods[k - 1]),
        forall|k: int|
            0 <= k < periods.len() ==> call_ensures(
                RawPcmAudioDeviceModule::next_recorded_data,
                (periods[k],),
                Some(#[trigger] windows[k]),
            ),
    ensures
        forall|k: int| 0 <= k < windows.len() ==> (#[trigger] windows[k]).samples@.len() == 480,
        forall|k: int, i: int|
            0 <= k < windows.len() && 0 <= i < 480 ==> #[trigger] windows[k].samples@[i] == if k
                * 480 + i < samples@.len() {
                samples@[k * 480 + i]
            } else {
                0
            },
{
    assert forall|k: int| 0 <= k < windows.len() implies (
    #[trigger] windows[k]).samples@.len() == 480 by {
        lemma_mic_holds_what_is_left(samples@, periods, windows, k);
    }
    assert forall|k: int, i: int| 0 <= k < windows.len() && 0 <= i < 480 implies (
    #[trigger] windows[k].samples@[i]) == if k * 480 + i < samples@.len() {
        samples@[k * 480 + i]
    } else {
        0
    } by {
        lemma_mic_holds_what_is_left(samples@, periods, windows, k);
    }
}

/// Before the period `n` the microphone queue holds what the earlier periods have left of
/// `queued`.
proof fn lemma_mic_holds_what_is_left(
    queued: Seq<i16>,
    periods: Seq<&mut RawPcmAudioDeviceModule>,
    windows: Seq<RecordedData>,
    n: int,
)
    requires
        0 <= n < periods.len(),
        windows.len() == periods.len(),
        (*periods[0])@.mic == queued,
        forall|k: int| 0 < k < periods.len() ==> *(#[trigger] periods[k]) == *final(periods[k - 1]),
        forall|k: int|
            0 <= k < periods.len() ==> call_ensures(
                RawPcmAudioDeviceModule::next_recorded_data,
                (periods[k],),
                Some(#[trigger] windows[k]),
            ),
    ensures
        (*periods[n])@.mic.len() == if n * 480 < queued.len() {
            queued.len() - n * 480
        } else {
            0
        },
        forall|i: int|
            0 <= i < (*periods[n])@.mic.len() ==> #[trigger] (*periods[n])@.mic[i] == queued[n * 480
                + i],
        windows[n].samples@.len() == 480,
        forall|i: int|
            0 <= i < 480 ==> #[trigger] windows[n].samples@[i] == if n * 480 + i < queued.len() {
                queued[n * 480 + i]
            } else {
                0
            },
    decreases n,
{
    if n > 0 {
        lemma_mic_holds_what_is_left(queued, periods, windows, n - 1);
        assert(*periods[n] == *final(periods[n - 1]));
        assert(windows[n - 1].samples@.len() == 480);
    }
    assert(windows[n].samples@.len() == 480);
}

/// A new module is silent, off and not initialized, and neither of its workers is told to end.
pub proof fn law_new_module(new: RawPcmAudioDeviceModule)
    requires
        call_ensures(RawPcmAudioDeviceModule::new, (), new),
    ensures
        new@.mic.len() == 0,
        new@.speaker.len() == 0,
        !new@.playing && !new@.recording,
        !new@.playout_initialized && !new@.recording_initialized,
        !new@.playout_thread && !new@.recording_thread,
        !new@.stop_playout && !new@.stop_recording,
{
}

/// A start of playout is a success and leaves it on. It spawns a worker just where playout was
/// off, and that worker is not told to end; where playout was on nothing changes. Queues,
/// initialization and the other direction are left alone.
pub proof fn law_start_playout(
    adm: &mut RawPcmAudioDeviceModule,
    outcome: StartOutcome,
    before: &RawPcmAudioDeviceModule,
    was_on: bool,
    after: &RawPcmAudioDeviceModule,
    is_on: bool,
)
    requires
        call_ensures(RawPcmAudioDeviceModule::start_playout, (adm,), outcome),
        *before == *old(adm),
        call_ensures(RawPcmAudioDeviceModule::playing, (before,), was_on),
        *after == *final(adm),
        call_ensures(RawPcmAudioDeviceModule::playing, (after,), is_on),
    ensures
        outcome.status == 0,
        is_on,
        outcome.spawn <==> !was_on,
        was_on ==> after@ == before@,
        !was_on ==> !after@.stop_playout && after@.playout_thread,
        after@ == (DeviceState {
            playing: after@.playing,
            stop_playout: after@.stop_playout,
            playout_thread: after@.playout_thread,
            ..before@
        }),
{
}

/// A stop of playout is a success and leaves it off, with its worker told to end, and joined
/// if there is one. Queues, initialization and the other direction are left alone.
pub proof fn law_stop_playout(
    adm: &mut RawPcmAudioDeviceModule,
    outcome: StopOutcome,
    after: &RawPcmAudioDeviceModule,
    is_on: bool,
)
    requires
        call_ensures(RawPcmAudioDeviceModule::stop_playout, (adm,), outcome),
        *after == *final(adm),
        call_ensures(RawPcmAudioDeviceModule::playing, (after,), is_on),
    ensures
        outcome.status == 0,
        !is_on,
        outcome.join <==> old(adm)@.playout_thread,
        after@.stop_playout,
        !after@.playout_thread,
        after@ == (DeviceState {
            playing: after@.playing,
            stop_playout: after@.stop_playout,
            playout_thread: after@.playout_thread,
            ..old(adm)@
        }),
{
}

/// A worker that a start spawned is joined by the next stop, and by no stop after that.
pub proof fn law_playout_worker_is_joined_once(
    first: &mut RawPcmAudioDeviceModule,
    started: StartOutcome,
    second: &mut RawPcmAudioDeviceModule,
    stopped: StopOutcome,
    third: &mut RawPcmAudioDeviceModule,
    stopped_again: StopOutcome,
)
    requires
        call_ensures(RawPcmAudioDeviceModule::start_playout, (first,), started),
        *old(second) == *final(first),
        call_ensures(RawPcmAudioDeviceModule::stop_playout, (second,), stopped),
        *old(third) == *final(second),
        call_ensures(RawPcmAudioDeviceModule::stop_playout, (third,), stopped_again),
    ensures
        started.spawn ==> stopped.join,
        !stopped_again.join,
{
}

/// Initializing playout is a success that can be seen afterwards, and does nothing else.
pub proof fn law_init_playout(
    adm: &mut RawPcmAudioDeviceModule,
    status: i32,
    after: &RawPcmAudioDeviceModule,
    initialized: bool,
)
    requires
        call_ensures(RawPcmAudioDeviceModule::init_playout, (adm,), status),
        *after == *final(adm),
        call_ensures(RawPcmAudioDeviceModule::playout_is_initialized, (after,), initialized),
    ensures
        status == 0,
        initialized,
        after@ == (DeviceState { playout_initialized: after@.playout_initialized, ..old(adm)@ }),
{
}

/// A start of recording is a success and leaves it on. It spawns a worker just where recording was
/// off, and that worker is not told to end; where recording was on nothing changes. Queues,
/// initialization and the other direction are left alone.
pub proof fn law_start_recording(
    adm: &mut RawPcmAudioDeviceModule,
    outcome: StartOutcome,
    before: &RawPcmAudioDeviceModule,
    was_on: bool,
    after: &RawPcmAudioDeviceModule,
    is_on: bool,
)
    requires
        call_ensures(RawPcmAudioDeviceModule::start_recording, (adm,), outcome),
        *before == *old(adm),
        call_ensures(RawPcmAudioDeviceModule::recording, (before,), was_on),
        *after == *final(adm),
        call_ensures(RawPcmAudioDeviceModule::recording, (after,), is_on),
    ensures
        outcome.status == 0,
        is_on,
        outcome.spawn <==> !was_on,
        was_on ==> after@ == before@,
        !was_on ==> !after@.stop_recording && after@.recording_thread,
        after@ == (DeviceState {
            recording: after@.recording,
            stop_recording: after@.stop_recording,
            recording_thread: after@.recording_thread,
            ..before@
        }),
{
}

/// A stop of recording is a success and leaves it off, with its worker told to end, and joined
/// if there is one. Queues, initialization and the other direction are left alone.
pub proof fn law_stop_recording(
    adm: &mut RawPcmAudioDeviceModule,
    outcome: StopOutcome,
    after: &RawPcmAudioDeviceModule,
    is_on: bool,
)
    requires
        call_ensures(RawPcmAudioDeviceModule::stop_recording, (adm,), outcome),
        *after == *final(adm),
        call_ensures(RawPcmAudioDeviceModule::recording, (after,), is_on),
    ensures
        outcome.status == 0,
        !is_on,
        outcome.join <==> old(adm)@.recording_thread,
        after@.stop_recording,
        !after@.recording_thread,
        after@ == (DeviceState {
            recording: after@.recording,
            stop_recording: after@.stop_recording,
            recording_thread: after@.recording_thread,
            ..old(adm)@
        }),
{
}

/// A worker that a start spawned is joined by the next stop, and by no stop after that.
pub proof fn law_recording_worker_is_joined_once(
    first: &mut RawPcmAudioDeviceModule,
    started: StartOutcome,
    second: &mut RawPcmAudioDeviceModule,
    stopped: StopOutcome,
    third: &mut RawPcmAudioDeviceModule,
    stopped_again: StopOutcome,
)
    requires
        call_ensures(RawPcmAudioDeviceModule::start_recording, (first,), started),
        *old(second) == *final(first),
        call_ensures(RawPcmAudioDeviceModule::stop_recording, (second,), stopped),
        *old(third) == *final(second),
        call_ensures(RawPcmAudioDeviceModule::stop_recording, (third,), stopped_again),
    ensures
        started.spawn ==> stopped.join,
        !stopped_again.join,
{
}

/// Initializing recording is a success that can be seen afterwards, and does nothing else.
pub proof fn law_init_recording(
    adm: &mut RawPcmAudioDeviceModule,
    status: i32,
    after: &RawPcmAudioDeviceModule,
    initialized: bool,
)
    requires
        call_ensures(RawPcmAudioDeviceModule::init_recording, (adm,), status),
        *after == *final(adm),
        call_ensures(RawPcmAudioDeviceModule::recording_is_initialized, (after,), initialized),
    ensures
        status == 0,
        initialized,
        after@ == (DeviceState {
            recording_initialized: after@.recording_initialized,
            ..old(adm)@
        }),
{
}

/// Terminating is a success that tells both workers to end and joins those that there are. All
/// else stays as it was, and so does whether the directions are on.
pub proof fn law_terminate(
    adm: &mut RawPcmAudioDeviceModule,
    outcome: TerminateOutcome,
    after: &RawPcmAudioDeviceModule,
)
    requires
        call_ensures(RawPcmAudioDeviceModule::terminate, (adm,), outcome),
        *after == *final(adm),
    ensures
        outcome.status == 0,
        outcome.join_playout <==> old(adm)@.playout_thread,
        outcome.join_recording <==> old(adm)@.recording_thread,
        after@.stop_playout && !after@.playout_thread,
        after@.stop_recording && !after@.recording_thread,
        after@ == (DeviceState {
            stop_playout: after@.stop_playout,
            stop_recording: after@.stop_recording,
            playout_thread: after@.playout_thread,
            recording_thread: after@.recording_thread,
            ..old(adm)@
        }),
{
}

/// A call that cannot reach its module is answered -1, or no where the answer is yes or no,
/// whatever the reason.
pub proof fn law_failures_are_answered(failure: InternalFailure)
    ensures
        <i32 as vstd::std_specs::convert::FromSpec<InternalFailure>>::from_spec(failure) == -1,
        <i16 as vstd::std_specs::convert::FromSpec<InternalFailure>>::from_spec(failure) == -1,
        !<bool as vstd::std_specs::convert::FromSpec<InternalFailure>>::from_spec(failure),
        <i32 as vstd::std_specs::convert::FromSpec<InternalFailure>>::obeys_from_spec(),
        <i16 as vstd::std_specs::convert::FromSpec<InternalFailure>>::obeys_from_spec(),
        <bool as vstd::std_specs::convert::FromSpec<InternalFailure>>::obeys_from_spec(),
{
}

} // verus!
