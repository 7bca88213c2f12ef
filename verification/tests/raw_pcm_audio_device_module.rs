use signal2sip::pacing::PERIOD_NS;
use signal2sip::raw_pcm_audio_device_module::{
    InternalFailure, RawPcmAudioDeviceModule, StartOutcome, StopOutcome, TerminateOutcome,
};
use signal2sip::sample_queue::{MAX_QUEUED_SAMPLES, SAMPLE_FREQUENCY, WEBRTC_WINDOW};

const SPAWN: StartOutcome = StartOutcome { status: 0, spawn: true };
const STARTED_BEFORE: StartOutcome = StartOutcome { status: 0, spawn: false };
const JOIN: StopOutcome = StopOutcome { status: 0, join: true };
const NO_WORKER: StopOutcome = StopOutcome { status: 0, join: false };

#[test]
fn a_new_module_is_off_and_empty() {
    let mut adm = RawPcmAudioDeviceModule::new();
    assert!(!adm.playing());
    assert!(!adm.recording());
    assert!(!adm.playout_is_initialized());
    assert!(!adm.recording_is_initialized());
    assert_eq!(adm.pull_playout_samples(100), Vec::<i16>::new());
    assert_eq!(adm.next_recorded_data().unwrap().samples, vec![0; WEBRTC_WINDOW]);
}

#[test]
fn start_is_idempotent() {
    let mut adm = RawPcmAudioDeviceModule::new();
    assert_eq!(adm.start_playout(), SPAWN);
    assert!(adm.playing());
    assert_eq!(adm.start_playout(), STARTED_BEFORE);
    assert!(adm.playing());
    assert_eq!(adm.start_recording(), SPAWN);
    assert_eq!(adm.start_recording(), STARTED_BEFORE);
    assert!(adm.recording());
}

#[test]
fn stop_undoes_start_and_can_be_repeated() {
    let mut adm = RawPcmAudioDeviceModule::new();
    assert_eq!(adm.stop_playout(), NO_WORKER);
    assert_eq!(adm.start_playout(), SPAWN);
    assert_eq!(adm.stop_playout(), JOIN);
    assert!(!adm.playing());
    assert_eq!(adm.stop_playout(), NO_WORKER);
    assert_eq!(adm.start_recording(), SPAWN);
    assert_eq!(adm.stop_recording(), JOIN);
    assert!(!adm.recording());
    assert_eq!(adm.stop_recording(), NO_WORKER);
}

#[test]
fn a_stopped_direction_can_be_started_again() {
    let mut adm = RawPcmAudioDeviceModule::new();
    adm.start_playout();
    adm.stop_playout();
    assert!(adm.playout_request().is_none());
    assert_eq!(adm.start_playout(), SPAWN);
    assert!(adm.playout_request().is_some());
    adm.start_recording();
    adm.stop_recording();
    assert!(adm.next_recorded_data().is_none());
    assert_eq!(adm.start_recording(), SPAWN);
    assert!(adm.next_recorded_data().is_some());
}

#[test]
fn terminate_ends_workers_but_leaves_directions_on() {
    let mut adm = RawPcmAudioDeviceModule::new();
    adm.start_playout();
    adm.start_recording();
    let outcome = TerminateOutcome { status: 0, join_playout: true, join_recording: true };
    assert_eq!(adm.terminate(), outcome);
    assert!(adm.playing());
    assert!(adm.recording());
    assert!(adm.playout_request().is_none());
    assert!(adm.next_recorded_data().is_none());
    assert_eq!(adm.start_playout(), STARTED_BEFORE);
    assert_eq!(adm.start_recording(), STARTED_BEFORE);
    assert_eq!(adm.stop_playout(), NO_WORKER);
    assert_eq!(adm.start_playout(), SPAWN);
    let outcome = TerminateOutcome { status: 0, join_playout: true, join_recording: false };
    assert_eq!(adm.terminate(), outcome);
    let outcome = TerminateOutcome { status: 0, join_playout: false, join_recording: false };
    assert_eq!(adm.terminate(), outcome);
}

#[test]
fn directions_are_independent() {
    let mut adm = RawPcmAudioDeviceModule::new();
    adm.start_playout();
    adm.start_recording();
    adm.stop_playout();
    assert!(adm.recording());
    assert!(adm.next_recorded_data().is_some());
    assert!(adm.playout_request().is_none());
}

#[test]
fn a_request_for_play_data_is_a_silent_window() {
    let adm = RawPcmAudioDeviceModule::new();
    let request = adm.playout_request().unwrap();
    assert_eq!(request.data, vec![0; 480]);
    assert_eq!(request.bytes_per_sample, 2);
    assert_eq!(request.n_channels, 1);
    assert_eq!(request.samples_per_sec, 48_000);
}

#[test]
fn decoded_audio_can_be_pulled() {
    let mut adm = RawPcmAudioDeviceModule::new();
    adm.start_playout();
    let first: Vec<i16> = (0..480).collect();
    let second: Vec<i16> = (480..960).collect();
    adm.play_data_received(0, 480, first);
    adm.play_data_received(0, 480, second);
    assert_eq!(adm.pull_playout_samples(700), (0..700).collect::<Vec<i16>>());
    assert_eq!(adm.pull_playout_samples(700), (700..960).collect::<Vec<i16>>());
    assert_eq!(adm.pull_playout_samples(700), Vec::<i16>::new());
}

#[test]
fn only_the_filled_part_of_a_successful_reply_counts() {
    let mut adm = RawPcmAudioDeviceModule::new();
    adm.play_data_received(-1, 3, vec![1, 2, 3]);
    adm.play_data_received(0, 0, vec![1, 2, 3]);
    assert_eq!(adm.pull_playout_samples(10), Vec::<i16>::new());
    adm.play_data_received(0, 2, vec![4, 5, 6]);
    adm.play_data_received(1, 2, vec![7, 7, 7]);
    adm.play_data_received(0, 9, vec![8, 9]);
    assert_eq!(adm.pull_playout_samples(10), vec![4, 5, 8, 9]);
}

#[test]
fn the_speaker_queue_is_capped() {
    let mut adm = RawPcmAudioDeviceModule::new();
    for i in 0..202i16 {
        adm.play_data_received(0, WEBRTC_WINDOW, vec![i; WEBRTC_WINDOW]);
    }
    let all = adm.pull_playout_samples(usize::MAX);
    assert_eq!(all.len(), MAX_QUEUED_SAMPLES);
    assert_eq!(all[0], 2);
    assert_eq!(all[MAX_QUEUED_SAMPLES - 1], 201);
}

#[test]
fn pushed_audio_is_sent_and_followed_by_silence() {
    let mut adm = RawPcmAudioDeviceModule::new();
    adm.start_recording();
    let samples: Vec<i16> = (1..=1_000).collect();
    adm.push_recorded_samples(&samples);
    let mut sent: Vec<i16> = Vec::new();
    for _ in 0..3 {
        sent.extend(adm.next_recorded_data().unwrap().samples);
    }
    assert_eq!(sent.len(), 3 * WEBRTC_WINDOW);
    assert_eq!(sent[..1_000].to_vec(), samples);
    assert!(sent[1_000..].iter().all(|s| *s == 0));
}

#[test]
fn recorded_data_is_mono_without_delay() {
    let mut adm = RawPcmAudioDeviceModule::new();
    adm.push_recorded_samples(&[7; 500]);
    let recorded = adm.next_recorded_data().unwrap();
    assert_eq!(recorded.samples, vec![7; 480]);
    assert_eq!(recorded.bytes_per_sample, 2);
    assert_eq!(recorded.n_channels, 1);
    assert_eq!(recorded.samples_per_sec, 48_000);
    assert_eq!(recorded.total_delay_ms, 0);
    assert_eq!(recorded.clock_drift, 0);
    assert_eq!(recorded.current_mic_level, 0);
    assert!(!recorded.key_pressed);
    assert_eq!(recorded.estimated_capture_time_ns, -1);
}

#[test]
fn an_ended_recording_worker_takes_nothing() {
    let mut adm = RawPcmAudioDeviceModule::new();
    adm.push_recorded_samples(&[1, 2, 3]);
    adm.start_recording();
    adm.stop_recording();
    assert!(adm.next_recorded_data().is_none());
    adm.start_recording();
    assert_eq!(adm.next_recorded_data().unwrap().samples[..4].to_vec(), vec![1, 2, 3, 0]);
}

#[test]
fn the_microphone_queue_is_capped() {
    let mut adm = RawPcmAudioDeviceModule::new();
    adm.push_recorded_samples(&[1]);
    adm.push_recorded_samples(&vec![2; MAX_QUEUED_SAMPLES]);
    assert_eq!(adm.next_recorded_data().unwrap().samples, vec![2; WEBRTC_WINDOW]);
}

#[test]
fn queues_survive_control() {
    let mut adm = RawPcmAudioDeviceModule::new();
    adm.play_data_received(0, 2, vec![1, 2]);
    adm.start_playout();
    adm.stop_playout();
    adm.terminate();
    assert_eq!(adm.pull_playout_samples(5), vec![1, 2]);
}

#[test]
fn initialization_is_remembered() {
    let mut adm = RawPcmAudioDeviceModule::new();
    assert_eq!(adm.init(), 0);
    assert!(adm.initialized());
    assert_eq!(adm.init_playout(), 0);
    assert!(adm.playout_is_initialized());
    assert!(!adm.recording_is_initialized());
    assert_eq!(adm.init_recording(), 0);
    assert!(adm.recording_is_initialized());
    assert_eq!(adm.init_speaker(), 0);
    assert!(adm.speaker_is_initialized());
    assert_eq!(adm.init_microphone(), 0);
    assert!(adm.microphone_is_initialized());
}

#[test]
fn availability_is_written_or_refused() {
    let mut adm = RawPcmAudioDeviceModule::new();
    assert_eq!(adm.playout_devices(), 1);
    assert_eq!(adm.recording_devices(), 1);
    let mut out = false;
    assert_eq!(adm.playout_is_available(Some(&mut out)), 0);
    assert!(out);
    out = false;
    assert_eq!(adm.recording_is_available(Some(&mut out)), 0);
    assert!(out);
    assert_eq!(adm.playout_is_available(None), -1);
    assert_eq!(adm.recording_is_available(None), -1);
    let mut delay: u16 = 99;
    assert_eq!(adm.playout_delay(Some(&mut delay)), 0);
    assert_eq!(delay, 0);
    assert_eq!(adm.playout_delay(None), -1);
}

#[test]
fn what_is_not_there_is_reported_as_such() {
    let adm = RawPcmAudioDeviceModule::new();
    let mut out = true;
    assert_eq!(adm.speaker_volume_is_available(Some(&mut out)), 0);
    assert!(!out);
    out = true;
    assert_eq!(adm.microphone_volume_is_available(Some(&mut out)), 0);
    assert!(!out);
    out = true;
    assert_eq!(adm.speaker_mute_is_available(Some(&mut out)), 0);
    assert!(!out);
    out = true;
    assert_eq!(adm.microphone_mute_is_available(Some(&mut out)), 0);
    assert!(!out);
    out = true;
    assert_eq!(adm.stereo_playout_is_available(Some(&mut out)), 0);
    assert!(!out);
    out = true;
    assert_eq!(adm.stereo_recording_is_available(Some(&mut out)), 0);
    assert!(!out);
    out = true;
    assert_eq!(adm.stereo_playout(Some(&mut out)), 0);
    assert!(!out);
    out = true;
    assert_eq!(adm.stereo_recording(Some(&mut out)), 0);
    assert!(!out);
    assert_eq!(adm.speaker_volume_is_available(None), -1);
    assert_eq!(adm.stereo_playout(None), -1);
}

#[test]
fn unsupported_requests_fail_and_write_nothing() {
    let mut adm = RawPcmAudioDeviceModule::new();
    let mut layer: i32 = 5;
    assert_eq!(adm.active_audio_layer(Some(&mut layer)), -1);
    assert_eq!(layer, 5);
    let (mut name, mut guid) = (1u8, 2u8);
    assert_eq!(adm.playout_device_name(0, Some(&mut name), Some(&mut guid)), -1);
    assert_eq!(adm.recording_device_name(0, Some(&mut name), Some(&mut guid)), -1);
    assert_eq!((name, guid), (1, 2));
    let mut volume: u32 = 6;
    assert_eq!(adm.speaker_volume(Some(&mut volume)), -1);
    assert_eq!(adm.max_speaker_volume(Some(&mut volume)), -1);
    assert_eq!(adm.min_speaker_volume(Some(&mut volume)), -1);
    assert_eq!(adm.microphone_volume(Some(&mut volume)), -1);
    assert_eq!(adm.max_microphone_volume(Some(&mut volume)), -1);
    assert_eq!(adm.min_microphone_volume(Some(&mut volume)), -1);
    assert_eq!(volume, 6);
    let mut enabled = true;
    assert_eq!(adm.speaker_mute(Some(&mut enabled)), -1);
    assert_eq!(adm.microphone_mute(Some(&mut enabled)), -1);
    assert!(enabled);
    assert_eq!(adm.set_speaker_volume(1), -1);
    assert_eq!(adm.set_microphone_volume(1), -1);
    assert_eq!(adm.set_speaker_mute(true), -1);
    assert_eq!(adm.set_microphone_mute(true), -1);
    assert_eq!(adm.set_stereo_playout(true), -1);
    assert_eq!(adm.set_stereo_recording(false), -1);
}

#[test]
fn internal_failures_look_like_refusals() {
    for failure in [InternalFailure::NullPtr, InternalFailure::MutexPoison] {
        assert_eq!(i32::from(failure), -1);
        assert_eq!(i16::from(failure), -1);
        assert!(!bool::from(failure));
    }
}

#[test]
fn audio_passes_unchanged_whatever_else_happens() {
    let mut adm = RawPcmAudioDeviceModule::new();
    let mut decoded: Vec<i16> = Vec::new();
    let mut pulled: Vec<i16> = Vec::new();
    let mut pushed: Vec<i16> = Vec::new();
    let mut sent: Vec<i16> = Vec::new();
    for round in 1..100i16 {
        match round % 6 {
            0 => drop(adm.start_playout()),
            1 => drop(adm.start_recording()),
            2 => drop(adm.stop_playout()),
            3 => drop(adm.init_playout()),
            4 => drop(adm.stop_recording()),
            _ => drop(adm.start_recording()),
        }
        let samples = vec![round; 100 + round as usize];
        adm.play_data_received(i32::from(round % 7 == 0), samples.len(), samples.clone());
        if round % 7 != 0 {
            decoded.extend(&samples);
        }
        pulled.extend(adm.pull_playout_samples(130));
        adm.push_recorded_samples(&samples);
        pushed.extend(&samples);
        if let Some(recorded) = adm.next_recorded_data() {
            sent.extend(recorded.samples.iter().filter(|s| **s != 0));
        }
    }
    pulled.extend(adm.pull_playout_samples(usize::MAX));
    assert_eq!(pulled, decoded);
    adm.start_recording();
    for _ in 0..200 {
        let recorded = adm.next_recorded_data().unwrap();
        sent.extend(recorded.samples.iter().filter(|s| **s != 0));
    }
    assert_eq!(sent, pushed);
}

#[test]
fn a_second_of_periods_is_a_second_of_audio() {
    let periods = 1_000_000_000 / PERIOD_NS;
    assert_eq!(periods, 100);
    assert_eq!(periods * WEBRTC_WINDOW as u64, SAMPLE_FREQUENCY as u64);
}
