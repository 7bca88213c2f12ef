use signal2sip::pacing::PERIOD_NS;
use signal2sip::raw_pcm_audio_device_module::RawPcmAudioDeviceModule;
use signal2sip::sample_queue::{SAMPLE_FREQUENCY, WEBRTC_WINDOW};
use signal2sip::worker::{PlayoutWorker, RecordingWorker};

#[test]
fn a_playout_period_queues_the_reply_and_sleeps() {
    let mut adm = RawPcmAudioDeviceModule::new();
    adm.start_playout();
    let (period, request) = PlayoutWorker::new(1_000).begin(&adm).unwrap();
    assert_eq!(request.data, vec![0; WEBRTC_WINDOW]);
    assert_eq!(request.samples_per_sec, SAMPLE_FREQUENCY);
    assert!(period.can_end());
    let (worker, sleep) = period.end(&mut adm, 0, 2, vec![4, 5, 6], 1_300);
    assert_eq!(sleep, Some(PERIOD_NS - 300));

    let (period, _) = worker.begin(&adm).unwrap();
    let (worker, sleep) = period.end(&mut adm, -1, 2, vec![7, 8, 9], 1_000 + 2 * PERIOD_NS);
    assert_eq!(sleep, Some(0));

    let (period, _) = worker.begin(&adm).unwrap();
    let (_, sleep) = period.end(&mut adm, 0, 1, vec![10], 1_001 + 3 * PERIOD_NS);
    assert_eq!(sleep, None);
    assert_eq!(adm.pull_playout_samples(10), vec![4, 5, 10]);
}

#[test]
fn a_recording_period_hands_on_a_window_and_sleeps() {
    let mut adm = RawPcmAudioDeviceModule::new();
    adm.start_recording();
    adm.push_recorded_samples(&[1, 2, 3]);
    let (period, recorded) = RecordingWorker::new(1_000).begin(&mut adm).unwrap();
    let mut window = vec![0; WEBRTC_WINDOW];
    window[..3].copy_from_slice(&[1, 2, 3]);
    assert_eq!(recorded.samples, window);
    assert!(period.can_end());
    let (worker, sleep) = period.end(1_300);
    assert_eq!(sleep, Some(PERIOD_NS - 300));

    let (period, recorded) = worker.begin(&mut adm).unwrap();
    assert_eq!(recorded.samples, vec![0; WEBRTC_WINDOW]);
    let (_, sleep) = period.end(1_001 + 2 * PERIOD_NS);
    assert_eq!(sleep, None);
}

#[test]
fn workers_end_when_they_are_stopped() {
    let mut adm = RawPcmAudioDeviceModule::new();
    adm.start_playout();
    adm.start_recording();
    adm.push_recorded_samples(&[1]);
    adm.stop_playout();
    adm.stop_recording();
    assert!(PlayoutWorker::new(0).begin(&adm).is_none());
    assert!(RecordingWorker::new(0).begin(&mut adm).is_none());
    // A worker that ends takes nothing.
    adm.start_recording();
    let (_, recorded) = RecordingWorker::new(0).begin(&mut adm).unwrap();
    assert_eq!(recorded.samples[0], 1);
}

#[test]
fn workers_notice_the_end_of_the_clock() {
    let mut adm = RawPcmAudioDeviceModule::new();
    let last = u64::MAX - PERIOD_NS;
    assert!(PlayoutWorker::new(last).begin(&adm).unwrap().0.can_end());
    assert!(!PlayoutWorker::new(last + 1).begin(&adm).unwrap().0.can_end());
    assert!(RecordingWorker::new(last).begin(&mut adm).unwrap().0.can_end());
    assert!(!RecordingWorker::new(last + 1).begin(&mut adm).unwrap().0.can_end());
}

#[test]
fn each_period_hands_on_one_window_of_the_queue() {
    let mut adm = RawPcmAudioDeviceModule::new();
    let pushed: Vec<i16> = (1..=1_000).collect();
    adm.push_recorded_samples(&pushed);
    let mut worker = RecordingWorker::new(0);
    let mut now = 0;
    let mut sent = Vec::new();
    for work in [3, PERIOD_NS * 5 / 2, 1, 0, 7] {
        let (period, recorded) = worker.begin(&mut adm).unwrap();
        assert_eq!(recorded.samples.len(), WEBRTC_WINDOW);
        sent.extend(recorded.samples);
        now += work;
        let (next, sleep) = period.end(now);
        now += sleep.unwrap_or(0);
        worker = next;
    }
    assert_eq!(now, 5 * PERIOD_NS);
    assert_eq!(sent.len(), 5 * WEBRTC_WINDOW);
    assert_eq!(sent[..1_000], pushed[..]);
    assert!(sent[1_000..].iter().all(|sample| *sample == 0));
}

#[test]
fn each_period_asks_for_one_window() {
    let mut adm = RawPcmAudioDeviceModule::new();
    let mut worker = PlayoutWorker::new(0);
    let mut now = 0;
    let mut asked = 0;
    for (ret, work) in [(0, 3), (-1, PERIOD_NS * 5 / 2), (0, 1), (0, 0), (1, 7)] {
        let (period, request) = worker.begin(&adm).unwrap();
        asked += request.data.len();
        now += work;
        let (next, sleep) = period.end(&mut adm, ret, WEBRTC_WINDOW, request.data, now);
        now += sleep.unwrap_or(0);
        worker = next;
    }
    assert_eq!(now, 5 * PERIOD_NS);
    assert_eq!(asked, 5 * WEBRTC_WINDOW);
    assert_eq!(adm.pull_playout_samples(usize::MAX).len(), 3 * WEBRTC_WINDOW);
}

#[test]
fn audio_is_sent_at_the_rate_of_the_clock() {
    let mut adm = RawPcmAudioDeviceModule::new();
    let start = 77;
    let mut worker = RecordingWorker::new(start);
    let mut now = start;
    let mut sent: u64 = 0;
    for period_number in 0..250 {
        let (period, recorded) = worker.begin(&mut adm).unwrap();
        sent += recorded.samples.len() as u64;
        now += 1_234_567 * (period_number % 8);
        let (next, sleep) = period.end(now);
        now += sleep.unwrap_or(0);
        worker = next;
    }
    assert_eq!(sent * 1_000_000_000, u64::from(SAMPLE_FREQUENCY) * (now - start));
    assert_eq!(now - start, 2_500_000_000);
}
