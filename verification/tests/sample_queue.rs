use signal2sip::sample_queue::{
    SampleQueue, MAX_QUEUED_SAMPLES, NUM_CHANNELS, SAMPLE_FREQUENCY, WEBRTC_WINDOW,
};

fn ramp(from: usize, to: usize) -> Vec<i16> {
    (from..to).map(|i| (i % 30_000) as i16).collect()
}

#[test]
fn durations() {
    assert_eq!(SAMPLE_FREQUENCY, 48_000);
    assert_eq!(NUM_CHANNELS, 1);
    assert_eq!(WEBRTC_WINDOW, 480);
    assert_eq!(MAX_QUEUED_SAMPLES, 96_000);
}

#[test]
fn a_new_queue_is_empty() {
    let mut q = SampleQueue::new();
    assert_eq!(q.pull(10), Vec::<i16>::new());
}

#[test]
fn samples_come_out_in_order() {
    let mut q = SampleQueue::new();
    q.push(&[1, 2, 3]);
    q.push(&[4, 5]);
    assert_eq!(q.pull(2), vec![1, 2]);
    assert_eq!(q.pull(0), Vec::<i16>::new());
    assert_eq!(q.pull(10), vec![3, 4, 5]);
    assert_eq!(q.pull(1), Vec::<i16>::new());
}

#[test]
fn one_sample_over_the_cap_drops_the_oldest() {
    let mut q = SampleQueue::new();
    q.push(&ramp(0, MAX_QUEUED_SAMPLES));
    q.push(&[-7]);
    let all = q.pull(usize::MAX);
    assert_eq!(all.len(), MAX_QUEUED_SAMPLES);
    assert_eq!(all[0], 1);
    assert_eq!(all[MAX_QUEUED_SAMPLES - 1], -7);
}

#[test]
fn exactly_the_cap_drops_nothing() {
    let mut q = SampleQueue::new();
    let samples = ramp(0, MAX_QUEUED_SAMPLES);
    q.push(&samples);
    assert_eq!(q.pull(usize::MAX), samples);
}

#[test]
fn one_push_larger_than_the_cap_keeps_its_end() {
    let mut q = SampleQueue::new();
    q.push(&[9, 9, 9]);
    let samples = ramp(0, MAX_QUEUED_SAMPLES + 1_000);
    q.push(&samples);
    assert_eq!(q.pull(usize::MAX), samples[1_000..].to_vec());
}

#[test]
fn pushing_in_pieces_is_pushing_at_once() {
    let samples = ramp(0, MAX_QUEUED_SAMPLES + 123);
    let mut at_once = SampleQueue::new();
    at_once.push(&samples);
    let mut pieces = SampleQueue::new();
    for piece in samples.chunks(7_001) {
        pieces.push(piece);
    }
    assert_eq!(at_once.pull(usize::MAX), pieces.pull(usize::MAX));
}

#[test]
fn pulling_in_pieces_is_pulling_at_once() {
    let samples = ramp(0, 1_000);
    let mut q = SampleQueue::new();
    q.push(&samples);
    let mut got = q.pull(300);
    got.extend(q.pull(701));
    assert_eq!(got, samples);
}

#[test]
fn windows_are_contiguous_and_end_in_silence() {
    let samples = ramp(1, 1 + 2 * WEBRTC_WINDOW + 5);
    let mut q = SampleQueue::new();
    q.push(&samples);
    let mut got = q.pull_window();
    got.extend(q.pull_window());
    got.extend(q.pull_window());
    assert_eq!(got.len(), 3 * WEBRTC_WINDOW);
    assert_eq!(got[..samples.len()].to_vec(), samples);
    assert!(got[samples.len()..].iter().all(|s| *s == 0));
    assert_eq!(q.pull_window(), vec![0; WEBRTC_WINDOW]);
}

#[test]
fn what_never_overflows_is_never_lost() {
    let mut q = SampleQueue::new();
    let mut pushed: Vec<i16> = Vec::new();
    let mut pulled: Vec<i16> = Vec::new();
    for round in 0..50 {
        let samples = ramp(round * 100, round * 100 + 37 * (round % 5));
        q.push(&samples);
        pushed.extend(&samples);
        pulled.extend(q.pull(60));
    }
    pulled.extend(q.pull(usize::MAX));
    assert_eq!(pulled, pushed);
}

#[test]
fn an_overflowing_queue_holds_the_newest_in_order() {
    let mut q = SampleQueue::new();
    q.push(&ramp(0, 60_000));
    let first = q.pull(10);
    q.push(&ramp(60_000, 120_000));
    let then = q.pull(3);
    assert_eq!(first, ramp(0, 10));
    assert_eq!(then, ramp(24_000, 24_003));
}
