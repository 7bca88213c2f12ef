//! The worker threads, period by period.
//!
//! A worker alternates between two types: it is a worker between periods, and a period while it
//! is in one. So every period asks for or hands on one window, and moves the schedule on once.

use vstd::prelude::*;

use crate::device_state::{law_queued_audio_is_sent, sent_audio, windows_taken};
use crate::device_state::{DeviceState, PlayDataReply};
use crate::pacing::{is_time_until, next_deadline, paced, resumes_at, Pacer};
use crate::raw_pcm_audio_device_module::{PlayDataRequest, RawPcmAudioDeviceModule, RecordedData};
use crate::sample_queue::{padded, WEBRTC_WINDOW};

verus! {

/// A playout worker between two periods. Its view is the deadline that was last set.
#[derive(Debug)]
pub struct PlayoutWorker {
    pacer: Pacer,
}

/// A playout worker that waits for WebRTC's answer.
#[derive(Debug)]
pub struct PlayoutPeriod {
    pacer: Pacer,
}

impl View for PlayoutWorker {
    type V = int;

    closed spec fn view(&self) -> int {
        self.pacer@
    }
}

impl View for PlayoutPeriod {
    type V = int;

    closed spec fn view(&self) -> int {
        self.pacer@
    }
}

impl PlayoutWorker {
    /// A worker whose schedule starts now.
    pub fn new(now_ns: u64) -> (worker: Self)
        ensures
            worker@ == now_ns,
    {
        PlayoutWorker { pacer: Pacer::new(now_ns) }
    }

    /// Begins a period with what to ask of WebRTC; `None` once the worker is to end.
    pub fn begin(self, adm: &RawPcmAudioDeviceModule) -> (begun: Option<
        (PlayoutPeriod, PlayDataRequest),
    >)
        ensures
            match begun {
                Some((period, request)) => {
                    &&& !adm@.stop_playout
                    &&& period@ == self@
                    &&& request.is_window()
                },
                None => adm@.stop_playout,
            },
    {
        match adm.playout_request() {
            Some(request) => Some((PlayoutPeriod { pacer: self.pacer }, request)),
            None => None,
        }
    }
}

impl PlayoutPeriod {
    /// Whether the clock has room for another deadline.
    pub fn can_end(&self) -> (room: bool)
        ensures
            room == (next_deadline(self@) <= u64::MAX),
    {
        self.pacer.can_advance()
    }

    /// Ends the period with WebRTC's answer, received at `now_ns`: queues what was decoded, moves
    /// on to the next deadline and tells how long to sleep until then, if it is still to come.
    pub fn end(
        self,
        adm: &mut RawPcmAudioDeviceModule,
        ret: i32,
        samples_out: usize,
        data: Vec<i16>,
        now_ns: u64,
    ) -> (ended: (PlayoutWorker, Option<u64>))
        requires
            old(adm).wf(),
            next_deadline(self@) <= u64::MAX,
        ensures
            final(adm).wf(),
            final(adm)@ == old(adm)@.played(
                (PlayDataReply { ret, samples_out: samples_out as nat, data: data@ }),
            ),
            ended.0@ == next_deadline(self@),
            is_time_until(ended.1, ended.0@, now_ns as int),
    {
        adm.play_data_received(ret, samples_out, data);
        let mut pacer = self.pacer;
        let sleep = pacer.advance(now_ns);
        (PlayoutWorker { pacer }, sleep)
    }
}

/// A recording worker between two periods. Its view is the deadline that was last set.
#[derive(Debug)]
pub struct RecordingWorker {
    pacer: Pacer,
}

/// A recording worker that has a window to hand to WebRTC.
#[derive(Debug)]
pub struct RecordingPeriod {
    pacer: Pacer,
}

impl View for RecordingWorker {
    type V = int;

    closed spec fn view(&self) -> int {
        self.pacer@
    }
}

impl View for RecordingPeriod {
    type V = int;

    closed spec fn view(&self) -> int {
        self.pacer@
    }
}

impl RecordingWorker {
    /// A worker whose schedule starts now.
    pub fn new(now_ns: u64) -> (worker: Self)
        ensures
            worker@ == now_ns,
    {
        RecordingWorker { pacer: Pacer::new(now_ns) }
    }

    /// Begins a period with the window to hand to WebRTC; `None` once the worker is to end.
    pub fn begin(self, adm: &mut RawPcmAudioDeviceModule) -> (begun: Option<
        (RecordingPeriod, RecordedData),
    >)
        requires
            old(adm).wf(),
        ensures
            final(adm).wf(),
            match begun {
                Some((period, recorded)) => {
                    &&& !old(adm)@.stop_recording
                    &&& period@ == self@
                    &&& recorded.carries(padded(old(adm)@.mic, WEBRTC_WINDOW as nat))
                    &&& final(adm)@ == old(adm)@.window_taken()
                },
                None => old(adm)@.stop_recording && *final(adm) == *old(adm),
            },
    {
        match adm.next_recorded_data() {
            Some(recorded) => Some((RecordingPeriod { pacer: self.pacer }, recorded)),
            None => None,
        }
    }
}

impl RecordingPeriod {
    /// Whether the clock has room for another deadline.
    pub fn can_end(&self) -> (room: bool)
        ensures
            room == (next_deadline(self@) <= u64::MAX),
    {
        self.pacer.can_advance()
    }

    /// Ends the period at `now_ns`, with the window handed on: moves on to the next deadline and
    /// tells how long to sleep until then, if it is still to come.
    pub fn end(self, now_ns: u64) -> (ended: (RecordingWorker, Option<u64>))
        requires
            next_deadline(self@) <= u64::MAX,
        ensures
            ended.0@ == next_deadline(self@),
            is_time_until(ended.1, ended.0@, now_ns as int),
    {
        let mut pacer = self.pacer;
        let sleep = pacer.advance(now_ns);
        (RecordingWorker { pacer }, sleep)
    }
}

/// How far a recording worker has come.
#[verifier::ext_equal]
pub struct RecordingRun {
    pub device: DeviceState,
    /// The windows handed to WebRTC, in order.
    pub handed_on: Seq<Seq<i16>>,
    pub deadline: int,
    /// When the worker goes on.
    pub resumed: int,
}

impl RecordingRun {
    /// A worker started at `start`.
    pub open spec fn started(device: DeviceState, start: int) -> RecordingRun {
        RecordingRun { device, handed_on: Seq::empty(), deadline: start, resumed: start }
    }

    /// One period more: native code pushed `pushed` before it, and its work took `work`.
    pub open spec fn period(self, pushed: Seq<i16>, work: nat) -> RecordingRun {
        let device = self.device.recorded(pushed);
        let next = next_deadline(self.deadline);
        RecordingRun {
            device: device.window_taken(),
            handed_on: self.handed_on.push(padded(device.mic, WEBRTC_WINDOW as nat)),
            deadline: next,
            resumed: resumes_at(next, self.resumed + work),
        }
    }
}

/// A recording worker after one period for each entry of `work`, with `pushed[i]` pushed by
/// native code before the period `i`.
pub open spec fn recording_run(
    device: DeviceState,
    start: int,
    pushed: Seq<Seq<i16>>,
    work: Seq<nat>,
) -> RecordingRun
    decreases work.len(),
{
    if work.len() == 0 {
        RecordingRun::started(device, start)
    } else {
        recording_run(device, start, pushed, work.drop_last()).period(
            pushed[work.len() - 1],
            work.last(),
        )
    }
}

/// How far a playout worker has come.
#[verifier::ext_equal]
pub struct PlayoutRun {
    pub device: DeviceState,
    /// How many windows were asked of WebRTC.
    pub requests: nat,
    pub deadline: int,
    /// When the worker goes on.
    pub resumed: int,
}

impl PlayoutRun {
    /// A worker started at `start`.
    pub open spec fn started(device: DeviceState, start: int) -> PlayoutRun {
        PlayoutRun { device, requests: 0, deadline: start, resumed: start }
    }

    /// One period more: native code pulled up to `pulled` samples before it, WebRTC answered
    /// with `reply`, and the work of the period took `work`.
    pub open spec fn period(self, pulled: nat, reply: PlayDataReply, work: nat) -> PlayoutRun {
        let next = next_deadline(self.deadline);
        PlayoutRun {
            device: self.device.pulled(pulled).played(reply),
            requests: self.requests + 1,
            deadline: next,
            resumed: resumes_at(next, self.resumed + work),
        }
    }
}

/// A playout worker after one period for each entry of `work`, with `pulled[i]` samples asked
/// for by native code before the period `i` and the answer `replies[i]` in it.
pub open spec fn playout_run(
    device: DeviceState,
    start: int,
    pulled: Seq<nat>,
    replies: Seq<PlayDataReply>,
    work: Seq<nat>,
) -> PlayoutRun
    decreases work.len(),
{
    if work.len() == 0 {
        PlayoutRun::started(device, start)
    } else {
        let last = work.len() - 1;
        playout_run(device, start, pulled, replies, work.drop_last()).period(
            pulled[last],
            replies[last],
            work.last(),
        )
    }
}

/// A recording worker hands on exactly one window in each period, whatever native code pushes
/// meanwhile, and goes on where its schedule says.
pub proof fn law_one_window_sent_per_period(
    device: DeviceState,
    start: int,
    pushed: Seq<Seq<i16>>,
    work: Seq<nat>,
)
    ensures
        ({
            let run = recording_run(device, start, pushed, work);
            &&& run.handed_on.len() == work.len()
            &&& forall|i: int|
                0 <= i < work.len() ==> (#[trigger] run.handed_on[i]).len() == WEBRTC_WINDOW
            &&& (run.deadline, run.resumed) == paced(start, work)
        }),
    decreases work.len(),
{
    if work.len() > 0 {
        law_one_window_sent_per_period(device, start, pushed, work.drop_last());
    }
}

/// A playout worker asks for exactly one window in each period, whatever comes back and whatever
/// native code pulls meanwhile, and goes on where its schedule says.
pub proof fn law_one_window_asked_per_period(
    device: DeviceState,
    start: int,
    pulled: Seq<nat>,
    replies: Seq<PlayDataReply>,
    work: Seq<nat>,
)
    ensures
        ({
            let run = playout_run(device, start, pulled, replies, work);
            &&& run.requests == work.len()
            &&& (run.deadline, run.resumed) == paced(start, work)
        }),
    decreases work.len(),
{
    if work.len() > 0 {
        law_one_window_asked_per_period(device, start, pulled, replies, work.drop_last());
    }
}

/// Where native code pushes nothing meanwhile, the windows that a recording worker hands on are
/// the queued audio, in order and followed by silence.
pub proof fn law_windows_carry_the_queue(
    device: DeviceState,
    start: int,
    pushed: Seq<Seq<i16>>,
    work: Seq<nat>,
)
    requires
        device.wf(),
        forall|i: int| 0 <= i < work.len() ==> (#[trigger] pushed[i]).len() == 0,
    ensures
        recording_run(device, start, pushed, work).handed_on.flatten() == padded(
            device.mic,
            work.len() * WEBRTC_WINDOW as nat,
        ),
{
    lemma_windows_are_sent_audio(device, start, pushed, work);
    law_queued_audio_is_sent(device, work.len());
}

proof fn lemma_windows_are_sent_audio(
    device: DeviceState,
    start: int,
    pushed: Seq<Seq<i16>>,
    work: Seq<nat>,
)
    requires
        device.wf(),
        forall|i: int| 0 <= i < work.len() ==> (#[trigger] pushed[i]).len() == 0,
    ensures
        recording_run(device, start, pushed, work).handed_on.flatten() == sent_audio(
            device,
            work.len(),
        ),
        recording_run(device, start, pushed, work).device == windows_taken(device, work.len()),
        windows_taken(device, work.len()).wf(),
    decreases work.len(),
{
    let run = recording_run(device, start, pushed, work);
    if work.len() == 0 {
        assert(run.handed_on =~= Seq::<Seq<i16>>::empty());
        assert(run.handed_on.flatten() =~= Seq::<i16>::empty());
    } else {
        let before = recording_run(device, start, pushed, work.drop_last());
        let last = work.len() - 1;
        lemma_windows_are_sent_audio(device, start, pushed, work.drop_last());
        assert(pushed[last].len() == 0);
        assert(before.device.mic + pushed[last] =~= before.device.mic);
        assert(before.device.recorded(pushed[last]) =~= before.device);
        let window = padded(before.device.mic, WEBRTC_WINDOW as nat);
        before.handed_on.lemma_flatten_push(window);
    }
}

/// A recording worker started at `start` wakes on the grid of tens of milliseconds from there:
/// after the period `k`, which ended at `nows[k]`, it sleeps just until the point `k + 1` of the
/// grid, or not at all if that has passed, however long any period took. In the period that
/// follows there is room for one point more just where the clock reaches it.
pub proof fn law_recording_worker_wakes_on_the_grid(
    start: u64,
    workers: Seq<RecordingWorker>,
    begun_on: Seq<&mut RawPcmAudioDeviceModule>,
    periods: Seq<RecordingPeriod>,
    windows: Seq<RecordedData>,
    nows: Seq<u64>,
    sleeps: Seq<Option<u64>>,
    next_begun_on: &mut RawPcmAudioDeviceModule,
    next: RecordingPeriod,
    next_window: RecordedData,
    room: bool,
)
    requires
        workers.len() == periods.len() + 1,
        call_ensures(RecordingWorker::new, (start,), workers[0]),
        forall|k: int|
            0 <= k < periods.len() ==> call_ensures(
                RecordingWorker::begin,
                (workers[k], begun_on[k]),
                Some((#[trigger] periods[k], windows[k])),
            ),
        forall|k: int|
            0 <= k < periods.len() ==> call_ensures(
                RecordingPeriod::end,
                (periods[k], nows[k]),
                (workers[k + 1], #[trigger] sleeps[k]),
            ),
        call_ensures(
            RecordingWorker::begin,
            (workers[periods.len() as int], next_begun_on),
            Some((next, next_window)),
        ),
        call_ensures(RecordingPeriod::can_end, (&next,), room),
    ensures
        forall|k: int|
            0 <= k < periods.len() ==> match #[trigger] sleeps[k] {
                Some(sleep) => nows[k] + sleep == start + (k + 1) * 10_000_000,
                None => nows[k] > start + (k + 1) * 10_000_000,
            },
        room <==> start + (periods.len() + 1) * 10_000_000 <= u64::MAX,
{
    assert forall|k: int| 0 <= k < periods.len() implies match #[trigger] sleeps[k] {
        Some(sleep) => nows[k] + sleep == start + (k + 1) * 10_000_000,
        None => nows[k] > start + (k + 1) * 10_000_000,
    } by {
        lemma_recording_deadlines(start, workers, begun_on, periods, windows, nows, sleeps, k);
    }
    if periods.len() > 0 {
        let last = periods.len() - 1;
        lemma_recording_deadlines(start, workers, begun_on, periods, windows, nows, sleeps, last);
    }
}

proof fn lemma_recording_deadlines(
    start: u64,
    workers: Seq<RecordingWorker>,
    begun_on: Seq<&mut RawPcmAudioDeviceModule>,
    periods: Seq<RecordingPeriod>,
    windows: Seq<RecordedData>,
    nows: Seq<u64>,
    sleeps: Seq<Option<u64>>,
    n: int,
)
    requires
        0 <= n < periods.len(),
        workers[0]@ == start,
        forall|k: int|
            0 <= k < periods.len() ==> call_ensures(
                RecordingWorker::begin,
                (workers[k], begun_on[k]),
                Some((#[trigger] periods[k], windows[k])),
            ),
        forall|k: int|
            0 <= k < periods.len() ==> call_ensures(
                RecordingPeriod::end,
                (periods[k], nows[k]),
                (workers[k + 1], #[trigger] sleeps[k]),
            ),
    ensures
        periods[n]@ == start + n * 10_000_000,
        workers[n + 1]@ == start + (n + 1) * 10_000_000,
        is_time_until(sleeps[n], workers[n + 1]@, nows[n] as int),
    decreases n,
{
    if n > 0 {
        lemma_recording_deadlines(start, workers, begun_on, periods, windows, nows, sleeps, n - 1);
    }
    assert(periods[n]@ == workers[n]@);
    assert(is_time_until(sleeps[n], workers[n + 1]@, nows[n] as int));
}

/// A playout worker started at `start` wakes on the grid of tens of milliseconds from there:
/// after the period `k`, which ended at `nows[k]`, it sleeps just until the point `k + 1` of the
/// grid, or not at all if that has passed, however long any period took. In the period that
/// follows there is room for one point more just where the clock reaches it.
pub proof fn law_playout_worker_wakes_on_the_grid(
    start: u64,
    workers: Seq<PlayoutWorker>,
    begun_on: Seq<&RawPcmAudioDeviceModule>,
    periods: Seq<PlayoutPeriod>,
    requests: Seq<PlayDataRequest>,
    ended_on: Seq<&mut RawPcmAudioDeviceModule>,
    rets: Seq<i32>,
    counts: Seq<usize>,
    buffers: Seq<Vec<i16>>,
    nows: Seq<u64>,
    sleeps: Seq<Option<u64>>,
    next_begun_on: &RawPcmAudioDeviceModule,
    next: PlayoutPeriod,
    next_request: PlayDataRequest,
    room: bool,
)
    requires
        workers.len() == periods.len() + 1,
        call_ensures(PlayoutWorker::new, (start,), workers[0]),
        forall|k: int|
            0 <= k < periods.len() ==> call_ensures(
                PlayoutWorker::begin,
                (workers[k], begun_on[k]),
                Some((#[trigger] periods[k], requests[k])),
            ),
        forall|k: int|
            0 <= k < periods.len() ==> call_ensures(
                PlayoutPeriod::end,
                (periods[k], ended_on[k], rets[k], counts[k], buffers[k], nows[k]),
                (workers[k + 1], #[trigger] sleeps[k]),
            ),
        call_ensures(
            PlayoutWorker::begin,
            (workers[periods.len() as int], next_begun_on),
            Some((next, next_request)),
        ),
        call_ensures(PlayoutPeriod::can_end, (&next,), room),
    ensures
        forall|k: int|
            0 <= k < periods.len() ==> match #[trigger] sleeps[k] {
                Some(sleep) => nows[k] + sleep == start + (k + 1) * 10_000_000,
                None => nows[k] > start + (k + 1) * 10_000_000,
            },
        room <==> start + (periods.len() + 1) * 10_000_000 <= u64::MAX,
{
    assert forall|k: int| 0 <= k < periods.len() implies match #[trigger] sleeps[k] {
        Some(sleep) => nows[k] + sleep == start + (k + 1) * 10_000_000,
        None => nows[k] > start + (k + 1) * 10_000_000,
    } by {
        lemma_playout_deadlines(
            start,
            workers,
            begun_on,
            periods,
            requests,
            ended_on,
            rets,
            counts,
            buffers,
            nows,
            sleeps,
            k,
        );
    }
    if periods.len() > 0 {
        let last = periods.len() - 1;
        lemma_playout_deadlines(
            start,
            workers,
            begun_on,
            periods,
            requests,
            ended_on,
            rets,
            counts,
            buffers,
            nows,
            sleeps,
            last,
        );
    }
}

proof fn lemma_playout_deadlines(
    start: u64,
    workers: Seq<PlayoutWorker>,
    begun_on: Seq<&RawPcmAudioDeviceModule>,
    periods: Seq<PlayoutPeriod>,
    requests: Seq<PlayDataRequest>,
    ended_on: Seq<&mut RawPcmAudioDeviceModule>,
    rets: Seq<i32>,
    counts: Seq<usize>,
    buffers: Seq<Vec<i16>>,
    nows: Seq<u64>,
    sleeps: Seq<Option<u64>>,
    n: int,
)
    requires
        0 <= n < periods.len(),
        workers[0]@ == start,
        forall|k: int|
            0 <= k < periods.len() ==> call_ensures(
                PlayoutWorker::begin,
                (workers[k], begun_on[k]),
                Some((#[trigger] periods[k], requests[k])),
            ),
        forall|k: int|
            0 <= k < periods.len() ==> call_ensures(
                PlayoutPeriod::end,
                (periods[k], ended_on[k], rets[k], counts[k], buffers[k], nows[k]),
                (workers[k + 1], #[trigger] sleeps[k]),
            ),
    ensures
        periods[n]@ == start + n * 10_000_000,
        workers[n + 1]@ == start + (n + 1) * 10_000_000,
        is_time_until(sleeps[n], workers[n + 1]@, nows[n] as int),
    decreases n,
{
    if n > 0 {
        lemma_playout_deadlines(
            start,
            workers,
            begun_on,
            periods,
            requests,
            ended_on,
            rets,
            counts,
            buffers,
            nows,
            sleeps,
            n - 1,
        );
    }
    assert(periods[n]@ == workers[n]@);
    assert(is_time_until(sleeps[n], workers[n + 1]@, nows[n] as int));
}

/// A period of a recording worker begins with the oldest 480 samples of the microphone queue as
/// they are, with zeros from where the queue has run dry, and takes them off the queue; the worker
/// ends just where it is told to.
pub proof fn law_recording_period_hands_on_the_oldest_samples(
    worker: RecordingWorker,
    adm: &mut RawPcmAudioDeviceModule,
    begun: Option<(RecordingPeriod, RecordedData)>,
)
    requires
        call_ensures(RecordingWorker::begin, (worker, adm), begun),
    ensures
        begun is None <==> old(adm)@.stop_recording,
        begun is None ==> *final(adm) == *old(adm),
        begun matches Some((_, recorded)) ==> {
            let before = old(adm)@.mic;
            let after = final(adm)@.mic;
            &&& recorded.samples@.len() == 480
            &&& forall|i: int|
                0 <= i < 480 ==> #[trigger] recorded.samples@[i] == if i < before.len() {
                    before[i]
                } else {
                    0
                }
            &&& recorded.bytes_per_sample == 2
            &&& recorded.n_channels == 1
            &&& recorded.samples_per_sec == 48_000
            &&& after.len() == if before.len() > 480 {
                before.len() - 480
            } else {
                0
            }
            &&& forall|i: int| 0 <= i < after.len() ==> #[trigger] after[i] == before[480 + i]
            &&& final(adm)@ == (DeviceState { mic: after, ..old(adm)@ })
        },
{
}

/// A period of a playout worker begins with a request for 480 samples in a silent buffer; the
/// worker ends just where it is told to.
pub proof fn law_playout_period_asks_for_a_window(
    worker: PlayoutWorker,
    adm: &RawPcmAudioDeviceModule,
    begun: Option<(PlayoutPeriod, PlayDataRequest)>,
)
    requires
        call_ensures(PlayoutWorker::begin, (worker, adm), begun),
    ensures
        begun is None <==> adm@.stop_playout,
        begun matches Some((_, request)) ==> {
            &&& request.data@.len() == 480
            &&& forall|i: int| 0 <= i < 480 ==> #[trigger] request.data@[i] == 0
            &&& request.bytes_per_sample == 2
            &&& request.n_channels == 1
            &&& request.samples_per_sec == 48_000
        },
{
}

/// A period of a playout worker ends with the samples of a successful reply, each with the value
/// that it has in `data`, behind what is queued already.
pub proof fn law_playout_period_queues_the_reply(
    period: PlayoutPeriod,
    adm: &mut RawPcmAudioDeviceModule,
    ret: i32,
    samples_out: usize,
    data: Vec<i16>,
    now_ns: u64,
    ended: (PlayoutWorker, Option<u64>),
)
    requires
        call_ensures(PlayoutPeriod::end, (period, adm, ret, samples_out, data, now_ns), ended),
    ensures
        ({
            let before = old(adm)@.speaker;
            let after = final(adm)@.speaker;
            let added = if ret != 0 {
                0
            } else if samples_out < data@.len() {
                samples_out as int
            } else {
                data@.len() as int
            };
            let dropped = if before.len() + added > 96_000 {
                before.len() + added - 96_000
            } else {
                0
            };
            &&& after.len() == before.len() + added - dropped
            &&& forall|i: int|
                dropped <= i < before.len() ==> after[i - dropped] == #[trigger] before[i]
            &&& forall|i: int|
                0 <= i < added && dropped <= before.len() + i ==> after[before.len() + i - dropped]
                    == #[trigger] data@[i]
            &&& final(adm)@ == (DeviceState { speaker: after, ..old(adm)@ })
        }),
{
}

} // verus!
