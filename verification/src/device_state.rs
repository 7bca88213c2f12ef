//! The behaviour of the raw PCM audio device module, as a mathematical state machine.

use vstd::prelude::*;

use crate::pacing::{law_no_drift, paced, PERIOD_NS};
use crate::sample_queue::{front, keep_last, padded, rest};
use crate::sample_queue::{
    law_fifo, law_pull_in_pieces, law_push_in_pieces, law_windows_are_contiguous,
};
use crate::sample_queue::{never_overflows, pulled_by, pushed_by, queue_after, QueueEvent};
use crate::sample_queue::{MAX_QUEUED_SAMPLES, SAMPLE_FREQUENCY, WEBRTC_WINDOW};

verus! {

/// What an audio device module is, as far as its behaviour goes.
#[verifier::ext_equal]
pub struct DeviceState {
    /// Samples pushed by native code and not yet sent to the remote peer, oldest first.
    pub mic: Seq<i16>,
    /// Samples received from the remote peer and not yet pulled, oldest first.
    pub speaker: Seq<i16>,
    pub playing: bool,
    pub recording: bool,
    pub playout_initialized: bool,
    pub recording_initialized: bool,
    /// A playout worker was spawned and has not been joined.
    pub playout_thread: bool,
    /// A recording worker was spawned and has not been joined.
    pub recording_thread: bool,
    /// The playout worker is to end.
    pub stop_playout: bool,
    /// The recording worker is to end.
    pub stop_recording: bool,
}

impl DeviceState {
    /// The state of a new module.
    pub open spec fn initial() -> DeviceState {
        DeviceState {
            mic: Seq::empty(),
            speaker: Seq::empty(),
            playing: false,
            recording: false,
            playout_initialized: false,
            recording_initialized: false,
            playout_thread: false,
            recording_thread: false,
            stop_playout: false,
            stop_recording: false,
        }
    }

    /// The queues respect their cap, and a worker that has not been joined belongs to a
    /// direction that is on and has not been told to end.
    pub open spec fn wf(self) -> bool {
        &&& self.mic.len() <= MAX_QUEUED_SAMPLES
        &&& self.speaker.len() <= MAX_QUEUED_SAMPLES
        &&& self.playout_thread ==> self.playing && !self.stop_playout
        &&& self.recording_thread ==> self.recording && !self.stop_recording
    }

    /// `start_playout`: nothing if playout is on, else a worker is spawned.
    pub open spec fn playout_started(self) -> DeviceState {
        if self.playing {
            self
        } else {
            DeviceState { playing: true, stop_playout: false, playout_thread: true, ..self }
        }
    }

    /// `stop_playout`: playout is off and its worker, if there is one, is joined.
    pub open spec fn playout_stopped(self) -> DeviceState {
        DeviceState { playing: false, stop_playout: true, playout_thread: false, ..self }
    }

    /// `start_recording`: nothing if recording is on, else a worker is spawned.
    pub open spec fn recording_started(self) -> DeviceState {
        if self.recording {
            self
        } else {
            DeviceState { recording: true, stop_recording: false, recording_thread: true, ..self }
        }
    }

    /// `stop_recording`: recording is off and its worker, if there is one, is joined.
    pub open spec fn recording_stopped(self) -> DeviceState {
        DeviceState { recording: false, stop_recording: true, recording_thread: false, ..self }
    }

    /// `terminate`: both workers are joined; the module still counts as playing and recording
    /// if it did before.
    pub open spec fn terminated(self) -> DeviceState {
        DeviceState {
            stop_playout: true,
            stop_recording: true,
            playout_thread: false,
            recording_thread: false,
            ..self
        }
    }

    /// Native code pushed `samples`.
    pub open spec fn recorded(self, samples: Seq<i16>) -> DeviceState {
        DeviceState { mic: keep_last(self.mic + samples, MAX_QUEUED_SAMPLES as nat), ..self }
    }

    /// Native code pulled up to `n` samples.
    pub open spec fn pulled(self, n: nat) -> DeviceState {
        DeviceState { speaker: rest(self.speaker, n), ..self }
    }

    /// WebRTC answered a request for play data.
    pub open spec fn played(self, reply: PlayDataReply) -> DeviceState {
        DeviceState {
            speaker: keep_last(self.speaker + reply.decoded(), MAX_QUEUED_SAMPLES as nat),
            ..self
        }
    }

    /// A window was taken off the microphone queue.
    pub open spec fn window_taken(self) -> DeviceState {
        DeviceState { mic: rest(self.mic, WEBRTC_WINDOW as nat), ..self }
    }
}

/// An answer of WebRTC to a request for play data.
pub struct PlayDataReply {
    pub ret: i32,
    pub samples_out: nat,
    pub data: Seq<i16>,
}

impl PlayDataReply {
    /// The decoded samples of the answer: none if it reports a failure.
    pub open spec fn decoded(self) -> Seq<i16> {
        if self.ret == 0 {
            front(self.data, self.samples_out)
        } else {
            Seq::empty()
        }
    }
}

/// One step in the life of a module.
pub enum DeviceEvent {
    StartPlayout,
    StopPlayout,
    StartRecording,
    StopRecording,
    Terminate,
    InitPlayout,
    InitRecording,
    /// Native code pushes samples.
    Push(Seq<i16>),
    /// Native code pulls up to so many samples.
    Pull(nat),
    /// WebRTC answers the playout worker.
    PlayData(PlayDataReply),
    /// The recording worker begins a period.
    RecordingPeriod,
}

impl DeviceState {
    /// The state after `event`.
    pub open spec fn step(self, event: DeviceEvent) -> DeviceState {
        match event {
            DeviceEvent::StartPlayout => self.playout_started(),
            DeviceEvent::StopPlayout => self.playout_stopped(),
            DeviceEvent::StartRecording => self.recording_started(),
            DeviceEvent::StopRecording => self.recording_stopped(),
            DeviceEvent::Terminate => self.terminated(),
            DeviceEvent::InitPlayout => DeviceState { playout_initialized: true, ..self },
            DeviceEvent::InitRecording => DeviceState { recording_initialized: true, ..self },
            DeviceEvent::Push(samples) => self.recorded(samples),
            DeviceEvent::Pull(n) => self.pulled(n),
            DeviceEvent::PlayData(reply) => self.played(reply),
            DeviceEvent::RecordingPeriod => if self.stop_recording {
                self
            } else {
                self.window_taken()
            },
        }
    }
}

impl DeviceEvent {
    /// The event concerns playout.
    pub open spec fn of_playout(self) -> bool {
        self is StartPlayout || self is StopPlayout || self is InitPlayout || self is Pull
            || self is PlayData
    }

    /// The event concerns recording.
    pub open spec fn of_recording(self) -> bool {
        self is StartRecording || self is StopRecording || self is InitRecording || self is Push
            || self is RecordingPeriod
    }

    /// The event moves audio.
    pub open spec fn moves_audio(self) -> bool {
        self is Push || self is Pull || self is PlayData || self is RecordingPeriod
    }
}

/// A new module is in a valid state, and every event keeps a valid state valid.
pub proof fn law_events_keep_the_state_valid(s: DeviceState, event: DeviceEvent)
    requires
        s.wf(),
    ensures
        DeviceState::initial().wf(),
        s.step(event).wf(),
{
}

/// The directions are independent: what concerns one commutes with what concerns the other.
pub proof fn law_directions_are_independent(s: DeviceState, a: DeviceEvent, b: DeviceEvent)
    requires
        a.of_playout(),
        b.of_recording(),
    ensures
        s.step(a).step(b) == s.step(b).step(a),
{
}

/// Only pushes, pulls and the workers move audio; all else leaves the queues alone.
pub proof fn law_control_keeps_queues(s: DeviceState, event: DeviceEvent)
    requires
        !event.moves_audio(),
    ensures
        s.step(event).mic == s.mic,
        s.step(event).speaker == s.speaker,
{
}

/// Once the worker of a direction has been told to end, nothing but a start of that direction
/// takes it back.
pub proof fn law_stop_is_final_until_start(s: DeviceState, event: DeviceEvent)
    ensures
        s.stop_playout && !(event is StartPlayout) ==> s.step(event).stop_playout,
        s.stop_recording && !(event is StartRecording) ==> s.step(event).stop_recording,
{
}

/// Initialization is never taken back, and is on only where it was asked for.
pub proof fn law_initialization_stays(s: DeviceState, event: DeviceEvent)
    ensures
        s.step(event).playout_initialized <==> s.playout_initialized || event is InitPlayout,
        s.step(event).recording_initialized <==> s.recording_initialized || event is InitRecording,
{
}

/// A direction never has two workers: where a start spawns one, none is left from before; and
/// after a start that spawned one, a further start spawns none and changes nothing.
pub proof fn law_one_worker_per_direction(s: DeviceState)
    requires
        s.wf(),
    ensures
        !s.playing ==> !s.playout_thread && s.playout_started().playout_thread,
        !s.recording ==> !s.recording_thread && s.recording_started().recording_thread,
        s.playout_started().playing,
        s.playout_started().playout_started() == s.playout_started(),
        s.recording_started().recording,
        s.recording_started().recording_started() == s.recording_started(),
{
}

/// Stopping undoes starting: but for the raised stop flag, a stop returns a direction that was
/// off to where it was, with no worker left; and stopping twice is stopping once.
pub proof fn law_stop_undoes_start(s: DeviceState)
    requires
        s.wf(),
    ensures
        !s.playing ==> s.playout_started().playout_stopped() == (DeviceState {
            stop_playout: true,
            ..s
        }),
        !s.recording ==> s.recording_started().recording_stopped() == (DeviceState {
            stop_recording: true,
            ..s
        }),
        s.playout_stopped().playout_stopped() == s.playout_stopped(),
        s.recording_stopped().recording_stopped() == s.recording_stopped(),
{
}

/// A direction can be started again after a stop, with a fresh worker that is not told to end.
pub proof fn law_restart(s: DeviceState)
    requires
        s.wf(),
    ensures
        !s.playout_stopped().playing,
        s.playout_stopped().playout_started().playout_thread,
        !s.playout_stopped().playout_started().stop_playout,
        !s.recording_stopped().recording,
        s.recording_stopped().recording_started().recording_thread,
        !s.recording_stopped().recording_started().stop_recording,
{
}

/// Terminating ends both workers but leaves the directions on: a direction that was on spawns
/// no worker on the next start, until it has been stopped.
pub proof fn law_terminate_leaves_directions_on(s: DeviceState)
    requires
        s.wf(),
    ensures
        !s.terminated().playout_thread && s.terminated().stop_playout,
        !s.terminated().recording_thread && s.terminated().stop_recording,
        s.playing ==> s.terminated().playout_started() == s.terminated(),
        s.recording ==> s.terminated().recording_started() == s.terminated(),
        s.terminated().playout_stopped().playout_started().playout_thread,
        s.terminated().recording_stopped().recording_started().recording_thread,
        s.terminated().terminated() == s.terminated(),
{
}

/// The state after WebRTC gave `replies` to a playout worker, one in each period.
pub open spec fn played_all(s: DeviceState, replies: Seq<PlayDataReply>) -> DeviceState
    decreases replies.len(),
{
    if replies.len() == 0 {
        s
    } else {
        played_all(s, replies.drop_last()).played(replies.last())
    }
}

/// The decoded audio of `replies`, joined.
pub open spec fn decoded_all(replies: Seq<PlayDataReply>) -> Seq<i16>
    decreases replies.len(),
{
    if replies.len() == 0 {
        Seq::empty()
    } else {
        decoded_all(replies.drop_last()) + replies.last().decoded()
    }
}

/// The state after a recording worker took `periods` windows.
pub open spec fn windows_taken(s: DeviceState, periods: nat) -> DeviceState
    decreases periods,
{
    if periods == 0 {
        s
    } else {
        windows_taken(s, (periods - 1) as nat).window_taken()
    }
}

/// The audio that a recording worker handed to WebRTC over `periods` windows, joined.
pub open spec fn sent_audio(s: DeviceState, periods: nat) -> Seq<i16>
    decreases periods,
{
    if periods == 0 {
        Seq::empty()
    } else {
        sent_audio(s, (periods - 1) as nat) + padded(
            windows_taken(s, (periods - 1) as nat).mic,
            WEBRTC_WINDOW as nat,
        )
    }
}

/// However the decoded audio is cut into replies, and whichever of them fail, the speaker queue
/// ends up with the newest of it that the cap admits.
pub proof fn law_decoded_audio_reaches_the_speaker(s: DeviceState, replies: Seq<PlayDataReply>)
    requires
        s.wf(),
    ensures
        played_all(s, replies) == (DeviceState {
            speaker: keep_last(s.speaker + decoded_all(replies), MAX_QUEUED_SAMPLES as nat),
            ..s
        }),
    decreases replies.len(),
{
    if replies.len() == 0 {
        assert(s.speaker + decoded_all(replies) =~= s.speaker);
    } else {
        law_decoded_audio_reaches_the_speaker(s, replies.drop_last());
        law_push_in_pieces(
            s.speaker,
            decoded_all(replies.drop_last()),
            replies.last().decoded(),
            MAX_QUEUED_SAMPLES as nat,
        );
    }
}

/// Raw PCM can be pulled out: as long as the cap admits it, native code pulls from a new module
/// exactly what WebRTC decoded, in order.
pub proof fn law_decoded_audio_can_be_pulled(replies: Seq<PlayDataReply>, n: nat)
    requires
        decoded_all(replies).len() <= MAX_QUEUED_SAMPLES,
    ensures
        front(played_all(DeviceState::initial(), replies).speaker, n) == front(
            decoded_all(replies),
            n,
        ),
        played_all(DeviceState::initial(), replies).pulled(n).speaker == rest(
            decoded_all(replies),
            n,
        ),
{
    law_decoded_audio_reaches_the_speaker(DeviceState::initial(), replies);
    assert(Seq::<i16>::empty() + decoded_all(replies) =~= decoded_all(replies));
}

/// A recording worker sends the queued audio in order and without a gap, one window in each
/// period, and silence once the queue has run dry.
pub proof fn law_queued_audio_is_sent(s: DeviceState, periods: nat)
    ensures
        sent_audio(s, periods) == padded(s.mic, periods * WEBRTC_WINDOW as nat),
        windows_taken(s, periods) == (DeviceState {
            mic: rest(s.mic, periods * WEBRTC_WINDOW as nat),
            ..s
        }),
    decreases periods,
{
    let window = WEBRTC_WINDOW as nat;
    if periods == 0 {
        assert(sent_audio(s, periods) =~= padded(s.mic, 0));
        assert(rest(s.mic, 0) =~= s.mic);
    } else {
        let before = (periods - 1) as nat;
        law_queued_audio_is_sent(s, before);
        assert(before * window + window == periods * window) by (nonlinear_arith)
            requires
                before == periods - 1,
        ;
        law_windows_are_contiguous(s.mic, before * window, window);
        law_pull_in_pieces(s.mic, before * window, window);
    }
}

/// Audio keeps pace with the clock: what a recording worker has sent amounts to the sample rate
/// times the time from the start of its schedule to its deadline, however long its work takes.
pub proof fn law_rate_matches_the_clock(s: DeviceState, start: int, work: Seq<nat>)
    ensures
        sent_audio(s, work.len()).len() * 1_000_000_000 == SAMPLE_FREQUENCY * (paced(
            start,
            work,
        ).0 - start),
{
    law_queued_audio_is_sent(s, work.len());
    law_no_drift(start, work);
    let periods = work.len();
    assert(periods * WEBRTC_WINDOW * 1_000_000_000 == SAMPLE_FREQUENCY * (periods * PERIOD_NS))
        by (nonlinear_arith)
        requires
            WEBRTC_WINDOW == 480,
            SAMPLE_FREQUENCY == 48_000,
            PERIOD_NS == 10_000_000,
    ;
}

/// Raw PCM can be injected: as long as the cap admits it, what native code pushes into a new
/// module is what WebRTC is handed, in order and followed by silence.
pub proof fn law_pushed_audio_is_sent(samples: Seq<i16>, periods: nat)
    requires
        samples.len() <= MAX_QUEUED_SAMPLES,
    ensures
        sent_audio(DeviceState::initial().recorded(samples), periods) == padded(
            samples,
            periods * WEBRTC_WINDOW as nat,
        ),
{
    law_queued_audio_is_sent(DeviceState::initial().recorded(samples), periods);
    assert(Seq::<i16>::empty() + samples =~= samples);
}

/// The state of a module that was new and went through `events`.
pub open spec fn device_after(events: Seq<DeviceEvent>) -> DeviceState
    decreases events.len(),
{
    if events.len() == 0 {
        DeviceState::initial()
    } else {
        device_after(events.drop_last()).step(events.last())
    }
}

/// What `events` did to the microphone queue.
pub open spec fn mic_events(events: Seq<DeviceEvent>) -> Seq<QueueEvent>
    decreases events.len(),
{
    if events.len() == 0 {
        Seq::empty()
    } else {
        let before = mic_events(events.drop_last());
        match events.last() {
            DeviceEvent::Push(samples) => before.push(QueueEvent::Push(samples)),
            DeviceEvent::RecordingPeriod if !device_after(
                events.drop_last(),
            ).stop_recording => before.push(QueueEvent::Pull(WEBRTC_WINDOW as nat)),
            _ => before,
        }
    }
}

/// What `events` did to the speaker queue.
pub open spec fn speaker_events(events: Seq<DeviceEvent>) -> Seq<QueueEvent>
    decreases events.len(),
{
    if events.len() == 0 {
        Seq::empty()
    } else {
        let before = speaker_events(events.drop_last());
        match events.last() {
            DeviceEvent::PlayData(reply) => before.push(QueueEvent::Push(reply.decoded())),
            DeviceEvent::Pull(n) => before.push(QueueEvent::Pull(n)),
            _ => before,
        }
    }
}

/// How many playout workers `events` spawned, less those joined.
pub open spec fn playout_workers(events: Seq<DeviceEvent>) -> int
    decreases events.len(),
{
    if events.len() == 0 {
        0
    } else {
        let s = device_after(events.drop_last());
        let before = playout_workers(events.drop_last());
        match events.last() {
            DeviceEvent::StartPlayout if !s.playing => before + 1,
            DeviceEvent::StopPlayout if s.playout_thread => before - 1,
            DeviceEvent::Terminate if s.playout_thread => before - 1,
            _ => before,
        }
    }
}

/// How many recording workers `events` spawned, less those joined.
pub open spec fn recording_workers(events: Seq<DeviceEvent>) -> int
    decreases events.len(),
{
    if events.len() == 0 {
        0
    } else {
        let s = device_after(events.drop_last());
        let before = recording_workers(events.drop_last());
        match events.last() {
            DeviceEvent::StartRecording if !s.recording => before + 1,
            DeviceEvent::StopRecording if s.recording_thread => before - 1,
            DeviceEvent::Terminate if s.recording_thread => before - 1,
            _ => before,
        }
    }
}

/// Whatever its history, a module is in a valid state.
pub proof fn law_every_history_is_valid(events: Seq<DeviceEvent>)
    ensures
        device_after(events).wf(),
    decreases events.len(),
{
    if events.len() > 0 {
        law_every_history_is_valid(events.drop_last());
    }
}

/// Whatever its history, a module has at most one worker per direction that was spawned and not
/// joined, and none once it has been stopped or terminated.
pub proof fn law_workers_are_balanced(events: Seq<DeviceEvent>)
    ensures
        playout_workers(events) == if device_after(events).playout_thread {
            1int
        } else {
            0
        },
        recording_workers(events) == if device_after(events).recording_thread {
            1int
        } else {
            0
        },
        device_after(events).stop_playout ==> playout_workers(events) == 0,
        device_after(events).stop_recording ==> recording_workers(events) == 0,
    decreases events.len(),
{
    law_every_history_is_valid(events);
    if events.len() > 0 {
        law_every_history_is_valid(events.drop_last());
        law_workers_are_balanced(events.drop_last());
    }
}

/// Whatever its history, each queue of a module is as if what concerns that queue were all that
/// ever happened: what holds of queues holds of the module.
pub proof fn law_queues_follow_their_own_history(events: Seq<DeviceEvent>)
    ensures
        device_after(events).mic == queue_after(mic_events(events)),
        device_after(events).speaker == queue_after(speaker_events(events)),
    decreases events.len(),
{
    if events.len() > 0 {
        law_queues_follow_their_own_history(events.drop_last());
        let mic = mic_events(events.drop_last());
        let speaker = speaker_events(events.drop_last());
        assert forall|e: QueueEvent| #[trigger] mic.push(e).drop_last() == mic by {
            assert(mic.push(e).drop_last() =~= mic);
        }
        assert forall|e: QueueEvent| #[trigger] speaker.push(e).drop_last() == speaker by {
            assert(speaker.push(e).drop_last() =~= speaker);
        }
    }
}

/// Audio passes a module unchanged in both directions, whatever else happens in between: as long
/// as a queue does not overflow, what was taken out of it, followed by what it still holds, is
/// what was put in.
pub proof fn law_audio_passes_unchanged(events: Seq<DeviceEvent>)
    ensures
        never_overflows(mic_events(events)) ==> pulled_by(mic_events(events)) + device_after(
            events,
        ).mic == pushed_by(mic_events(events)),
        never_overflows(speaker_events(events)) ==> pulled_by(speaker_events(events))
            + device_after(events).speaker == pushed_by(speaker_events(events)),
{
    law_queues_follow_their_own_history(events);
    if never_overflows(mic_events(events)) {
        law_fifo(mic_events(events));
    }
    if never_overflows(speaker_events(events)) {
        law_fifo(speaker_events(events));
    }
}

} // verus!
