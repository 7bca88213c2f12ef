//! Bounded first-in, first-out queues of PCM samples.

use std::collections::VecDeque;
use vstd::prelude::*;

verus! {

/// Samples per second of every stream (mono, 48 kHz, `i16`).
pub const SAMPLE_FREQUENCY: u32 = 48_000;

/// Channels of every stream.
pub const NUM_CHANNELS: u32 = 1;

/// Samples that WebRTC provides or consumes at a time: ten milliseconds.
pub const WEBRTC_WINDOW: usize = 480;

/// Cap on queued but unconsumed audio: two seconds, so that a side that stops
/// pulling or pushing does not grow a queue without bound.
pub const MAX_QUEUED_SAMPLES: usize = 96_000;

/// The last `cap` elements of `s`, or all of them if there are no more.
pub open spec fn keep_last(s: Seq<i16>, cap: nat) -> Seq<i16> {
    if s.len() <= cap {
        s
    } else {
        s.skip(s.len() - cap)
    }
}

/// The first `n` elements of `s`, or all of them if there are no more.
pub open spec fn front(s: Seq<i16>, n: nat) -> Seq<i16> {
    if n <= s.len() {
        s.take(n as int)
    } else {
        s
    }
}

/// What is left of `s` once `front(s, n)` has been removed.
pub open spec fn rest(s: Seq<i16>, n: nat) -> Seq<i16> {
    if n <= s.len() {
        s.skip(n as int)
    } else {
        Seq::empty()
    }
}

/// The first `n` elements of what `s`, followed by endless silence, holds.
pub open spec fn padded(s: Seq<i16>, n: nat) -> Seq<i16> {
    Seq::new(
        n,
        |i: int|
            if i < s.len() {
                s[i]
            } else {
                0
            },
    )
}

/// A queue of samples that never holds more than [`MAX_QUEUED_SAMPLES`].
#[derive(Debug)]
pub struct SampleQueue {
    samples: VecDeque<i16>,
}

impl View for SampleQueue {
    type V = Seq<i16>;

    closed spec fn view(&self) -> Seq<i16> {
        self.samples@
    }
}

impl SampleQueue {
    /// The queue respects its cap.
    pub open spec fn wf(&self) -> bool {
        self@.len() <= MAX_QUEUED_SAMPLES
    }

    /// An empty queue.
    pub fn new() -> (queue: Self)
        ensures
            queue.wf(),
            queue@ == Seq::<i16>::empty(),
    {
        SampleQueue { samples: VecDeque::new() }
    }

    /// Appends `samples`; once the cap is exceeded the oldest samples are dropped.
    pub fn push(&mut self, samples: &[i16])
        requires
            old(self).wf(),
        ensures
            final(self).wf(),
            final(self)@ == keep_last(old(self)@ + samples@, MAX_QUEUED_SAMPLES as nat),
    {
        let ghost before = self@;
        let mut i: usize = 0;
        assert(before + samples@.take(0) =~= before);
        while i < samples.len()
            invariant
                i <= samples@.len(),
                self.wf(),
                self@ == keep_last(before + samples@.take(i as int), MAX_QUEUED_SAMPLES as nat),
            decreases samples@.len() - i,
        {
            self.samples.push_back(samples[i]);
            if self.samples.len() > MAX_QUEUED_SAMPLES {
                let _ = self.samples.pop_front();
            }
            assert(self@ =~= keep_last(
                before + samples@.take(i as int + 1),
                MAX_QUEUED_SAMPLES as nat,
            ));
            i = i + 1;
        }
        assert(samples@.take(i as int) =~= samples@);
    }

    /// Removes up to `max_samples` of the oldest samples and hands them out in order.
    pub fn pull(&mut self, max_samples: usize) -> (pulled: Vec<i16>)
        requires
            old(self).wf(),
        ensures
            final(self).wf(),
            pulled@ == front(old(self)@, max_samples as nat),
            final(self)@ == rest(old(self)@, max_samples as nat),
    {
        let ghost before = self@;
        let mut pulled: Vec<i16> = Vec::new();
        while pulled.len() < max_samples && self.samples.len() > 0
            invariant
                pulled@.len() <= max_samples,
                pulled@ + self@ =~= before,
            decreases self@.len(),
        {
            if let Some(sample) = self.samples.pop_front() {
                pulled.push(sample);
            }
        }
        assert(pulled@ =~= front(before, max_samples as nat));
        assert(self@ =~= rest(before, max_samples as nat));
        pulled
    }

    /// Removes the next window of samples; on underrun the missing tail is silence.
    pub fn pull_window(&mut self) -> (window: Vec<i16>)
        requires
            old(self).wf(),
        ensures
            final(self).wf(),
            window@ == padded(old(self)@, WEBRTC_WINDOW as nat),
            final(self)@ == rest(old(self)@, WEBRTC_WINDOW as nat),
    {
        let ghost before = self@;
        let mut window = self.pull(WEBRTC_WINDOW);
        window.resize(WEBRTC_WINDOW, 0);
        assert(window@ =~= padded(before, WEBRTC_WINDOW as nat));
        window
    }
}

/// One step in the life of a queue: samples were pushed, or up to so many were pulled.
pub enum QueueEvent {
    Push(Seq<i16>),
    Pull(nat),
}

/// Contents of a queue that started empty and went through `events`.
pub open spec fn queue_after(events: Seq<QueueEvent>) -> Seq<i16>
    decreases events.len(),
{
    if events.len() == 0 {
        Seq::empty()
    } else {
        let before = queue_after(events.drop_last());
        match events.last() {
            QueueEvent::Push(samples) => keep_last(before + samples, MAX_QUEUED_SAMPLES as nat),
            QueueEvent::Pull(n) => rest(before, n),
        }
    }
}

/// Everything that `events` pushed, in order.
pub open spec fn pushed_by(events: Seq<QueueEvent>) -> Seq<i16>
    decreases events.len(),
{
    if events.len() == 0 {
        Seq::empty()
    } else {
        let before = pushed_by(events.drop_last());
        match events.last() {
            QueueEvent::Push(samples) => before + samples,
            QueueEvent::Pull(_) => before,
        }
    }
}

/// Everything that `events` pulled out of a queue that started empty, in order.
pub open spec fn pulled_by(events: Seq<QueueEvent>) -> Seq<i16>
    decreases events.len(),
{
    if events.len() == 0 {
        Seq::empty()
    } else {
        let before = pulled_by(events.drop_last());
        match events.last() {
            QueueEvent::Push(_) => before,
            QueueEvent::Pull(n) => before + front(queue_after(events.drop_last()), n),
        }
    }
}

/// No push of `events` found the queue too full for its samples.
pub open spec fn never_overflows(events: Seq<QueueEvent>) -> bool
    decreases events.len(),
{
    events.len() == 0 || {
        &&& never_overflows(events.drop_last())
        &&& match events.last() {
            QueueEvent::Push(samples) => queue_after(events.drop_last()).len() + samples.len()
                <= MAX_QUEUED_SAMPLES,
            QueueEvent::Pull(_) => true,
        }
    }
}

/// `part` can be had from `whole` by leaving elements out.
pub open spec fn picked_from(part: Seq<i16>, whole: Seq<i16>) -> bool
    decreases whole.len(),
{
    part.len() == 0 || (whole.len() > 0 && (picked_from(part, whole.drop_last()) || (part.last()
        == whole.last() && picked_from(part.drop_last(), whole.drop_last()))))
}

/// Streams are mono at 48 kHz; a window lasts ten milliseconds, and the cap is two seconds, of the
/// sample rate.
pub proof fn law_durations()
    ensures
        SAMPLE_FREQUENCY == 48_000,
        NUM_CHANNELS == 1,
        WEBRTC_WINDOW == 480,
        MAX_QUEUED_SAMPLES == 96_000,
        WEBRTC_WINDOW * 100 == SAMPLE_FREQUENCY,
        MAX_QUEUED_SAMPLES == 2 * SAMPLE_FREQUENCY,
        MAX_QUEUED_SAMPLES == 200 * WEBRTC_WINDOW,
{
}

/// Pushing two buffers one after the other leaves the queue as pushing them joined.
pub proof fn law_push_in_pieces(queue: Seq<i16>, a: Seq<i16>, b: Seq<i16>, cap: nat)
    ensures
        keep_last(keep_last(queue + a, cap) + b, cap) == keep_last(queue + (a + b), cap),
{
    assert(keep_last(keep_last(queue + a, cap) + b, cap) =~= keep_last(queue + (a + b), cap));
}

/// A push never leaves more than the cap, and what it drops is the oldest part alone.
pub proof fn law_push_drops_the_oldest(queue: Seq<i16>, samples: Seq<i16>, cap: nat)
    ensures
        keep_last(queue + samples, cap).len() <= cap,
        exists|dropped: Seq<i16>| #[trigger]
            (dropped + keep_last(queue + samples, cap)) == queue + samples,
        queue.len() + samples.len() <= cap ==> keep_last(queue + samples, cap) == queue + samples,
{
    let all = queue + samples;
    let kept = keep_last(all, cap);
    let dropped = all.take(all.len() - kept.len());
    assert(dropped + kept =~= all);
}

/// What is pulled and what is left make up what was there.
pub proof fn law_pull_splits(queue: Seq<i16>, n: nat)
    ensures
        front(queue, n) + rest(queue, n) == queue,
        front(queue, n).len() <= n,
{
    assert(front(queue, n) + rest(queue, n) =~= queue);
}

/// Two pulls hand out together what one pull of both sizes does.
pub proof fn law_pull_in_pieces(queue: Seq<i16>, m: nat, n: nat)
    ensures
        front(queue, m) + front(rest(queue, m), n) == front(queue, m + n),
        rest(rest(queue, m), n) == rest(queue, m + n),
{
    assert(front(queue, m) + front(rest(queue, m), n) =~= front(queue, m + n));
    assert(rest(rest(queue, m), n) =~= rest(queue, m + n));
}

/// A window is what a pull would hand out, followed by silence alone.
pub proof fn law_window_is_a_pull_and_silence(queue: Seq<i16>, n: nat)
    ensures
        padded(queue, n).len() == n,
        front(padded(queue, n), front(queue, n).len()) == front(queue, n),
        forall|i: int| front(queue, n).len() <= i < n ==> #[trigger] padded(queue, n)[i] == 0,
{
    assert(front(padded(queue, n), front(queue, n).len()) =~= front(queue, n));
}

/// Two windows in a row carry the stream on without a gap.
pub proof fn law_windows_are_contiguous(queue: Seq<i16>, m: nat, n: nat)
    ensures
        padded(queue, m) + padded(rest(queue, m), n) == padded(queue, m + n),
{
    assert(padded(queue, m) + padded(rest(queue, m), n) =~= padded(queue, m + n));
}

/// A queue that never overflows loses, invents and reorders nothing: what came out, followed by
/// what is still inside, is what went in.
pub proof fn law_fifo(events: Seq<QueueEvent>)
    requires
        never_overflows(events),
    ensures
        pulled_by(events) + queue_after(events) == pushed_by(events),
    decreases events.len(),
{
    if events.len() > 0 {
        law_fifo(events.drop_last());
        let queue = queue_after(events.drop_last());
        match events.last() {
            QueueEvent::Push(samples) => {
                assert(pulled_by(events) + queue_after(events) =~= pushed_by(events));
            },
            QueueEvent::Pull(n) => {
                law_pull_splits(queue, n);
                assert(pulled_by(events) + queue_after(events) =~= pulled_by(events.drop_last())
                    + queue);
            },
        }
    } else {
        assert(pulled_by(events) + queue_after(events) =~= pushed_by(events));
    }
}

/// Whatever its history, a queue respects its cap and holds the newest samples pushed.
pub proof fn law_queue_holds_the_newest(events: Seq<QueueEvent>)
    ensures
        queue_after(events).len() <= MAX_QUEUED_SAMPLES,
        queue_after(events) == keep_last(pushed_by(events), queue_after(events).len()),
    decreases events.len(),
{
    if events.len() > 0 {
        law_queue_holds_the_newest(events.drop_last());
        assert(queue_after(events) =~= keep_last(pushed_by(events), queue_after(events).len()));
    } else {
        assert(queue_after(events) =~= keep_last(pushed_by(events), queue_after(events).len()));
    }
}

proof fn lemma_picked_append(part: Seq<i16>, whole: Seq<i16>, tail: Seq<i16>)
    requires
        picked_from(part, whole),
    ensures
        picked_from(part + tail, whole + tail),
    decreases tail.len(),
{
    if tail.len() == 0 {
        assert(part + tail =~= part);
        assert(whole + tail =~= whole);
    } else {
        lemma_picked_append(part, whole, tail.drop_last());
        assert((part + tail).drop_last() =~= part + tail.drop_last());
        assert((whole + tail).drop_last() =~= whole + tail.drop_last());
    }
}

proof fn lemma_picked_leave_out(a: Seq<i16>, out: Seq<i16>, b: Seq<i16>, whole: Seq<i16>)
    requires
        picked_from(a + out + b, whole),
    ensures
        picked_from(a + b, whole),
    decreases whole.len(),
{
    let part = a + out + b;
    if (a + b).len() > 0 {
        if picked_from(part, whole.drop_last()) {
            lemma_picked_leave_out(a, out, b, whole.drop_last());
        } else if b.len() > 0 {
            assert(part.drop_last() =~= a + out + b.drop_last());
            lemma_picked_leave_out(a, out, b.drop_last(), whole.drop_last());
            assert((a + b).drop_last() =~= a + b.drop_last());
        } else if out.len() > 0 {
            assert(part.drop_last() =~= a + out.drop_last() + b);
            lemma_picked_leave_out(a, out.drop_last(), b, whole.drop_last());
        } else {
            assert(a + b =~= part);
        }
    }
}

/// Even when the cap makes a queue drop samples, none is repeated or moved ahead of an older
/// one: what came out, followed by what is still inside, is what went in with some left out.
pub proof fn law_overflow_keeps_order(events: Seq<QueueEvent>)
    ensures
        picked_from(pulled_by(events) + queue_after(events), pushed_by(events)),
    decreases events.len(),
{
    if events.len() > 0 {
        law_overflow_keeps_order(events.drop_last());
        let pulled = pulled_by(events.drop_last());
        let queue = queue_after(events.drop_last());
        match events.last() {
            QueueEvent::Push(samples) => {
                let all = queue + samples;
                let kept = keep_last(all, MAX_QUEUED_SAMPLES as nat);
                let dropped = all.take(all.len() - kept.len());
                lemma_picked_append(pulled + queue, pushed_by(events.drop_last()), samples);
                assert(pulled + queue + samples =~= pulled + dropped + kept);
                lemma_picked_leave_out(pulled, dropped, kept, pushed_by(events));
            },
            QueueEvent::Pull(n) => {
                law_pull_splits(queue, n);
                assert(pulled_by(events) + queue_after(events) =~= pulled + queue);
            },
        }
    }
}

/// A push puts every sample, whatever its value, behind those that are there, and lets go of the
/// oldest beyond two seconds.
pub proof fn law_push_keeps_every_sample(queue: &mut SampleQueue, samples: &[i16])
    requires
        call_ensures(SampleQueue::push, (queue, samples), ()),
    ensures
        ({
            let before = old(queue)@;
            let after = final(queue)@;
            let total = before.len() + samples@.len();
            let dropped = if total > 96_000 {
                total - 96_000
            } else {
                0
            };
            &&& after.len() == total - dropped
            &&& forall|i: int|
                dropped <= i < before.len() ==> after[i - dropped] == #[trigger] before[i]
            &&& forall|i: int|
                0 <= i < samples@.len() && dropped <= before.len() + i ==> after[before.len() + i
                    - dropped] == #[trigger] samples@[i]
        }),
{
}

/// A pull hands out the oldest samples as they are, as many as are asked for or are there, and
/// the others move up.
pub proof fn law_pull_hands_out_the_oldest(
    queue: &mut SampleQueue,
    max_samples: usize,
    pulled: Vec<i16>,
)
    requires
        call_ensures(SampleQueue::pull, (queue, max_samples), pulled),
    ensures
        ({
            let before = old(queue)@;
            let after = final(queue)@;
            &&& pulled@.len() == if max_samples < before.len() {
                max_samples as nat
            } else {
                before.len()
            }
            &&& after.len() == before.len() - pulled@.len()
            &&& forall|i: int| 0 <= i < pulled@.len() ==> #[trigger] pulled@[i] == before[i]
            &&& forall|i: int|
                0 <= i < after.len() ==> #[trigger] after[i] == before[pulled@.len() + i]
        }),
{
}

/// A window is 480 samples long: the oldest of the queue as they are, and zeros from where the
/// queue has run dry.
pub proof fn law_window_holds_the_oldest(queue: &mut SampleQueue, window: Vec<i16>)
    requires
        call_ensures(SampleQueue::pull_window, (queue,), window),
    ensures
        ({
            let before = old(queue)@;
            let after = final(queue)@;
            &&& window@.len() == 480
            &&& forall|i: int|
                0 <= i < 480 ==> #[trigger] window@[i] == if i < before.len() {
                    before[i]
                } else {
                    0
                }
            &&& after.len() == if before.len() > 480 {
                before.len() - 480
            } else {
                0
            }
            &&& forall|i: int| 0 <= i < after.len() ==> #[trigger] after[i] == before[480 + i]
        }),
{
}

/// What comes out of a new queue after two pushes is the samples of the first and then those of
/// the second, without the oldest beyond two seconds.
pub proof fn law_pushed_samples_come_out(
    queue: SampleQueue,
    first: &mut SampleQueue,
    a: &[i16],
    second: &mut SampleQueue,
    b: &[i16],
    third: &mut SampleQueue,
    max_samples: usize,
    pulled: Vec<i16>,
)
    requires
        call_ensures(SampleQueue::new, (), queue),
        *old(first) == queue,
        call_ensures(SampleQueue::push, (first, a), ()),
        *old(second) == *final(first),
        call_ensures(SampleQueue::push, (second, b), ()),
        *old(third) == *final(second),
        call_ensures(SampleQueue::pull, (third, max_samples), pulled),
    ensures
        ({
            let pushed = a@ + b@;
            let dropped = if pushed.len() > 96_000 {
                pushed.len() - 96_000
            } else {
                0
            };
            &&& pulled@.len() == if max_samples < pushed.len() - dropped {
                max_samples as int
            } else {
                pushed.len() - dropped
            }
            &&& forall|i: int|
                0 <= i < pulled@.len() ==> #[trigger] pulled@[i] == pushed[dropped + i]
        }),
{
}

} // verus!
