# signal2sip

The core of a gateway between Signal calls and SIP. It replaces the sound device of a call with
two queues of raw PCM (mono, 48 kHz, 16 bit) and offers call control to C. The logic is verified
with Verus; threads, pointers and the call engine stay outside of it.

- `src/sample_queue.rs`: a bounded first-in, first-out queue of samples, which drops the oldest
  ones beyond two seconds.
- `src/pacing.rs`: the schedule of the worker threads, which does not drift.
- `src/device_state.rs`: the audio device module as a mathematical state machine, and what holds
  of all its histories.
- `src/raw_pcm_audio_device_module.rs`: the audio device module itself.
- `src/worker.rs`: the worker threads period by period, which join the module and the schedule.
- `src/c_string.rs`: peer identifiers as they cross the C boundary.
- `src/callbacks.rs`: what the call engine reports, as invocations of C callbacks.
- `src/call_manager.rs`: what each C entry point asks of the engine, and what it answers.
- `app/`: the C interface. It runs the worker threads, turns pointers into values, and makes the
  calls that the library names. A call engine is plugged in through `app/engine.rs`.

The library trusts one function besides what Verus's standard library specifies:
`String::from_utf8_lossy`, in `src/c_string.rs`.
