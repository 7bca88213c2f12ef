use signal2sip::call_manager::{
    signal2sip_call_accept, signal2sip_call_hangup, signal2sip_call_manager_create,
    signal2sip_call_message_send_failure, signal2sip_call_message_sent, signal2sip_call_proceed,
    signal2sip_call_received_answer, signal2sip_call_received_ice, signal2sip_call_received_offer,
    signal2sip_call_start_outgoing, signal2sip_pull_playout_samples,
    signal2sip_push_recorded_samples, AudioConfig, CallConfig, EngineCall, Progress, SetupCall,
};
use signal2sip::callbacks::{Answer, CallMediaType, CallState, Callbacks, Message};
use signal2sip::raw_pcm_audio_device_module::RawPcmAudioDeviceModule;

fn pending<P, R>(progress: Progress<P, R>) -> P {
    match progress {
        Progress::Pending(call) => call,
        Progress::Finished(_) => panic!("no call is pending"),
    }
}

fn finished<P, R>(progress: Progress<P, R>) -> R {
    match progress {
        Progress::Finished(answer) => answer,
        Progress::Pending(_) => panic!("a call is still pending"),
    }
}

/// The answer of an entry point and the number of engine calls, which turn out as `outcomes`.
fn run(mut progress: Progress<EngineCall, bool>, outcomes: &[bool]) -> (bool, usize) {
    let mut made = 0;
    loop {
        match progress {
            Progress::Finished(answer) => return (answer, made),
            Progress::Pending(call) => {
                progress = call.resume(outcomes[made]);
                made += 1;
            }
        }
    }
}

#[test]
fn a_null_handle_is_answered_at_once() {
    let bytes: &[u8] = &[1];
    assert!(!finished(signal2sip_call_received_offer(true, Some(b"bob"), 1, 2, 3, Some(bytes))));
    assert!(!finished(signal2sip_call_received_answer(true, Some(b"bob"), 1, 2, Some(bytes))));
    assert!(!finished(signal2sip_call_received_ice(true, Some(b"bob"), 1, 2, Some(bytes))));
    assert!(!finished(signal2sip_call_accept(true, 1)));
    assert!(!finished(signal2sip_call_proceed(true, 1)));
    assert!(!finished(signal2sip_call_message_sent(true, 1)));
    assert!(!finished(signal2sip_call_message_send_failure(true, 1)));
    assert!(!finished(signal2sip_call_hangup(true)));
    assert_eq!(finished(signal2sip_call_start_outgoing(true, Some(b"bob"), 1)), 0);
}

#[test]
fn a_null_opaque_is_answered_at_once() {
    assert!(!finished(signal2sip_call_received_offer(false, Some(b"bob"), 1, 2, 3, None)));
    assert!(!finished(signal2sip_call_received_answer(false, Some(b"bob"), 1, 2, None)));
    assert!(!finished(signal2sip_call_received_ice(false, Some(b"bob"), 1, 2, None)));
}

#[test]
fn an_offer_is_parsed_and_handed_over() {
    let call = pending(signal2sip_call_received_offer(
        false,
        Some(b"bob"),
        11,
        22,
        33,
        Some(&[1, 2]),
    ));
    assert!(matches!(&call, EngineCall::NewOffer { .. }));
    match pending(call.resume(true)) {
        EngineCall::ReceivedOffer { remote_peer_id, call_id, offer } => {
            assert_eq!(remote_peer_id, "bob");
            assert_eq!(call_id, 11);
            assert_eq!(offer.call_media_type, CallMediaType::Audio);
            assert_eq!(offer.opaque, vec![1, 2]);
            assert_eq!(offer.age_secs, 0);
            assert_eq!(offer.sender_device_id, 22);
            assert_eq!(offer.receiver_device_id, 33);
            assert_eq!(offer.sender_identity_key, vec![0; 32]);
            assert_eq!(offer.receiver_identity_key, vec![0; 32]);
        }
        other => panic!("{:?}", other),
    }
}

#[test]
fn an_answer_is_parsed_and_handed_over() {
    let call = pending(signal2sip_call_received_answer(false, None, 11, 22, Some(&[])));
    assert!(matches!(&call, EngineCall::NewAnswer { .. }));
    match pending(call.resume(true)) {
        EngineCall::ReceivedAnswer { remote_peer_id, call_id, answer } => {
            assert_eq!(remote_peer_id, "");
            assert_eq!(call_id, 11);
            assert_eq!(answer.opaque, Vec::<u8>::new());
            assert_eq!(answer.sender_device_id, 22);
            assert_eq!(answer.sender_identity_key, vec![0; 32]);
            assert_eq!(answer.receiver_identity_key, vec![0; 32]);
        }
        other => panic!("{:?}", other),
    }
}

#[test]
fn an_ice_candidate_is_handed_over() {
    match pending(signal2sip_call_received_ice(false, Some(&[b'b', 0xff]), 11, 22, Some(&[7]))) {
        EngineCall::ReceivedIce { remote_peer_id, call_id, ice, sender_device_id } => {
            assert_eq!(remote_peer_id, "b\u{fffd}");
            assert_eq!(call_id, 11);
            assert_eq!(ice.candidates.len(), 1);
            assert_eq!(ice.candidates[0].opaque, vec![7]);
            assert_eq!(sender_device_id, 22);
        }
        other => panic!("{:?}", other),
    }
}

#[test]
fn proceeding_creates_tracks_first() {
    let call = pending(signal2sip_call_proceed(false, 5));
    assert!(matches!(&call, EngineCall::CreateOutgoingAudioTrack { call_id: 5 }));
    let call = pending(call.resume(true));
    assert!(matches!(&call, EngineCall::CreateOutgoingVideoSource { call_id: 5 }));
    let call = pending(call.resume(true));
    assert!(matches!(&call, EngineCall::CreateOutgoingVideoTrack { call_id: 5 }));
    let call = pending(call.resume(true));
    match &call {
        EngineCall::Proceed {
            call_id,
            hide_ip,
            ice_servers,
            call_config,
            audio_levels_interval_ms,
        } => {
            assert_eq!(*call_config, CallConfig::Default);
            assert_eq!(*audio_levels_interval_ms, None);
            assert_eq!(*call_id, 5);
            assert!(!*hide_ip);
            assert_eq!(ice_servers.len(), 0);
        }
        other => panic!("{:?}", other),
    }
    assert!(finished(call.resume(true)));
}

#[test]
fn simple_requests_name_their_call() {
    assert!(matches!(
        pending(signal2sip_call_accept(false, 5)),
        EngineCall::AcceptCall { call_id: 5 }
    ));
    assert!(matches!(
        pending(signal2sip_call_message_sent(false, 6)),
        EngineCall::MessageSent { call_id: 6 }
    ));
    assert!(matches!(
        pending(signal2sip_call_message_send_failure(false, 7)),
        EngineCall::MessageSendFailure { call_id: 7 }
    ));
    assert!(matches!(pending(signal2sip_call_hangup(false)), EngineCall::Hangup));
}

#[test]
fn the_answer_is_true_if_every_call_succeeded() {
    let offer = || signal2sip_call_received_offer(false, None, 1, 2, 3, Some(&[1]));
    assert_eq!(run(offer(), &[true, true]), (true, 2));
    assert_eq!(run(offer(), &[true, false]), (false, 2));
    assert_eq!(run(offer(), &[false]), (false, 1));
    let answer = || signal2sip_call_received_answer(false, None, 1, 2, Some(&[1]));
    assert_eq!(run(answer(), &[true, true]), (true, 2));
    assert_eq!(run(answer(), &[true, false]), (false, 2));
    assert_eq!(run(answer(), &[false]), (false, 1));
    let proceed = || signal2sip_call_proceed(false, 1);
    assert_eq!(run(proceed(), &[true; 4]), (true, 4));
    assert_eq!(run(proceed(), &[true, true, true, false]), (false, 4));
    assert_eq!(run(proceed(), &[true, true, false]), (false, 3));
    assert_eq!(run(proceed(), &[true, false]), (false, 2));
    assert_eq!(run(proceed(), &[false]), (false, 1));
    for succeeded in [true, false] {
        let ice = signal2sip_call_received_ice(false, None, 1, 2, Some(&[1]));
        assert_eq!(run(ice, &[succeeded]), (succeeded, 1));
        assert_eq!(run(signal2sip_call_accept(false, 1), &[succeeded]), (succeeded, 1));
        assert_eq!(run(signal2sip_call_message_sent(false, 1), &[succeeded]), (succeeded, 1));
        let failure = signal2sip_call_message_send_failure(false, 1);
        assert_eq!(run(failure, &[succeeded]), (succeeded, 1));
        assert_eq!(run(signal2sip_call_hangup(false), &[succeeded]), (succeeded, 1));
    }
}

#[test]
fn an_outgoing_call_is_an_audio_call() {
    let call = pending(signal2sip_call_start_outgoing(false, Some(b"bob"), 9));
    assert_eq!(call.remote_peer_id, "bob");
    assert_eq!(call.local_device_id, 9);
    let call = call.with_call_id(77);
    assert_eq!(call.remote_peer_id, "bob");
    assert_eq!(call.call_id, 77);
    assert_eq!(call.call_media_type, CallMediaType::Audio);
    assert_eq!(call.local_device_id, 9);
    assert_eq!(call.resume(true), 77);
}

#[test]
fn an_outgoing_call_that_fails_has_no_id() {
    let call = pending(signal2sip_call_start_outgoing(false, None, 9));
    assert_eq!(call.remote_peer_id, "");
    assert_eq!(call.with_call_id(77).resume(false), 0);
}

#[test]
fn zero_is_answered_on_failure_only() {
    for call_id in [1, 77, u64::MAX] {
        let call = || pending(signal2sip_call_start_outgoing(false, None, 9));
        assert_eq!(call().with_call_id(call_id).resume(true), call_id);
        assert_eq!(call().with_call_id(call_id).resume(false), 0);
    }
}

#[test]
fn a_drawn_zero_is_drawn_again() {
    let call = pending(signal2sip_call_start_outgoing(false, Some(b"bob"), 9));
    let Err(call) = call.with_drawn_id(0) else {
        panic!("0 is no call id");
    };
    assert_eq!(call.remote_peer_id, "bob");
    assert_eq!(call.local_device_id, 9);
    let Ok(call) = call.with_drawn_id(77) else {
        panic!("77 is a call id");
    };
    assert_eq!(call.remote_peer_id, "bob");
    assert_eq!(call.call_id, 77);
    assert_eq!(call.call_media_type, CallMediaType::Audio);
    assert_eq!(call.local_device_id, 9);
    assert_eq!(call.resume(true), 77);
}

fn first_setup_call() -> SetupCall {
    signal2sip_call_manager_create(Callbacks { context: 0u8 }).0
}

#[test]
fn a_call_manager_needs_a_factory_and_a_manager() {
    let call = first_setup_call();
    match &call {
        SetupCall::NewPeerConnectionFactory {
            audio_config,
            use_injectable_network,
            field_trials,
        } => {
            assert_eq!(*audio_config, AudioConfig::Default);
            assert!(!*use_injectable_network);
            assert_eq!(field_trials, "");
        }
        other => panic!("{:?}", other),
    }
    let call = pending(call.resume(true));
    assert!(matches!(&call, SetupCall::NewCallManager { should_assume_messages_sent: false }));
    assert!(finished(call.resume(true)));
    assert!(!finished(first_setup_call().resume(false)));
    let call = pending(first_setup_call().resume(true));
    assert!(!finished(call.resume(false)));
}

#[test]
fn a_call_manager_reports_with_the_context_it_was_created_with() {
    let (_, delegate) = signal2sip_call_manager_create(Callbacks { context: 4_711u32 });
    let call = delegate.handle_call_state("bob", 1, CallState::Connected);
    assert_eq!(call.context, 4_711);
    for call in delegate.send_signaling("bob", 1, None, Message::Answer(Answer { opaque: vec![] })) {
        assert_eq!(call.context, 4_711);
    }
}

#[test]
fn samples_are_pushed_through_the_handle() {
    let mut adm = RawPcmAudioDeviceModule::new();
    signal2sip_push_recorded_samples(Some(&mut adm), Some(&[1, 2]));
    signal2sip_push_recorded_samples(Some(&mut adm), None);
    signal2sip_push_recorded_samples(None, Some(&[9]));
    signal2sip_push_recorded_samples(None, None);
    assert_eq!(adm.next_recorded_data().unwrap().samples[..3].to_vec(), vec![1, 2, 0]);
}

#[test]
fn samples_are_pulled_through_the_handle() {
    let mut adm = RawPcmAudioDeviceModule::new();
    adm.play_data_received(0, 3, vec![1, 2, 3]);
    let none: Vec<i16> = Vec::new();
    assert_eq!(signal2sip_pull_playout_samples(None, false, 5), none);
    assert_eq!(signal2sip_pull_playout_samples(Some(&mut adm), true, 5), none);
    assert_eq!(signal2sip_pull_playout_samples(Some(&mut adm), false, 2), vec![1, 2]);
    assert_eq!(signal2sip_pull_playout_samples(Some(&mut adm), false, 2), vec![3]);
    assert_eq!(signal2sip_pull_playout_samples(Some(&mut adm), false, 2), none);
}
