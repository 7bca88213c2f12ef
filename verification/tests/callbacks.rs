use signal2sip::callbacks::{
    call_state_to_i32, Answer, CCallbackDelegate, CallMediaType, CallState, CallbackArgs,
    CallbackCall, Callbacks, Hangup, Ice, IceCandidate, Message, Offer,
    CALL_STATE_CONCLUDED, CALL_STATE_CONNECTED, CALL_STATE_CONNECTING, CALL_STATE_ENDED,
    CALL_STATE_INCOMING_AUDIO, CALL_STATE_OUTGOING_AUDIO, CALL_STATE_REJECTED, CALL_STATE_RINGING,
};

fn delegate() -> CCallbackDelegate<usize> {
    CCallbackDelegate { callbacks: Callbacks { context: 0xbeef } }
}

fn check_common(call: &CallbackCall<usize>, call_id: u64) {
    assert_eq!(call.context, 0xbeef);
    assert_eq!(call.remote_peer_id, b"bob\0".to_vec());
    assert_eq!(call.call_id, call_id);
}

#[test]
fn call_states_have_their_numbers() {
    let codes = [
        (CallState::Incoming(CallMediaType::Audio), 0, CALL_STATE_INCOMING_AUDIO),
        (CallState::Incoming(CallMediaType::Video), 0, CALL_STATE_INCOMING_AUDIO),
        (CallState::Outgoing(CallMediaType::Audio), 1, CALL_STATE_OUTGOING_AUDIO),
        (CallState::Outgoing(CallMediaType::Video), 1, CALL_STATE_OUTGOING_AUDIO),
        (CallState::Ringing, 2, CALL_STATE_RINGING),
        (CallState::Connected, 3, CALL_STATE_CONNECTED),
        (CallState::Connecting, 4, CALL_STATE_CONNECTING),
        (CallState::Ended, 5, CALL_STATE_ENDED),
        (CallState::Rejected, 6, CALL_STATE_REJECTED),
        (CallState::Concluded, 7, CALL_STATE_CONCLUDED),
    ];
    for (state, number, constant) in codes {
        assert_eq!(call_state_to_i32(&state), number);
        assert_eq!(constant, number);
    }
}

#[test]
fn an_offer_is_sent_once() {
    let offer = Message::Offer(Offer { call_media_type: 1, opaque: vec![1, 2, 3] });
    let calls = delegate().send_signaling("bob", 42, Some(7), offer);
    assert_eq!(calls.len(), 1);
    check_common(&calls[0], 42);
    match &calls[0].args {
        CallbackArgs::SendOffer { call_media_type, opaque } => {
            assert_eq!(*call_media_type, 1);
            assert_eq!(*opaque, vec![1, 2, 3]);
        }
        other => panic!("{:?}", other),
    }
}

#[test]
fn an_answer_is_sent_once() {
    let answer = Message::Answer(Answer { opaque: vec![9] });
    let calls = delegate().send_signaling("bob", 43, None, answer);
    assert_eq!(calls.len(), 1);
    check_common(&calls[0], 43);
    assert!(matches!(&calls[0].args, CallbackArgs::SendAnswer { opaque } if *opaque == vec![9]));
}

fn ice(candidates: &[&[u8]]) -> Message {
    Message::Ice(Ice {
        candidates: candidates.iter().map(|c| IceCandidate { opaque: c.to_vec() }).collect(),
    })
}

fn sent_ice(calls: &[CallbackCall<usize>]) -> Vec<(bool, u32, Vec<u8>)> {
    calls
        .iter()
        .map(|call| match &call.args {
            CallbackArgs::SendIce { has_receiver_device_id, receiver_device_id, opaque } => {
                (*has_receiver_device_id, *receiver_device_id, opaque.clone())
            }
            other => panic!("{:?}", other),
        })
        .collect()
}

#[test]
fn each_ice_candidate_is_sent_in_order() {
    let calls = delegate().send_signaling("bob", 44, Some(5), ice(&[&[1], &[], &[2, 3]]));
    for call in &calls {
        check_common(call, 44);
    }
    assert_eq!(
        sent_ice(&calls),
        vec![(true, 5, vec![1]), (true, 5, vec![]), (true, 5, vec![2, 3])]
    );
}

#[test]
fn no_candidates_are_no_calls() {
    assert_eq!(delegate().send_signaling("bob", 44, None, ice(&[])).len(), 0);
}

#[test]
fn batches_of_candidates_add_up() {
    let d = delegate();
    let mut split = d.send_signaling("bob", 1, None, ice(&[&[1], &[2]]));
    split.extend(d.send_signaling("bob", 1, None, ice(&[&[3]])));
    let whole = d.send_signaling("bob", 1, None, ice(&[&[1], &[2], &[3]]));
    assert_eq!(sent_ice(&split), sent_ice(&whole));
}

#[test]
fn device_zero_is_told_from_no_device() {
    let some = delegate().send_signaling("bob", 1, Some(0), ice(&[&[1]]));
    let none = delegate().send_signaling("bob", 1, None, ice(&[&[1]]));
    assert_eq!(sent_ice(&some), vec![(true, 0, vec![1])]);
    assert_eq!(sent_ice(&none), vec![(false, 0, vec![1])]);
}

#[test]
fn a_hangup_is_sent_once() {
    let hangup = |device_id| Message::Hangup(Hangup { hangup_type: 3, device_id });
    for (device_id, expected) in [(Some(8), 8), (None, 0)] {
        let calls = delegate().send_signaling("bob", 45, None, hangup(device_id));
        assert_eq!(calls.len(), 1);
        check_common(&calls[0], 45);
        match &calls[0].args {
            CallbackArgs::SendHangup { hangup_type, hangup_device_id } => {
                assert_eq!((*hangup_type, *hangup_device_id), (3, expected));
            }
            other => panic!("{:?}", other),
        }
    }
}

#[test]
fn busy_is_not_sent() {
    assert_eq!(delegate().send_signaling("bob", 46, None, Message::Busy).len(), 0);
}

#[test]
fn a_call_state_is_reported() {
    let call = delegate().handle_call_state("bob", 47, CallState::Ringing);
    check_common(&call, 47);
    assert!(matches!(call.args, CallbackArgs::CallState { call_state: 2 }));
}

#[test]
fn a_recipient_with_a_nul_is_sent_as_empty() {
    let call = delegate().handle_call_state("b\0b", 1, CallState::Ended);
    assert_eq!(call.remote_peer_id, vec![0]);
}

#[test]
fn nothing_else_is_reported() {
    let d = delegate();
    assert_eq!(d.send_call_message(&[1], &[2]).len(), 0);
    assert_eq!(d.send_call_message_to_group(&[1], &[2]).len(), 0);
    assert_eq!(d.send_call_message_to_adhoc_group(&[2], 3).len(), 0);
    assert_eq!(d.handle_remote_audio_state("bob", true).len(), 0);
    assert_eq!(d.handle_remote_video_state("bob", true).len(), 0);
    assert_eq!(d.handle_remote_sharing_screen("bob", true).len(), 0);
    assert_eq!(d.handle_network_route("bob").len(), 0);
    assert_eq!(d.handle_audio_levels("bob").len(), 0);
    assert_eq!(d.handle_low_bandwidth_for_video("bob", false).len(), 0);
}
