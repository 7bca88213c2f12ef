//! What each C entry point asks of the call engine, and what it answers its caller.
//!
//! An entry point either answers at once or names the engine call to make first. Its owner makes
//! the call, reports whether it succeeded, and is told in return the next call or the answer.

use vstd::prelude::*;
use vstd::slice::slice_to_vec;
use vstd::utf8::{decode_utf8, valid_utf8};

use crate::c_string;
use crate::c_string::cstr_to_string;
use crate::callbacks;
use crate::callbacks::{CCallbackDelegate, CallMediaType, Callbacks, Ice, IceCandidate};
use crate::device_state::DeviceState;
use crate::raw_pcm_audio_device_module::RawPcmAudioDeviceModule;
use crate::sample_queue;

verus! {

/// Length of the identity keys that go with a received offer or answer.
pub const IDENTITY_KEY_LEN: usize = 32;

/// An identity key of all zeros.
pub open spec fn zero_key() -> Seq<u8> {
    Seq::new(IDENTITY_KEY_LEN as nat, |i: int| 0u8)
}

fn new_zero_key() -> (key: Vec<u8>)
    ensures
        key@ == zero_key(),
{
    let key: Vec<u8> = vec![0; IDENTITY_KEY_LEN];
    assert(key@ =~= zero_key());
    key
}

/// An entry point on its way: a call to make, or the answer.
#[derive(Debug)]
pub enum Progress<P, R> {
    Pending(P),
    Finished(R),
}

impl<P: View, R> View for Progress<P, R> {
    type V = Progress<P::V, R>;

    open spec fn view(&self) -> Progress<P::V, R> {
        match *self {
            Progress::Pending(p) => Progress::Pending(p@),
            Progress::Finished(r) => Progress::Finished(r),
        }
    }
}

/// An offer received from a peer.
#[derive(Debug)]
pub struct ReceivedOffer {
    pub call_media_type: CallMediaType,
    pub opaque: Vec<u8>,
    pub age_secs: u64,
    pub sender_device_id: u32,
    pub receiver_device_id: u32,
    pub sender_identity_key: Vec<u8>,
    pub receiver_identity_key: Vec<u8>,
}

/// A [`ReceivedOffer`] as a mathematical value.
#[verifier::ext_equal]
pub struct ReceivedOfferView {
    pub call_media_type: CallMediaType,
    pub opaque: Seq<u8>,
    pub age_secs: u64,
    pub sender_device_id: u32,
    pub receiver_device_id: u32,
    pub sender_identity_key: Seq<u8>,
    pub receiver_identity_key: Seq<u8>,
}

impl View for ReceivedOffer {
    type V = ReceivedOfferView;

    open spec fn view(&self) -> ReceivedOfferView {
        ReceivedOfferView {
            call_media_type: self.call_media_type,
            opaque: self.opaque@,
            age_secs: self.age_secs,
            sender_device_id: self.sender_device_id,
            receiver_device_id: self.receiver_device_id,
            sender_identity_key: self.sender_identity_key@,
            receiver_identity_key: self.receiver_identity_key@,
        }
    }
}

/// An answer received from a peer.
#[derive(Debug)]
pub struct ReceivedAnswer {
    pub opaque: Vec<u8>,
    pub sender_device_id: u32,
    pub sender_identity_key: Vec<u8>,
    pub receiver_identity_key: Vec<u8>,
}

/// A [`ReceivedAnswer`] as a mathematical value.
#[verifier::ext_equal]
pub struct ReceivedAnswerView {
    pub opaque: Seq<u8>,
    pub sender_device_id: u32,
    pub sender_identity_key: Seq<u8>,
    pub receiver_identity_key: Seq<u8>,
}

impl View for ReceivedAnswer {
    type V = ReceivedAnswerView;

    open spec fn view(&self) -> ReceivedAnswerView {
        ReceivedAnswerView {
            opaque: self.opaque@,
            sender_device_id: self.sender_device_id,
            sender_identity_key: self.sender_identity_key@,
            receiver_identity_key: self.receiver_identity_key@,
        }
    }
}

/// The configuration of a call.
#[derive(Debug, Clone, Copy, PartialEq, Eq, Structural)]
pub enum CallConfig {
    /// The engine's own.
    Default,
}

/// The audio configuration of a peer connection factory.
#[derive(Debug, Clone, Copy, PartialEq, Eq, Structural)]
pub enum AudioConfig {
    /// The engine's own.
    Default,
}

/// A call into the engine on behalf of a running call manager.
#[derive(Debug)]
pub enum EngineCall {
    /// Parse the opaque part of an offer.
    NewOffer { remote_peer_id: String, call_id: u64, offer: ReceivedOffer },
    /// Hand a parsed offer to the call manager.
    ReceivedOffer { remote_peer_id: String, call_id: u64, offer: ReceivedOffer },
    /// Parse the opaque part of an answer.
    NewAnswer { remote_peer_id: String, call_id: u64, answer: ReceivedAnswer },
    /// Hand a parsed answer to the call manager.
    ReceivedAnswer { remote_peer_id: String, call_id: u64, answer: ReceivedAnswer },
    /// Hand ICE candidates to the call manager.
    ReceivedIce { remote_peer_id: String, call_id: u64, ice: Ice, sender_device_id: u32 },
    /// Accept an incoming call.
    AcceptCall { call_id: u64 },
    /// Create the outgoing audio track of a call.
    CreateOutgoingAudioTrack { call_id: u64 },
    /// Create the outgoing video source of a call.
    CreateOutgoingVideoSource { call_id: u64 },
    /// Create the outgoing video track of a call from that source.
    CreateOutgoingVideoTrack { call_id: u64 },
    /// Proceed with a call: with those tracks, the given ICE servers and configuration, no sink
    /// for video, and reports of audio levels at the given interval, if any.
    Proceed {
        call_id: u64,
        hide_ip: bool,
        ice_servers: Vec<String>,
        call_config: CallConfig,
        audio_levels_interval_ms: Option<u64>,
    },
    /// The last signaling message was delivered.
    MessageSent { call_id: u64 },
    /// The last signaling message could not be delivered.
    MessageSendFailure { call_id: u64 },
    /// Hang up the active call.
    Hangup,
}

/// An [`EngineCall`] as a mathematical value.
pub enum EngineCallView {
    NewOffer { remote_peer_id: Seq<char>, call_id: u64, offer: ReceivedOfferView },
    ReceivedOffer { remote_peer_id: Seq<char>, call_id: u64, offer: ReceivedOfferView },
    NewAnswer { remote_peer_id: Seq<char>, call_id: u64, answer: ReceivedAnswerView },
    ReceivedAnswer { remote_peer_id: Seq<char>, call_id: u64, answer: ReceivedAnswerView },
    ReceivedIce {
        remote_peer_id: Seq<char>,
        call_id: u64,
        candidates: Seq<Seq<u8>>,
        sender_device_id: u32,
    },
    AcceptCall { call_id: u64 },
    CreateOutgoingAudioTrack { call_id: u64 },
    CreateOutgoingVideoSource { call_id: u64 },
    CreateOutgoingVideoTrack { call_id: u64 },
    Proceed {
        call_id: u64,
        hide_ip: bool,
        ice_servers: Seq<String>,
        call_config: CallConfig,
        audio_levels_interval_ms: Option<u64>,
    },
    MessageSent { call_id: u64 },
    MessageSendFailure { call_id: u64 },
    Hangup,
}

impl View for EngineCall {
    type V = EngineCallView;

    open spec fn view(&self) -> EngineCallView {
        match *self {
            EngineCall::NewOffer {
                remote_peer_id,
                call_id,
                offer,
            } => EngineCallView::NewOffer {
                remote_peer_id: remote_peer_id@,
                call_id,
                offer: offer@,
            },
            EngineCall::ReceivedOffer {
                remote_peer_id,
                call_id,
                offer,
            } => EngineCallView::ReceivedOffer {
                remote_peer_id: remote_peer_id@,
                call_id,
                offer: offer@,
            },
            EngineCall::NewAnswer {
                remote_peer_id,
                call_id,
                answer,
            } => EngineCallView::NewAnswer {
                remote_peer_id: remote_peer_id@,
                call_id,
                answer: answer@,
            },
            EngineCall::ReceivedAnswer {
                remote_peer_id,
                call_id,
                answer,
            } => EngineCallView::ReceivedAnswer {
                remote_peer_id: remote_peer_id@,
                call_id,
                answer: answer@,
            },
            EngineCall::ReceivedIce {
                remote_peer_id,
                call_id,
                ice,
                sender_device_id,
            } => EngineCallView::ReceivedIce {
                remote_peer_id: remote_peer_id@,
                call_id,
                candidates: callbacks::candidates_view(ice.candidates@),
                sender_device_id,
            },
            EngineCall::AcceptCall { call_id } => EngineCallView::AcceptCall { call_id },
            EngineCall::CreateOutgoingAudioTrack {
                call_id,
            } => EngineCallView::CreateOutgoingAudioTrack { call_id },
            EngineCall::CreateOutgoingVideoSource {
                call_id,
            } => EngineCallView::CreateOutgoingVideoSource { call_id },
            EngineCall::CreateOutgoingVideoTrack {
                call_id,
            } => EngineCallView::CreateOutgoingVideoTrack { call_id },
            EngineCall::Proceed {
                call_id,
                hide_ip,
                ice_servers,
                call_config,
                audio_levels_interval_ms,
            } => EngineCallView::Proceed {
                call_id,
                hide_ip,
                ice_servers: ice_servers@,
                call_config,
                audio_levels_interval_ms,
            },
            EngineCall::MessageSent { call_id } => EngineCallView::MessageSent { call_id },
            EngineCall::MessageSendFailure {
                call_id,
            } => EngineCallView::MessageSendFailure { call_id },
            EngineCall::Hangup => EngineCallView::Hangup,
        }
    }
}

/// What follows an engine call: a failure is answered `false` at once; a success leads on to the
/// next call, or to `true` after the last.
pub open spec fn after(call: EngineCallView, succeeded: bool) -> Progress<EngineCallView, bool> {
    if !succeeded {
        Progress::Finished(false)
    } else {
        match call {
            EngineCallView::NewOffer {
                remote_peer_id,
                call_id,
                offer,
            } => Progress::Pending(
                EngineCallView::ReceivedOffer { remote_peer_id, call_id, offer },
            ),
            EngineCallView::NewAnswer {
                remote_peer_id,
                call_id,
                answer,
            } => Progress::Pending(
                EngineCallView::ReceivedAnswer { remote_peer_id, call_id, answer },
            ),
            EngineCallView::CreateOutgoingAudioTrack {
                call_id,
            } => Progress::Pending(EngineCallView::CreateOutgoingVideoSource { call_id }),
            EngineCallView::CreateOutgoingVideoSource {
                call_id,
            } => Progress::Pending(EngineCallView::CreateOutgoingVideoTrack { call_id }),
            EngineCallView::CreateOutgoingVideoTrack { call_id } => Progress::Pending(
                EngineCallView::Proceed {
                    call_id,
                    hide_ip: false,
                    ice_servers: Seq::empty(),
                    call_config: CallConfig::Default,
                    audio_levels_interval_ms: None,
                },
            ),
            _ => Progress::Finished(true),
        }
    }
}

impl EngineCall {
    /// Goes on after this call was made and `succeeded` or not.
    pub fn resume(self, succeeded: bool) -> (progress: Progress<EngineCall, bool>)
        ensures
            progress@ == after(self@, succeeded),
    {
        if !succeeded {
            return Progress::Finished(false);
        }
        match self {
            EngineCall::NewOffer {
                remote_peer_id,
                call_id,
                offer,
            } => Progress::Pending(
                EngineCall::ReceivedOffer { remote_peer_id, call_id, offer },
            ),
            EngineCall::NewAnswer {
                remote_peer_id,
                call_id,
                answer,
            } => Progress::Pending(
                EngineCall::ReceivedAnswer { remote_peer_id, call_id, answer },
            ),
            EngineCall::CreateOutgoingAudioTrack { call_id } => Progress::Pending(
                EngineCall::CreateOutgoingVideoSource { call_id },
            ),
            EngineCall::CreateOutgoingVideoSource { call_id } => Progress::Pending(
                EngineCall::CreateOutgoingVideoTrack { call_id },
            ),
            EngineCall::CreateOutgoingVideoTrack { call_id } => Progress::Pending(
                EngineCall::Proceed {
                    call_id,
                    hide_ip: false,
                    ice_servers: Vec::new(),
                    call_config: CallConfig::Default,
                    audio_levels_interval_ms: None,
                },
            ),
            _ => Progress::Finished(true),
        }
    }
}

/// An offer for an audio call of no age, under zero identity keys.
pub open spec fn received_offer(
    sender_device_id: u32,
    receiver_device_id: u32,
    opaque: Seq<u8>,
) -> ReceivedOfferView {
    ReceivedOfferView {
        call_media_type: CallMediaType::Audio,
        opaque,
        age_secs: 0,
        sender_device_id,
        receiver_device_id,
        sender_identity_key: zero_key(),
        receiver_identity_key: zero_key(),
    }
}

/// An answer under zero identity keys.
pub open spec fn received_answer(sender_device_id: u32, opaque: Seq<u8>) -> ReceivedAnswerView {
    ReceivedAnswerView {
        opaque,
        sender_device_id,
        sender_identity_key: zero_key(),
        receiver_identity_key: zero_key(),
    }
}

impl EngineCall {
    /// The first call for an offer from `remote_peer_id`.
    pub fn for_offer(
        remote_peer_id: String,
        call_id: u64,
        sender_device_id: u32,
        receiver_device_id: u32,
        opaque: &[u8],
    ) -> (call: EngineCall)
        ensures
            call@ == (EngineCallView::NewOffer {
                remote_peer_id: remote_peer_id@,
                call_id,
                offer: received_offer(sender_device_id, receiver_device_id, opaque@),
            }),
    {
        EngineCall::NewOffer {
            remote_peer_id,
            call_id,
            offer: ReceivedOffer {
                call_media_type: CallMediaType::Audio,
                opaque: slice_to_vec(opaque),
                age_secs: 0,
                sender_device_id,
                receiver_device_id,
                sender_identity_key: new_zero_key(),
                receiver_identity_key: new_zero_key(),
            },
        }
    }

    /// The first call for an answer from `remote_peer_id`.
    pub fn for_answer(
        remote_peer_id: String,
        call_id: u64,
        sender_device_id: u32,
        opaque: &[u8],
    ) -> (call: EngineCall)
        ensures
            call@ == (EngineCallView::NewAnswer {
                remote_peer_id: remote_peer_id@,
                call_id,
                answer: received_answer(sender_device_id, opaque@),
            }),
    {
        EngineCall::NewAnswer {
            remote_peer_id,
            call_id,
            answer: ReceivedAnswer {
                opaque: slice_to_vec(opaque),
                sender_device_id,
                sender_identity_key: new_zero_key(),
                receiver_identity_key: new_zero_key(),
            },
        }
    }

    /// The call for an ICE candidate from `remote_peer_id`.
    pub fn for_ice(
        remote_peer_id: String,
        call_id: u64,
        sender_device_id: u32,
        opaque: &[u8],
    ) -> (call: EngineCall)
        ensures
            call@ == (EngineCallView::ReceivedIce {
                remote_peer_id: remote_peer_id@,
                call_id,
                candidates: seq![opaque@],
                sender_device_id,
            }),
    {
        let mut candidates: Vec<IceCandidate> = Vec::new();
        candidates.push(IceCandidate { opaque: slice_to_vec(opaque) });
        assert(callbacks::candidates_view(candidates@) =~= seq![opaque@]);
        EngineCall::ReceivedIce {
            remote_peer_id,
            call_id,
            ice: Ice { candidates },
            sender_device_id,
        }
    }
}

/// Feeds a received offer into the call manager. `remote_peer_id` and `opaque` are `None` for
/// null pointers; an offer needs a call manager and an opaque part.
pub fn signal2sip_call_received_offer(
    handle_is_null: bool,
    remote_peer_id: Option<&[u8]>,
    call_id: u64,
    sender_device_id: u32,
    receiver_device_id: u32,
    opaque: Option<&[u8]>,
) -> (progress: Progress<EngineCall, bool>)
    ensures
        progress@ == (match opaque {
            Some(bytes) if !handle_is_null => Progress::Pending(
                EngineCallView::NewOffer {
                    remote_peer_id: c_string::c_text(c_string::bytes_of(remote_peer_id)),
                    call_id,
                    offer: received_offer(sender_device_id, receiver_device_id, bytes@),
                },
            ),
            _ => Progress::Finished(false),
        }),
        progress is Pending ==> c_string::valid_text_is_kept(c_string::bytes_of(remote_peer_id)),
{
    if handle_is_null {
        return Progress::Finished(false);
    }
    match opaque {
        Some(bytes) => Progress::Pending(
            EngineCall::for_offer(
                cstr_to_string(remote_peer_id),
                call_id,
                sender_device_id,
                receiver_device_id,
                bytes,
            ),
        ),
        None => Progress::Finished(false),
    }
}

/// Feeds a received answer into the call manager. `remote_peer_id` and `opaque` are `None` for
/// null pointers; an answer needs a call manager and an opaque part.
pub fn signal2sip_call_received_answer(
    handle_is_null: bool,
    remote_peer_id: Option<&[u8]>,
    call_id: u64,
    sender_device_id: u32,
    opaque: Option<&[u8]>,
) -> (progress: Progress<EngineCall, bool>)
    ensures
        progress@ == (match opaque {
            Some(bytes) if !handle_is_null => Progress::Pending(
                EngineCallView::NewAnswer {
                    remote_peer_id: c_string::c_text(c_string::bytes_of(remote_peer_id)),
                    call_id,
                    answer: received_answer(sender_device_id, bytes@),
                },
            ),
            _ => Progress::Finished(false),
        }),
        progress is Pending ==> c_string::valid_text_is_kept(c_string::bytes_of(remote_peer_id)),
{
    if handle_is_null {
        return Progress::Finished(false);
    }
    match opaque {
        Some(bytes) => Progress::Pending(
            EngineCall::for_answer(
                cstr_to_string(remote_peer_id),
                call_id,
                sender_device_id,
                bytes,
            ),
        ),
        None => Progress::Finished(false),
    }
}

/// Feeds a received ICE candidate into the call manager. `remote_peer_id` and `opaque` are
/// `None` for null pointers; a candidate needs a call manager and an opaque part.
pub fn signal2sip_call_received_ice(
    handle_is_null: bool,
    remote_peer_id: Option<&[u8]>,
    call_id: u64,
    sender_device_id: u32,
    opaque: Option<&[u8]>,
) -> (progress: Progress<EngineCall, bool>)
    ensures
        progress@ == (match opaque {
            Some(bytes) if !handle_is_null => Progress::Pending(
                EngineCallView::ReceivedIce {
                    remote_peer_id: c_string::c_text(c_string::bytes_of(remote_peer_id)),
                    call_id,
                    candidates: seq![bytes@],
                    sender_device_id,
                },
            ),
            _ => Progress::Finished(false),
        }),
        progress is Pending ==> c_string::valid_text_is_kept(c_string::bytes_of(remote_peer_id)),
{
    if handle_is_null {
        return Progress::Finished(false);
    }
    match opaque {
        Some(bytes) => Progress::Pending(
            EngineCall::for_ice(cstr_to_string(remote_peer_id), call_id, sender_device_id, bytes),
        ),
        None => Progress::Finished(false),
    }
}

/// Proceeds with a call: creates its tracks and hands them to the call manager.
pub fn signal2sip_call_proceed(handle_is_null: bool, call_id: u64) -> (progress: Progress<
    EngineCall,
    bool,
>)
    ensures
        progress@ == (if handle_is_null {
            Progress::Finished(false)
        } else {
            Progress::Pending(EngineCallView::CreateOutgoingAudioTrack { call_id })
        }),
{
    if handle_is_null {
        return Progress::Finished(false);
    }
    Progress::Pending(EngineCall::CreateOutgoingAudioTrack { call_id })
}

/// Accepts an incoming call, which must have reached the ringing state: the engine drops an
/// acceptance that comes earlier, and the call is then stuck.
pub fn signal2sip_call_accept(handle_is_null: bool, call_id: u64) -> (progress: Progress<
    EngineCall,
    bool,
>)
    ensures
        progress@ == (if handle_is_null {
            Progress::Finished(false)
        } else {
            Progress::Pending(EngineCallView::AcceptCall { call_id })
        }),
{
    if handle_is_null {
        return Progress::Finished(false);
    }
    Progress::Pending(EngineCall::AcceptCall { call_id })
}

/// Reports that the most recent signaling message of a call was delivered. The engine hands out
/// no further message of that call until it has this report or that of a failure.
pub fn signal2sip_call_message_sent(handle_is_null: bool, call_id: u64) -> (progress: Progress<
    EngineCall,
    bool,
>)
    ensures
        progress@ == (if handle_is_null {
            Progress::Finished(false)
        } else {
            Progress::Pending(EngineCallView::MessageSent { call_id })
        }),
{
    if handle_is_null {
        return Progress::Finished(false);
    }
    Progress::Pending(EngineCall::MessageSent { call_id })
}

/// Reports that the most recent signaling message of a call could not be delivered, so that the
/// engine goes on with the next.
pub fn signal2sip_call_message_send_failure(handle_is_null: bool, call_id: u64) -> (progress:
    Progress<EngineCall, bool>)
    ensures
        progress@ == (if handle_is_null {
            Progress::Finished(false)
        } else {
            Progress::Pending(EngineCallView::MessageSendFailure { call_id })
        }),
{
    if handle_is_null {
        return Progress::Finished(false);
    }
    Progress::Pending(EngineCall::MessageSendFailure { call_id })
}

/// Hangs up the active call.
pub fn signal2sip_call_hangup(handle_is_null: bool) -> (progress: Progress<EngineCall, bool>)
    ensures
        progress@ == (if handle_is_null {
            Progress::Finished(false)
        } else {
            Progress::Pending(EngineCallView::Hangup)
        }),
{
    if handle_is_null {
        return Progress::Finished(false);
    }
    Progress::Pending(EngineCall::Hangup)
}

/// An outgoing call that still needs an id. The owner draws one at random.
#[derive(Debug)]
pub struct NewCall {
    pub remote_peer_id: String,
    pub local_device_id: u32,
}

/// A [`NewCall`] as a mathematical value.
#[verifier::ext_equal]
pub struct NewCallView {
    pub remote_peer_id: Seq<char>,
    pub local_device_id: u32,
}

impl View for NewCall {
    type V = NewCallView;

    open spec fn view(&self) -> NewCallView {
        NewCallView {
            remote_peer_id: self.remote_peer_id@,
            local_device_id: self.local_device_id,
        }
    }
}

/// An outgoing call for the call manager to create.
#[derive(Debug)]
pub struct CreateOutgoingCall {
    pub remote_peer_id: String,
    pub call_id: u64,
    pub call_media_type: CallMediaType,
    pub local_device_id: u32,
}

/// A [`CreateOutgoingCall`] as a mathematical value.
#[verifier::ext_equal]
pub struct CreateOutgoingCallView {
    pub remote_peer_id: Seq<char>,
    pub call_id: u64,
    pub call_media_type: CallMediaType,
    pub local_device_id: u32,
}

impl View for CreateOutgoingCall {
    type V = CreateOutgoingCallView;

    open spec fn view(&self) -> CreateOutgoingCallView {
        CreateOutgoingCallView {
            remote_peer_id: self.remote_peer_id@,
            call_id: self.call_id,
            call_media_type: self.call_media_type,
            local_device_id: self.local_device_id,
        }
    }
}

/// `call` under the id `call_id`: an audio call.
pub open spec fn identified(call: NewCallView, call_id: u64) -> CreateOutgoingCallView {
    CreateOutgoingCallView {
        remote_peer_id: call.remote_peer_id,
        call_id,
        call_media_type: CallMediaType::Audio,
        local_device_id: call.local_device_id,
    }
}

/// What the C caller is told of an outgoing call: its id, or 0 if it could not be created.
pub open spec fn outgoing_answer(call: CreateOutgoingCallView, succeeded: bool) -> u64 {
    if succeeded {
        call.call_id
    } else {
        0
    }
}

impl NewCall {
    /// The call under the id that was drawn for it. No call has the id 0, which stands for a
    /// failure.
    pub fn with_call_id(self, call_id: u64) -> (call: CreateOutgoingCall)
        requires
            call_id != 0,
        ensures
            call@ == identified(self@, call_id),
    {
        CreateOutgoingCall {
            remote_peer_id: self.remote_peer_id,
            call_id,
            call_media_type: CallMediaType::Audio,
            local_device_id: self.local_device_id,
        }
    }

    /// The call under the id that was drawn for it, or the call as it was if 0 was drawn, so
    /// that another id can be.
    pub fn with_drawn_id(self, call_id: u64) -> (drawn: Result<CreateOutgoingCall, NewCall>)
        ensures
            match drawn {
                Ok(call) => call_id != 0 && call@ == identified(self@, call_id),
                Err(call) => call_id == 0 && call == self,
            },
    {
        if call_id == 0 {
            Err(self)
        } else {
            Ok(self.with_call_id(call_id))
        }
    }
}

impl CreateOutgoingCall {
    /// The answer to the C caller once the call was created, or could not be: 0 just where it
    /// could not.
    pub fn resume(self, succeeded: bool) -> (answer: u64)
        requires
            self.call_id != 0,
        ensures
            answer == outgoing_answer(self@, succeeded),
            (answer == 0) == !succeeded,
    {
        if succeeded {
            self.call_id
        } else {
            0
        }
    }
}

/// Places an outgoing audio call. Answers 0 at once if there is no call manager.
pub fn signal2sip_call_start_outgoing(
    handle_is_null: bool,
    remote_peer_id: Option<&[u8]>,
    local_device_id: u32,
) -> (progress: Progress<NewCall, u64>)
    ensures
        progress@ == (if handle_is_null {
            Progress::Finished(0u64)
        } else {
            Progress::Pending(
                NewCallView {
                    remote_peer_id: c_string::c_text(c_string::bytes_of(remote_peer_id)),
                    local_device_id,
                },
            )
        }),
        progress is Pending ==> c_string::valid_text_is_kept(c_string::bytes_of(remote_peer_id)),
{
    if handle_is_null {
        return Progress::Finished(0);
    }
    Progress::Pending(
        NewCall { remote_peer_id: cstr_to_string(remote_peer_id), local_device_id },
    )
}

/// A call into the engine on the way to a new call manager.
#[derive(Debug)]
pub enum SetupCall {
    /// Create a peer connection factory on top of a raw PCM audio device module.
    NewPeerConnectionFactory {
        audio_config: AudioConfig,
        use_injectable_network: bool,
        field_trials: String,
    },
    /// Create the call manager on top of that factory. Unless it assumes that messages are
    /// sent, every message needs a report of its delivery.
    NewCallManager { should_assume_messages_sent: bool },
}

/// A [`SetupCall`] as a mathematical value.
pub enum SetupCallView {
    NewPeerConnectionFactory {
        audio_config: AudioConfig,
        use_injectable_network: bool,
        field_trials: Seq<char>,
    },
    NewCallManager { should_assume_messages_sent: bool },
}

impl View for SetupCall {
    type V = SetupCallView;

    open spec fn view(&self) -> SetupCallView {
        match *self {
            SetupCall::NewPeerConnectionFactory {
                audio_config,
                use_injectable_network,
                field_trials,
            } => SetupCallView::NewPeerConnectionFactory {
                audio_config,
                use_injectable_network,
                field_trials: field_trials@,
            },
            SetupCall::NewCallManager {
                should_assume_messages_sent,
            } => SetupCallView::NewCallManager { should_assume_messages_sent },
        }
    }
}

/// What follows a call on the way to a new call manager; `true` means that there is one.
pub open spec fn after_setup(call: SetupCallView, succeeded: bool) -> Progress<
    SetupCallView,
    bool,
> {
    if !succeeded {
        Progress::Finished(false)
    } else {
        match call {
            SetupCallView::NewPeerConnectionFactory { .. } => Progress::Pending(
                SetupCallView::NewCallManager { should_assume_messages_sent: false },
            ),
            SetupCallView::NewCallManager { .. } => Progress::Finished(true),
        }
    }
}

impl SetupCall {
    /// Goes on after this call was made and `succeeded` or not.
    pub fn resume(self, succeeded: bool) -> (progress: Progress<SetupCall, bool>)
        ensures
            progress@ == after_setup(self@, succeeded),
    {
        if !succeeded {
            return Progress::Finished(false);
        }
        match self {
            SetupCall::NewPeerConnectionFactory { .. } => Progress::Pending(
                SetupCall::NewCallManager { should_assume_messages_sent: false },
            ),
            SetupCall::NewCallManager { .. } => Progress::Finished(true),
        }
    }
}

/// Creates a call manager that is backed by a raw PCM audio device module instead of a sound
/// device. Gives the first call to make, and the delegate that turns what the engine will report
/// into invocations of `callbacks`, with their context. The answer is whether there is a call
/// manager, and the C caller gets a null pointer if there is none.
pub fn signal2sip_call_manager_create<C>(callbacks: Callbacks<C>) -> (setup: (
    SetupCall,
    CCallbackDelegate<C>,
))
    ensures
        setup.0@ == (SetupCallView::NewPeerConnectionFactory {
            audio_config: AudioConfig::Default,
            use_injectable_network: false,
            field_trials: Seq::empty(),
        }),
        setup.1.callbacks == callbacks,
{
    (
        SetupCall::NewPeerConnectionFactory {
            audio_config: AudioConfig::Default,
            use_injectable_network: false,
            field_trials: String::new(),
        },
        CCallbackDelegate { callbacks },
    )
}

/// Pushes samples to be sent to the remote peer. Without a module (its handle is null or its
/// lock poisoned) or without samples nothing happens.
pub fn signal2sip_push_recorded_samples(
    adm: Option<&mut RawPcmAudioDeviceModule>,
    samples: Option<&[i16]>,
)
    requires
        adm matches Some(a) ==> a.wf(),
    ensures
        adm matches Some(a) ==> final(a).wf() && final(a)@ == (match samples {
            Some(s) => a@.recorded(s@),
            None => a@,
        }),
{
    if let Some(a) = adm {
        if let Some(s) = samples {
            a.push_recorded_samples(s);
        }
    }
}

/// Pulls up to `max_samples` received from the remote peer, for the C caller's buffer. Without a
/// module (its handle is null or its lock poisoned) or without a buffer nothing is pulled.
pub fn signal2sip_pull_playout_samples(
    adm: Option<&mut RawPcmAudioDeviceModule>,
    out_is_null: bool,
    max_samples: usize,
) -> (samples: Vec<i16>)
    requires
        adm matches Some(a) ==> a.wf(),
    ensures
        samples@.len() <= max_samples,
        match adm {
            Some(a) => {
                &&& final(a).wf()
                &&& samples@ == (if out_is_null {
                    Seq::empty()
                } else {
                    sample_queue::front(a@.speaker, max_samples as nat)
                })
                &&& final(a)@ == (if out_is_null {
                    a@
                } else {
                    a@.pulled(max_samples as nat)
                })
            },
            None => samples@.len() == 0,
        },
{
    if out_is_null {
        return Vec::new();
    }
    match adm {
        Some(a) => a.pull_playout_samples(max_samples),
        None => Vec::new(),
    }
}

/// The answer of an entry point whose engine calls turn out as `outcomes` lists, or `None` if
/// that list is too short for the entry point to come to an end.
pub open spec fn answer(progress: Progress<EngineCallView, bool>, outcomes: Seq<bool>) -> Option<
    bool,
>
    decreases outcomes.len(),
{
    match progress {
        Progress::Finished(r) => Some(r),
        Progress::Pending(call) => if outcomes.len() == 0 {
            None
        } else {
            answer(after(call, outcomes[0]), outcomes.drop_first())
        },
    }
}

/// How many engine calls an entry point makes from `call` on if all of them succeed.
pub open spec fn calls_left(call: EngineCallView) -> nat {
    match call {
        EngineCallView::NewOffer { .. } => 2,
        EngineCallView::NewAnswer { .. } => 2,
        EngineCallView::CreateOutgoingAudioTrack { .. } => 4,
        EngineCallView::CreateOutgoingVideoSource { .. } => 3,
        EngineCallView::CreateOutgoingVideoTrack { .. } => 2,
        _ => 1,
    }
}

/// Every entry point comes to an end: each engine call leaves fewer calls to make.
pub proof fn law_entry_points_end(call: EngineCallView, succeeded: bool)
    ensures
        after(call, succeeded) matches Progress::Pending(next) ==> calls_left(next) < calls_left(
            call,
        ),
{
}

/// An entry point answers `true` if and only if every one of its engine calls succeeded.
pub proof fn law_true_means_every_call_succeeded(call: EngineCallView, outcomes: Seq<bool>)
    requires
        outcomes.len() >= calls_left(call),
    ensures
        answer(Progress::Pending(call), outcomes) == Some(
            forall|i: int| 0 <= i < calls_left(call) ==> #[trigger] outcomes[i],
        ),
    decreases calls_left(call),
{
    let all = forall|i: int| 0 <= i < calls_left(call) ==> #[trigger] outcomes[i];
    match after(call, outcomes[0]) {
        Progress::Finished(r) => {
            if outcomes[0] {
                assert(calls_left(call) == 1);
            }
            assert(answer(after(call, outcomes[0]), outcomes.drop_first()) == Some(r));
        },
        Progress::Pending(next) => {
            let tail = outcomes.drop_first();
            law_true_means_every_call_succeeded(next, tail);
            assert(calls_left(call) == calls_left(next) + 1);
            if all {
                assert forall|i: int| 0 <= i < calls_left(next) implies #[trigger] tail[i] by {
                    assert(outcomes[i + 1]);
                }
            } else {
                let i = choose|i: int| 0 <= i < calls_left(call) && !#[trigger] outcomes[i];
                assert(!tail[i - 1]);
            }
        },
    }
}

/// A failed engine call is the last: the entry point answers `false` whatever came before it and
/// whatever would come after it.
pub proof fn law_first_failure_is_answered_false(
    call: EngineCallView,
    outcomes: Seq<bool>,
    k: int,
)
    requires
        0 <= k < outcomes.len(),
        k < calls_left(call),
        !outcomes[k],
    ensures
        answer(Progress::Pending(call), outcomes) == Some(false),
    decreases calls_left(call),
{
    match after(call, outcomes[0]) {
        Progress::Finished(r) => {
            assert(answer(after(call, outcomes[0]), outcomes.drop_first()) == Some(r));
            if outcomes[0] {
                assert(calls_left(call) == 1);
            }
        },
        Progress::Pending(next) => {
            assert(!outcomes.drop_first()[k - 1]);
            law_first_failure_is_answered_false(next, outcomes.drop_first(), k - 1);
        },
    }
}

/// The answer for an outgoing call tells success from failure, since 0 is never the id of one.
pub proof fn law_zero_means_no_call(call: NewCallView, call_id: u64, succeeded: bool)
    requires
        call_id != 0,
    ensures
        outgoing_answer(identified(call, call_id), succeeded) == 0 <==> !succeeded,
        succeeded ==> outgoing_answer(identified(call, call_id), succeeded) == call_id,
{
}

/// A call manager comes of two successes and of nothing less, and it does not assume that
/// messages are sent: every message waits for a report of its delivery.
pub proof fn law_call_manager_setup(first: SetupCallView, factory: bool, manager: bool)
    requires
        first is NewPeerConnectionFactory,
    ensures
        after_setup(first, factory) == (if factory {
            Progress::Pending(
                SetupCallView::NewCallManager { should_assume_messages_sent: false },
            )
        } else {
            Progress::Finished(false)
        }),
        after_setup(
            (SetupCallView::NewCallManager { should_assume_messages_sent: false }),
            manager,
        ) == Progress::<SetupCallView, bool>::Finished(manager),
{
}

/// The call that `call` is about, if it is about a certain one.
pub open spec fn call_id_of(call: EngineCall) -> Option<u64> {
    match call {
        EngineCall::NewOffer { call_id, .. } => Some(call_id),
        EngineCall::ReceivedOffer { call_id, .. } => Some(call_id),
        EngineCall::NewAnswer { call_id, .. } => Some(call_id),
        EngineCall::ReceivedAnswer { call_id, .. } => Some(call_id),
        EngineCall::ReceivedIce { call_id, .. } => Some(call_id),
        EngineCall::AcceptCall { call_id } => Some(call_id),
        EngineCall::CreateOutgoingAudioTrack { call_id } => Some(call_id),
        EngineCall::CreateOutgoingVideoSource { call_id } => Some(call_id),
        EngineCall::CreateOutgoingVideoTrack { call_id } => Some(call_id),
        EngineCall::Proceed { call_id, .. } => Some(call_id),
        EngineCall::MessageSent { call_id } => Some(call_id),
        EngineCall::MessageSendFailure { call_id } => Some(call_id),
        EngineCall::Hangup => None,
    }
}

/// A failed engine call is followed by the answer `false`, and a further engine call is about the
/// same call as the one before it.
pub proof fn law_next_engine_call_is_about_the_same_call(
    call: EngineCall,
    succeeded: bool,
    progress: Progress<EngineCall, bool>,
)
    requires
        call_ensures(EngineCall::resume, (call, succeeded), progress),
    ensures
        !succeeded ==> progress == Progress::<EngineCall, bool>::Finished(false),
        progress matches Progress::Pending(next) ==> call_id_of(next) == call_id_of(call),
        progress matches Progress::Finished(answer) ==> answer == succeeded,
{
}

/// However many engine calls an entry point makes, all of them are about the call that the first
/// is about.
pub proof fn law_all_engine_calls_are_about_one_call(calls: Seq<EngineCall>)
    requires
        forall|k: int|
            0 < k < calls.len() ==> call_ensures(
                EngineCall::resume,
                (calls[k - 1], true),
                Progress::Pending(#[trigger] calls[k]),
            ),
    ensures
        forall|k: int|
            0 <= k < calls.len() ==> call_id_of(#[trigger] calls[k]) == call_id_of(calls[0]),
{
    assert forall|k: int| 0 <= k < calls.len() implies call_id_of(#[trigger] calls[k])
        == call_id_of(calls[0]) by {
        lemma_engine_call_is_about_the_first(calls, k);
    }
}

proof fn lemma_engine_call_is_about_the_first(calls: Seq<EngineCall>, n: int)
    requires
        0 <= n < calls.len(),
        forall|k: int|
            0 < k < calls.len() ==> call_ensures(
                EngineCall::resume,
                (calls[k - 1], true),
                Progress::Pending(#[trigger] calls[k]),
            ),
    ensures
        call_id_of(calls[n]) == call_id_of(calls[0]),
    decreases n,
{
    if n > 0 {
        lemma_engine_call_is_about_the_first(calls, n - 1);
        law_next_engine_call_is_about_the_same_call(
            calls[n - 1],
            true,
            Progress::Pending(calls[n]),
        );
    }
}

/// A parsed offer is handed on whole: from the same peer, for the same call, with all that it
/// came with.
pub proof fn law_parsed_offer_is_handed_on(
    remote_peer_id: String,
    call_id: u64,
    offer: ReceivedOffer,
    progress: Progress<EngineCall, bool>,
)
    requires
        call_ensures(
            EngineCall::resume,
            (EngineCall::NewOffer { remote_peer_id, call_id, offer }, true),
            progress,
        ),
    ensures
        ({
            &&& progress matches Progress::Pending(
                EngineCall::ReceivedOffer { remote_peer_id: peer, call_id: id, offer: received },
            )
            &&& peer@ == remote_peer_id@
            &&& id == call_id
            &&& received.call_media_type == offer.call_media_type
            &&& received.opaque@ == offer.opaque@
            &&& received.age_secs == offer.age_secs
            &&& received.sender_device_id == offer.sender_device_id
            &&& received.receiver_device_id == offer.receiver_device_id
            &&& received.sender_identity_key@ == offer.sender_identity_key@
            &&& received.receiver_identity_key@ == offer.receiver_identity_key@
        }),
{
}

/// A parsed answer is handed on whole: from the same peer, for the same call, with all that it
/// came with.
pub proof fn law_parsed_answer_is_handed_on(
    remote_peer_id: String,
    call_id: u64,
    answer: ReceivedAnswer,
    progress: Progress<EngineCall, bool>,
)
    requires
        call_ensures(
            EngineCall::resume,
            (EngineCall::NewAnswer { remote_peer_id, call_id, answer }, true),
            progress,
        ),
    ensures
        ({
            &&& progress matches Progress::Pending(
                EngineCall::ReceivedAnswer { remote_peer_id: peer, call_id: id, answer: received },
            )
            &&& peer@ == remote_peer_id@
            &&& id == call_id
            &&& received.opaque@ == answer.opaque@
            &&& received.sender_device_id == answer.sender_device_id
            &&& received.sender_identity_key@ == answer.sender_identity_key@
            &&& received.receiver_identity_key@ == answer.receiver_identity_key@
        }),
{
}

/// Proceeding with a call takes four engine calls, all under the id that the C caller passed: an
/// audio track, a video source, a video track, and the call itself, which hides no address, has no
/// ICE servers, the engine's own configuration and no reports of audio levels. Then the answer is
/// `true`.
pub proof fn law_proceed_takes_four_engine_calls(
    call_id: u64,
    first: Progress<EngineCall, bool>,
    calls: Seq<EngineCall>,
    progresses: Seq<Progress<EngineCall, bool>>,
)
    requires
        call_ensures(signal2sip_call_proceed, (false, call_id), first),
        calls.len() == 4,
        progresses.len() == 4,
        first matches Progress::Pending(call) ==> calls[0] == call,
        forall|k: int|
            0 <= k < 4 ==> call_ensures(
                EngineCall::resume,
                (calls[k], true),
                #[trigger] progresses[k],
            ),
        forall|k: int|
            0 < k < 4 ==> (progresses[k - 1] matches Progress::Pending(call) ==> (
            #[trigger] calls[k]) == call),
    ensures
        first == Progress::<EngineCall, bool>::Pending(
            EngineCall::CreateOutgoingAudioTrack { call_id },
        ),
        progresses[0] == Progress::<EngineCall, bool>::Pending(
            EngineCall::CreateOutgoingVideoSource { call_id },
        ),
        progresses[1] == Progress::<EngineCall, bool>::Pending(
            EngineCall::CreateOutgoingVideoTrack { call_id },
        ),
        ({
            &&& progresses[2] matches Progress::Pending(
                EngineCall::Proceed {
                    call_id: id,
                    hide_ip,
                    ice_servers,
                    call_config,
                    audio_levels_interval_ms,
                },
            )
            &&& id == call_id
            &&& !hide_ip
            &&& ice_servers@.len() == 0
            &&& call_config is Default
            &&& audio_levels_interval_ms is None
        }),
        progresses[3] == Progress::<EngineCall, bool>::Finished(true),
{
    assert(progresses[0]@ == after(calls[0]@, true));
    assert(calls[1]@ == EngineCallView::CreateOutgoingVideoSource { call_id });
    assert(progresses[1]@ == after(calls[1]@, true));
    assert(calls[2]@ == EngineCallView::CreateOutgoingVideoTrack { call_id });
    assert(progresses[2]@ == after(calls[2]@, true));
    assert(calls[3] is Proceed);
    assert(progresses[3]@ == after(calls[3]@, true));
}

/// A received offer is given to the engine to parse with the bytes, the call id, the devices and
/// the peer that the C caller passed: for an audio call, of no age and under identity keys of 32
/// zeros. Without a call manager or without bytes the answer is `false` at once.
pub proof fn law_offer_reaches_the_engine(
    handle_is_null: bool,
    remote_peer_id_bytes: Option<&[u8]>,
    call_id: u64,
    sender_device_id: u32,
    receiver_device_id: u32,
    opaque: Option<&[u8]>,
    progress: Progress<EngineCall, bool>,
)
    requires
        call_ensures(
            signal2sip_call_received_offer,
            (
                handle_is_null,
                remote_peer_id_bytes,
                call_id,
                sender_device_id,
                receiver_device_id,
                opaque,
            ),
            progress,
        ),
    ensures
        handle_is_null || opaque is None ==> progress == Progress::<EngineCall, bool>::Finished(
            false,
        ),
        !handle_is_null ==> (opaque matches Some(bytes) ==> {
            &&& progress matches Progress::Pending(
                EngineCall::NewOffer { remote_peer_id, call_id: id, offer },
            )
            &&& id == call_id
            &&& remote_peer_id_bytes is None ==> remote_peer_id@.len() == 0
            &&& remote_peer_id_bytes matches Some(b) ==> remote_peer_id@ == c_string::utf8_lossy(b@)
            &&& remote_peer_id_bytes matches Some(b) ==> valid_utf8(b@) ==> remote_peer_id@
                == decode_utf8(b@)
            &&& offer.opaque@ == bytes@
            &&& offer.call_media_type is Audio
            &&& offer.age_secs == 0
            &&& offer.sender_device_id == sender_device_id
            &&& offer.receiver_device_id == receiver_device_id
            &&& offer.sender_identity_key@.len() == 32
            &&& forall|i: int| 0 <= i < 32 ==> #[trigger] offer.sender_identity_key@[i] == 0
            &&& offer.receiver_identity_key@.len() == 32
            &&& forall|i: int| 0 <= i < 32 ==> #[trigger] offer.receiver_identity_key@[i] == 0
        }),
{
}

/// A received answer is given to the engine to parse with the bytes, the call id, the device and
/// the peer that the C caller passed, under identity keys of 32 zeros. Without a call manager or
/// without bytes the answer is `false` at once.
pub proof fn law_answer_reaches_the_engine(
    handle_is_null: bool,
    remote_peer_id_bytes: Option<&[u8]>,
    call_id: u64,
    sender_device_id: u32,
    opaque: Option<&[u8]>,
    progress: Progress<EngineCall, bool>,
)
    requires
        call_ensures(
            signal2sip_call_received_answer,
            (handle_is_null, remote_peer_id_bytes, call_id, sender_device_id, opaque),
            progress,
        ),
    ensures
        handle_is_null || opaque is None ==> progress == Progress::<EngineCall, bool>::Finished(
            false,
        ),
        !handle_is_null ==> (opaque matches Some(bytes) ==> {
            &&& progress matches Progress::Pending(
                EngineCall::NewAnswer { remote_peer_id, call_id: id, answer },
            )
            &&& id == call_id
            &&& remote_peer_id_bytes is None ==> remote_peer_id@.len() == 0
            &&& remote_peer_id_bytes matches Some(b) ==> remote_peer_id@ == c_string::utf8_lossy(b@)
            &&& remote_peer_id_bytes matches Some(b) ==> valid_utf8(b@) ==> remote_peer_id@
                == decode_utf8(b@)
            &&& answer.opaque@ == bytes@
            &&& answer.sender_device_id == sender_device_id
            &&& answer.sender_identity_key@.len() == 32
            &&& forall|i: int| 0 <= i < 32 ==> #[trigger] answer.sender_identity_key@[i] == 0
            &&& answer.receiver_identity_key@.len() == 32
            &&& forall|i: int| 0 <= i < 32 ==> #[trigger] answer.receiver_identity_key@[i] == 0
        }),
{
}

/// A received ICE candidate is given to the engine alone, with the bytes, the call id, the device
/// and the peer that the C caller passed. Without a call manager or without bytes the answer is
/// `false` at once.
pub proof fn law_ice_reaches_the_engine(
    handle_is_null: bool,
    remote_peer_id_bytes: Option<&[u8]>,
    call_id: u64,
    sender_device_id: u32,
    opaque: Option<&[u8]>,
    progress: Progress<EngineCall, bool>,
)
    requires
        call_ensures(
            signal2sip_call_received_ice,
            (handle_is_null, remote_peer_id_bytes, call_id, sender_device_id, opaque),
            progress,
        ),
    ensures
        handle_is_null || opaque is None ==> progress == Progress::<EngineCall, bool>::Finished(
            false,
        ),
        !handle_is_null ==> (opaque matches Some(bytes) ==> {
            &&& progress matches Progress::Pending(
                EngineCall::ReceivedIce {
                    remote_peer_id,
                    call_id: id,
                    ice,
                    sender_device_id: device,
                },
            )
            &&& id == call_id
            &&& remote_peer_id_bytes is None ==> remote_peer_id@.len() == 0
            &&& remote_peer_id_bytes matches Some(b) ==> remote_peer_id@ == c_string::utf8_lossy(b@)
            &&& remote_peer_id_bytes matches Some(b) ==> valid_utf8(b@) ==> remote_peer_id@
                == decode_utf8(b@)
            &&& ice.candidates@.len() == 1
            &&& ice.candidates@[0].opaque@ == bytes@
            &&& device == sender_device_id
        }),
{
    if let Progress::Pending(EngineCall::ReceivedIce { ice, .. }) = progress {
        if let Some(bytes) = opaque {
            lemma_one_candidate(ice, bytes@);
        }
    }
}

proof fn lemma_one_candidate(ice: Ice, bytes: Seq<u8>)
    requires
        callbacks::candidates_view(ice.candidates@) == seq![bytes],
    ensures
        ice.candidates@.len() == 1,
        ice.candidates@[0].opaque@ == bytes,
{
    assert(ice.candidates@.len() == callbacks::candidates_view(ice.candidates@).len());
    assert(callbacks::candidates_view(ice.candidates@)[0] == bytes);
}

/// An offer that the C caller passed is handed to the call manager, once it is parsed, with the
/// same bytes, for the same call and from the same device; with that the entry point is done.
pub proof fn law_offer_is_received_as_passed(
    remote_peer_id_bytes: Option<&[u8]>,
    call_id: u64,
    sender_device_id: u32,
    receiver_device_id: u32,
    opaque: &[u8],
    parse: EngineCall,
    receive: EngineCall,
    end: Progress<EngineCall, bool>,
)
    requires
        call_ensures(
            signal2sip_call_received_offer,
            (
                false,
                remote_peer_id_bytes,
                call_id,
                sender_device_id,
                receiver_device_id,
                Some(opaque),
            ),
            Progress::Pending(parse),
        ),
        call_ensures(EngineCall::resume, (parse, true), Progress::Pending(receive)),
        call_ensures(EngineCall::resume, (receive, true), end),
    ensures
        ({
            &&& receive matches EngineCall::ReceivedOffer { remote_peer_id, call_id: id, offer }
            &&& id == call_id
            &&& remote_peer_id_bytes is None ==> remote_peer_id@.len() == 0
            &&& remote_peer_id_bytes matches Some(b) ==> remote_peer_id@ == c_string::utf8_lossy(b@)
            &&& remote_peer_id_bytes matches Some(b) ==> valid_utf8(b@) ==> remote_peer_id@
                == decode_utf8(b@)
            &&& offer.opaque@ == opaque@
            &&& offer.sender_device_id == sender_device_id
            &&& offer.receiver_device_id == receiver_device_id
        }),
        end == Progress::<EngineCall, bool>::Finished(true),
{
}

/// An offer with other bytes leads to another engine call.
pub proof fn law_different_offers_are_told_apart(
    remote_peer_id_bytes: Option<&[u8]>,
    call_id: u64,
    sender_device_id: u32,
    receiver_device_id: u32,
    a: &[u8],
    a_call: EngineCall,
    b: &[u8],
    b_call: EngineCall,
)
    requires
        call_ensures(
            signal2sip_call_received_offer,
            (false, remote_peer_id_bytes, call_id, sender_device_id, receiver_device_id, Some(a)),
            Progress::Pending(a_call),
        ),
        call_ensures(
            signal2sip_call_received_offer,
            (false, remote_peer_id_bytes, call_id, sender_device_id, receiver_device_id, Some(b)),
            Progress::Pending(b_call),
        ),
        a@ != b@,
    ensures
        a_call != b_call,
{
    assert(a_call->NewOffer_offer.opaque@ == a@);
    assert(b_call->NewOffer_offer.opaque@ == b@);
}

/// An answer that the C caller passed is handed to the call manager, once it is parsed, with the
/// same bytes, for the same call and from the same device; with that the entry point is done.
pub proof fn law_answer_is_received_as_passed(
    remote_peer_id_bytes: Option<&[u8]>,
    call_id: u64,
    sender_device_id: u32,
    opaque: &[u8],
    parse: EngineCall,
    receive: EngineCall,
    end: Progress<EngineCall, bool>,
)
    requires
        call_ensures(
            signal2sip_call_received_answer,
            (false, remote_peer_id_bytes, call_id, sender_device_id, Some(opaque)),
            Progress::Pending(parse),
        ),
        call_ensures(EngineCall::resume, (parse, true), Progress::Pending(receive)),
        call_ensures(EngineCall::resume, (receive, true), end),
    ensures
        ({
            &&& receive matches EngineCall::ReceivedAnswer { remote_peer_id, call_id: id, answer }
            &&& id == call_id
            &&& remote_peer_id_bytes is None ==> remote_peer_id@.len() == 0
            &&& remote_peer_id_bytes matches Some(b) ==> remote_peer_id@ == c_string::utf8_lossy(b@)
            &&& remote_peer_id_bytes matches Some(b) ==> valid_utf8(b@) ==> remote_peer_id@
                == decode_utf8(b@)
            &&& answer.opaque@ == opaque@
            &&& answer.sender_device_id == sender_device_id
        }),
        end == Progress::<EngineCall, bool>::Finished(true),
{
}

/// An answer with other bytes leads to another engine call.
pub proof fn law_different_answers_are_told_apart(
    remote_peer_id_bytes: Option<&[u8]>,
    call_id: u64,
    sender_device_id: u32,
    a: &[u8],
    a_call: EngineCall,
    b: &[u8],
    b_call: EngineCall,
)
    requires
        call_ensures(
            signal2sip_call_received_answer,
            (false, remote_peer_id_bytes, call_id, sender_device_id, Some(a)),
            Progress::Pending(a_call),
        ),
        call_ensures(
            signal2sip_call_received_answer,
            (false, remote_peer_id_bytes, call_id, sender_device_id, Some(b)),
            Progress::Pending(b_call),
        ),
        a@ != b@,
    ensures
        a_call != b_call,
{
    assert(a_call->NewAnswer_answer.opaque@ == a@);
    assert(b_call->NewAnswer_answer.opaque@ == b@);
}

/// The first engine calls for an offer, an answer and a candidate hold the very peer, call id,
/// devices and bytes that they are made from.
pub proof fn law_first_engine_calls_hold_what_they_are_made_from(
    remote_peer_id: String,
    call_id: u64,
    sender_device_id: u32,
    receiver_device_id: u32,
    bytes: &[u8],
    for_offer: EngineCall,
    for_answer: EngineCall,
    for_ice: EngineCall,
)
    requires
        call_ensures(
            EngineCall::for_offer,
            (remote_peer_id, call_id, sender_device_id, receiver_device_id, bytes),
            for_offer,
        ),
        call_ensures(
            EngineCall::for_answer,
            (remote_peer_id, call_id, sender_device_id, bytes),
            for_answer,
        ),
        call_ensures(
            EngineCall::for_ice,
            (remote_peer_id, call_id, sender_device_id, bytes),
            for_ice,
        ),
    ensures
        ({
            &&& for_offer matches EngineCall::NewOffer { remote_peer_id: peer, call_id: id, offer }
            &&& peer@ == remote_peer_id@
            &&& id == call_id
            &&& offer.opaque@ == bytes@
            &&& offer.call_media_type is Audio
            &&& offer.age_secs == 0
            &&& offer.sender_device_id == sender_device_id
            &&& offer.receiver_device_id == receiver_device_id
            &&& offer.sender_identity_key@.len() == 32
            &&& forall|i: int| 0 <= i < 32 ==> #[trigger] offer.sender_identity_key@[i] == 0
            &&& offer.receiver_identity_key@.len() == 32
            &&& forall|i: int| 0 <= i < 32 ==> #[trigger] offer.receiver_identity_key@[i] == 0
        }),
        ({
            &&& for_answer matches EngineCall::NewAnswer {
                remote_peer_id: peer,
                call_id: id,
                answer,
            }
            &&& peer@ == remote_peer_id@
            &&& id == call_id
            &&& answer.opaque@ == bytes@
            &&& answer.sender_device_id == sender_device_id
            &&& answer.sender_identity_key@.len() == 32
            &&& forall|i: int| 0 <= i < 32 ==> #[trigger] answer.sender_identity_key@[i] == 0
            &&& answer.receiver_identity_key@.len() == 32
            &&& forall|i: int| 0 <= i < 32 ==> #[trigger] answer.receiver_identity_key@[i] == 0
        }),
        ({
            &&& for_ice matches EngineCall::ReceivedIce {
                remote_peer_id: peer,
                call_id: id,
                ice,
                sender_device_id: device,
            }
            &&& peer@ == remote_peer_id@
            &&& id == call_id
            &&& ice.candidates@.len() == 1
            &&& ice.candidates@[0].opaque@ == bytes@
            &&& device == sender_device_id
        }),
{
    if let EngineCall::ReceivedIce { ice, .. } = for_ice {
        lemma_one_candidate(ice, bytes@);
    }
}

/// Accepting a call takes one engine call, under the id that the C caller
/// passed, whose success is the answer; without a call manager the answer is `false` at once.
pub proof fn law_accept_takes_one_engine_call(
    handle_is_null: bool,
    call_id: u64,
    progress: Progress<EngineCall, bool>,
    succeeded: bool,
    end: Progress<EngineCall, bool>,
)
    requires
        call_ensures(signal2sip_call_accept, (handle_is_null, call_id), progress),
        progress matches Progress::Pending(call) ==> call_ensures(
            EngineCall::resume,
            (call, succeeded),
            end,
        ),
    ensures
        handle_is_null ==> progress == Progress::<EngineCall, bool>::Finished(false),
        !handle_is_null ==> progress == Progress::<EngineCall, bool>::Pending(
            EngineCall::AcceptCall { call_id },
        ) && end == Progress::<EngineCall, bool>::Finished(succeeded),
{
}

/// Reporting a delivered message takes one engine call, under the id that the C caller
/// passed, whose success is the answer; without a call manager the answer is `false` at once.
pub proof fn law_message_sent_takes_one_engine_call(
    handle_is_null: bool,
    call_id: u64,
    progress: Progress<EngineCall, bool>,
    succeeded: bool,
    end: Progress<EngineCall, bool>,
)
    requires
        call_ensures(signal2sip_call_message_sent, (handle_is_null, call_id), progress),
        progress matches Progress::Pending(call) ==> call_ensures(
            EngineCall::resume,
            (call, succeeded),
            end,
        ),
    ensures
        handle_is_null ==> progress == Progress::<EngineCall, bool>::Finished(false),
        !handle_is_null ==> progress == Progress::<EngineCall, bool>::Pending(
            EngineCall::MessageSent { call_id },
        ) && end == Progress::<EngineCall, bool>::Finished(succeeded),
{
}

/// Reporting a message that could not be delivered takes one engine call, under the id that the C
/// caller passed, whose success is the answer; without a call manager the answer is `false` at
/// once.
pub proof fn law_message_send_failure_takes_one_engine_call(
    handle_is_null: bool,
    call_id: u64,
    progress: Progress<EngineCall, bool>,
    succeeded: bool,
    end: Progress<EngineCall, bool>,
)
    requires
        call_ensures(signal2sip_call_message_send_failure, (handle_is_null, call_id), progress),
        progress matches Progress::Pending(call) ==> call_ensures(
            EngineCall::resume,
            (call, succeeded),
            end,
        ),
    ensures
        handle_is_null ==> progress == Progress::<EngineCall, bool>::Finished(false),
        !handle_is_null ==> progress == Progress::<EngineCall, bool>::Pending(
            EngineCall::MessageSendFailure { call_id },
        ) && end == Progress::<EngineCall, bool>::Finished(succeeded),
{
}

/// Hanging up takes one engine call, whose success is the answer; without a call manager the
/// answer is `false` at once.
pub proof fn law_hangup_takes_one_engine_call(
    handle_is_null: bool,
    progress: Progress<EngineCall, bool>,
    succeeded: bool,
    end: Progress<EngineCall, bool>,
)
    requires
        call_ensures(signal2sip_call_hangup, (handle_is_null,), progress),
        progress matches Progress::Pending(call) ==> call_ensures(
            EngineCall::resume,
            (call, succeeded),
            end,
        ),
    ensures
        handle_is_null ==> progress == Progress::<EngineCall, bool>::Finished(false),
        !handle_is_null ==> progress == Progress::<EngineCall, bool>::Pending(EngineCall::Hangup)
            && end == Progress::<EngineCall, bool>::Finished(succeeded),
{
}

/// Without a call manager there is nothing to proceed with.
pub proof fn law_proceed_needs_a_call_manager(call_id: u64, progress: Progress<EngineCall, bool>)
    requires
        call_ensures(signal2sip_call_proceed, (true, call_id), progress),
    ensures
        progress == Progress::<EngineCall, bool>::Finished(false),
{
}

/// An outgoing call is an audio call to the peer and from the device that the C caller passed,
/// under the id that was drawn for it; that id is the answer if the call was created, and 0 if
/// not. No call is created under the id 0. Without a call manager the answer is 0 at once.
pub proof fn law_outgoing_call_is_placed_as_asked(
    handle_is_null: bool,
    remote_peer_id_bytes: Option<&[u8]>,
    local_device_id: u32,
    progress: Progress<NewCall, u64>,
    new_call: NewCall,
    drawn_id: u64,
    drawn: Result<CreateOutgoingCall, NewCall>,
    call: CreateOutgoingCall,
    succeeded: bool,
    answer: u64,
)
    requires
        call_ensures(
            signal2sip_call_start_outgoing,
            (handle_is_null, remote_peer_id_bytes, local_device_id),
            progress,
        ),
        progress matches Progress::Pending(pending) ==> new_call == pending,
        call_ensures(NewCall::with_drawn_id, (new_call, drawn_id), drawn),
        drawn matches Ok(created) ==> call == created,
        call_ensures(CreateOutgoingCall::resume, (call, succeeded), answer),
    ensures
        handle_is_null ==> progress == Progress::<NewCall, u64>::Finished(0),
        drawn is Ok <==> drawn_id != 0,
        drawn matches Err(same) ==> same == new_call,
        !handle_is_null ==> progress is Pending && new_call.local_device_id == local_device_id,
        !handle_is_null ==> {
            let remote_peer_id = new_call.remote_peer_id;
            &&& remote_peer_id_bytes is None ==> remote_peer_id@.len() == 0
            &&& remote_peer_id_bytes matches Some(b) ==> remote_peer_id@ == c_string::utf8_lossy(b@)
            &&& remote_peer_id_bytes matches Some(b) ==> valid_utf8(b@) ==> remote_peer_id@
                == decode_utf8(b@)
        },
        !handle_is_null && drawn_id != 0 ==> {
            let remote_peer_id = call.remote_peer_id;
            &&& remote_peer_id_bytes is None ==> remote_peer_id@.len() == 0
            &&& remote_peer_id_bytes matches Some(b) ==> remote_peer_id@ == c_string::utf8_lossy(b@)
            &&& remote_peer_id_bytes matches Some(b) ==> valid_utf8(b@) ==> remote_peer_id@
                == decode_utf8(b@)
            &&& call.call_id == drawn_id
            &&& call.call_media_type is Audio
            &&& call.local_device_id == local_device_id
            &&& answer == if succeeded {
                drawn_id
            } else {
                0
            }
        },
{
}

/// A call under an id has that id, is an audio call, and keeps its peer and device.
pub proof fn law_identified_call_is_the_same_call(
    new_call: NewCall,
    call_id: u64,
    call: CreateOutgoingCall,
)
    requires
        call_ensures(NewCall::with_call_id, (new_call, call_id), call),
    ensures
        call.remote_peer_id@ == new_call.remote_peer_id@,
        call.call_id == call_id,
        call.call_media_type is Audio,
        call.local_device_id == new_call.local_device_id,
{
}

/// A call manager is created in two steps, and both are to succeed: a peer connection factory with
/// the engine's own audio, no injectable network and no field trials, and on top of it a call
/// manager that does not assume that messages are sent. What the engine reports goes with the
/// context of the C caller.
pub proof fn law_call_manager_is_created_in_two_steps<C>(
    callbacks: Callbacks<C>,
    setup: (SetupCall, CCallbackDelegate<C>),
    factory_succeeded: bool,
    second: Progress<SetupCall, bool>,
    manager_succeeded: bool,
    end: Progress<SetupCall, bool>,
)
    requires
        call_ensures(signal2sip_call_manager_create::<C>, (callbacks,), setup),
        call_ensures(SetupCall::resume, (setup.0, factory_succeeded), second),
        second matches Progress::Pending(call) ==> call_ensures(
            SetupCall::resume,
            (call, manager_succeeded),
            end,
        ),
    ensures
        setup.1.callbacks.context == callbacks.context,
        ({
            &&& setup.0 matches SetupCall::NewPeerConnectionFactory {
                audio_config,
                use_injectable_network,
                field_trials,
            }
            &&& audio_config is Default
            &&& !use_injectable_network
            &&& field_trials@.len() == 0
        }),
        !factory_succeeded ==> second == Progress::<SetupCall, bool>::Finished(false),
        factory_succeeded ==> second == Progress::<SetupCall, bool>::Pending(
            SetupCall::NewCallManager { should_assume_messages_sent: false },
        ) && end == Progress::<SetupCall, bool>::Finished(manager_succeeded),
{
}

/// Samples that the C caller pushes go to the microphone queue as they are, behind those that are
/// there and without the oldest beyond two seconds; without samples nothing happens. Nothing else
/// changes.
pub proof fn law_c_caller_pushes_samples(
    adm: &mut RawPcmAudioDeviceModule,
    samples: Option<&[i16]>,
)
    requires
        call_ensures(signal2sip_push_recorded_samples, (Some(adm), samples), ()),
    ensures
        samples is None ==> final(adm)@ == old(adm)@,
        samples matches Some(s) ==> {
            let before = old(adm)@.mic;
            let after = final(adm)@.mic;
            let total = before.len() + s@.len();
            let dropped = if total > 96_000 {
                total - 96_000
            } else {
                0
            };
            &&& after.len() == total - dropped
            &&& forall|i: int|
                dropped <= i < before.len() ==> after[i - dropped] == #[trigger] before[i]
            &&& forall|i: int|
                0 <= i < s@.len() && dropped <= before.len() + i ==> after[before.len() + i
                    - dropped] == #[trigger] s@[i]
            &&& final(adm)@ == (DeviceState { mic: after, ..old(adm)@ })
        },
{
}

/// The C caller pulls the oldest samples of the speaker queue as they are, as many as fit or are
/// there; without a buffer nothing is pulled. Nothing else changes.
pub proof fn law_c_caller_pulls_samples(
    adm: &mut RawPcmAudioDeviceModule,
    out_is_null: bool,
    max_samples: usize,
    samples: Vec<i16>,
)
    requires
        call_ensures(
            signal2sip_pull_playout_samples,
            (Some(adm), out_is_null, max_samples),
            samples,
        ),
    ensures
        out_is_null ==> samples@.len() == 0 && final(adm)@ == old(adm)@,
        !out_is_null ==> {
            let before = old(adm)@.speaker;
            let after = final(adm)@.speaker;
            &&& samples@.len() == if max_samples < before.len() {
                max_samples as nat
            } else {
                before.len()
            }
            &&& after.len() == before.len() - samples@.len()
            &&& forall|i: int| 0 <= i < samples@.len() ==> #[trigger] samples@[i] == before[i]
            &&& forall|i: int|
                0 <= i < after.len() ==> #[trigger] after[i] == before[samples@.len() + i]
            &&& final(adm)@ == (DeviceState { speaker: after, ..old(adm)@ })
        },
{
}

} // verus!
