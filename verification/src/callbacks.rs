//! What the call engine reports, and the C callbacks that it turns into.

use vstd::prelude::*;
use vstd::utf8::encode_utf8;

use crate::c_string;
use crate::c_string::peer_id_cstring;

verus! {

pub const CALL_STATE_INCOMING_AUDIO: i32 = 0;

pub const CALL_STATE_OUTGOING_AUDIO: i32 = 1;

pub const CALL_STATE_RINGING: i32 = 2;

pub const CALL_STATE_CONNECTED: i32 = 3;

pub const CALL_STATE_CONNECTING: i32 = 4;

pub const CALL_STATE_ENDED: i32 = 5;

pub const CALL_STATE_REJECTED: i32 = 6;

pub const CALL_STATE_CONCLUDED: i32 = 7;

/// The media of a call.
#[derive(Debug, Clone, Copy, PartialEq, Eq, Structural)]
pub enum CallMediaType {
    Audio,
    Video,
}

/// The state of a call, without the reasons for which a call ended or was rejected: these are
/// not reported to C.
#[derive(Debug, Clone, Copy, PartialEq, Eq, Structural)]
pub enum CallState {
    Incoming(CallMediaType),
    Outgoing(CallMediaType),
    /// Connected but not yet accepted.
    Ringing,
    Connected,
    Connecting,
    Ended,
    Rejected,
    Concluded,
}

/// The number by which the `call_state` callback knows `state`.
pub open spec fn call_state_code(state: CallState) -> i32 {
    match state {
        CallState::Incoming(_) => CALL_STATE_INCOMING_AUDIO,
        CallState::Outgoing(_) => CALL_STATE_OUTGOING_AUDIO,
        CallState::Ringing => CALL_STATE_RINGING,
        CallState::Connected => CALL_STATE_CONNECTED,
        CallState::Connecting => CALL_STATE_CONNECTING,
        CallState::Ended => CALL_STATE_ENDED,
        CallState::Rejected => CALL_STATE_REJECTED,
        CallState::Concluded => CALL_STATE_CONCLUDED,
    }
}

/// The number by which the `call_state` callback knows `state`.
pub fn call_state_to_i32(state: &CallState) -> (code: i32)
    ensures
        code == call_state_code(*state),
{
    match state {
        CallState::Incoming(_) => CALL_STATE_INCOMING_AUDIO,
        CallState::Outgoing(_) => CALL_STATE_OUTGOING_AUDIO,
        CallState::Ringing => CALL_STATE_RINGING,
        CallState::Connected => CALL_STATE_CONNECTED,
        CallState::Connecting => CALL_STATE_CONNECTING,
        CallState::Ended => CALL_STATE_ENDED,
        CallState::Rejected => CALL_STATE_REJECTED,
        CallState::Concluded => CALL_STATE_CONCLUDED,
    }
}

/// An offer to be sent; the media type is the engine's number for it.
#[derive(Debug)]
pub struct Offer {
    pub call_media_type: i32,
    pub opaque: Vec<u8>,
}

/// An answer to be sent.
#[derive(Debug)]
pub struct Answer {
    pub opaque: Vec<u8>,
}

/// One ICE candidate.
#[derive(Debug)]
pub struct IceCandidate {
    pub opaque: Vec<u8>,
}

/// A batch of ICE candidates.
#[derive(Debug)]
pub struct Ice {
    pub candidates: Vec<IceCandidate>,
}

/// A hangup to be sent, by the engine's number for its type and, for some types, a device.
#[derive(Debug)]
pub struct Hangup {
    pub hangup_type: i32,
    pub device_id: Option<u32>,
}

/// A signaling message that the engine wants delivered.
#[derive(Debug)]
pub enum Message {
    Offer(Offer),
    Answer(Answer),
    Ice(Ice),
    Hangup(Hangup),
    Busy,
}

/// A [`Message`] as a mathematical value.
pub enum MessageView {
    Offer { call_media_type: i32, opaque: Seq<u8> },
    Answer { opaque: Seq<u8> },
    Ice { candidates: Seq<Seq<u8>> },
    Hangup { hangup_type: i32, device_id: Option<u32> },
    Busy,
}

/// The bytes of each of `candidates`.
pub open spec fn candidates_view(candidates: Seq<IceCandidate>) -> Seq<Seq<u8>> {
    candidates.map_values(|c: IceCandidate| c.opaque@)
}

impl View for Message {
    type V = MessageView;

    open spec fn view(&self) -> MessageView {
        match *self {
            Message::Offer(o) => MessageView::Offer {
                call_media_type: o.call_media_type,
                opaque: o.opaque@,
            },
            Message::Answer(a) => MessageView::Answer { opaque: a.opaque@ },
            Message::Ice(i) => MessageView::Ice { candidates: candidates_view(i.candidates@) },
            Message::Hangup(h) => MessageView::Hangup {
                hangup_type: h.hangup_type,
                device_id: h.device_id,
            },
            Message::Busy => MessageView::Busy,
        }
    }
}

/// Which callback is invoked, with the arguments of its own.
#[derive(Debug)]
pub enum CallbackArgs {
    SendOffer { call_media_type: i32, opaque: Vec<u8> },
    SendAnswer { opaque: Vec<u8> },
    SendIce { has_receiver_device_id: bool, receiver_device_id: u32, opaque: Vec<u8> },
    SendHangup { hangup_type: i32, hangup_device_id: u32 },
    CallState { call_state: i32 },
}

/// [`CallbackArgs`] as a mathematical value.
pub enum CallbackArgsView {
    SendOffer { call_media_type: i32, opaque: Seq<u8> },
    SendAnswer { opaque: Seq<u8> },
    SendIce { has_receiver_device_id: bool, receiver_device_id: u32, opaque: Seq<u8> },
    SendHangup { hangup_type: i32, hangup_device_id: u32 },
    CallState { call_state: i32 },
}

impl View for CallbackArgs {
    type V = CallbackArgsView;

    open spec fn view(&self) -> CallbackArgsView {
        match *self {
            CallbackArgs::SendOffer { call_media_type, opaque } => CallbackArgsView::SendOffer {
                call_media_type,
                opaque: opaque@,
            },
            CallbackArgs::SendAnswer { opaque } => CallbackArgsView::SendAnswer {
                opaque: opaque@,
            },
            CallbackArgs::SendIce {
                has_receiver_device_id,
                receiver_device_id,
                opaque,
            } => CallbackArgsView::SendIce {
                has_receiver_device_id,
                receiver_device_id,
                opaque: opaque@,
            },
            CallbackArgs::SendHangup {
                hangup_type,
                hangup_device_id,
            } => CallbackArgsView::SendHangup { hangup_type, hangup_device_id },
            CallbackArgs::CallState { call_state } => CallbackArgsView::CallState { call_state },
        }
    }
}

/// One invocation of a callback: the owner's context, the peer as a C string (terminator
/// included), the call, and the callback with its own arguments.
#[derive(Debug)]
pub struct CallbackCall<C> {
    pub context: C,
    pub remote_peer_id: Vec<u8>,
    pub call_id: u64,
    pub args: CallbackArgs,
}

/// A [`CallbackCall`] as a mathematical value.
#[verifier::ext_equal]
pub struct CallbackCallView<C> {
    pub context: C,
    pub remote_peer_id: Seq<u8>,
    pub call_id: u64,
    pub args: CallbackArgsView,
}

impl<C> View for CallbackCall<C> {
    type V = CallbackCallView<C>;

    open spec fn view(&self) -> CallbackCallView<C> {
        CallbackCallView {
            context: self.context,
            remote_peer_id: self.remote_peer_id@,
            call_id: self.call_id,
            args: self.args@,
        }
    }
}

/// What `calls` invoke, in order.
pub open spec fn calls_view<C>(calls: Seq<CallbackCall<C>>) -> Seq<CallbackCallView<C>> {
    calls.map_values(|c: CallbackCall<C>| c@)
}

/// `id`, or 0 where there is none.
pub open spec fn device_or_zero(id: Option<u32>) -> u32 {
    match id {
        Some(d) => d,
        None => 0,
    }
}

/// The callback that delivers one ICE candidate.
pub open spec fn ice_args(receiver_device_id: Option<u32>, candidate: Seq<u8>) -> CallbackArgsView {
    CallbackArgsView::SendIce {
        has_receiver_device_id: receiver_device_id is Some,
        receiver_device_id: device_or_zero(receiver_device_id),
        opaque: candidate,
    }
}

/// The callbacks that deliver `message`: one for an offer, answer or hangup, one for each
/// candidate of an ICE message, and none for a busy message, which a gateway for one call at a
/// time has no use for.
pub open spec fn signaling_args(
    receiver_device_id: Option<u32>,
    message: MessageView,
) -> Seq<CallbackArgsView> {
    match message {
        MessageView::Offer { call_media_type, opaque } => seq![
            CallbackArgsView::SendOffer { call_media_type, opaque },
        ],
        MessageView::Answer { opaque } => seq![CallbackArgsView::SendAnswer { opaque }],
        MessageView::Ice { candidates } => candidates.map_values(
            |c: Seq<u8>| ice_args(receiver_device_id, c),
        ),
        MessageView::Hangup { hangup_type, device_id } => seq![
            CallbackArgsView::SendHangup {
                hangup_type,
                hangup_device_id: device_or_zero(device_id),
            },
        ],
        MessageView::Busy => Seq::empty(),
    }
}

/// The invocation, for a peer and a call, of a callback with its own arguments `args`.
pub open spec fn invocation<C>(
    context: C,
    peer_id: Seq<char>,
    call_id: u64,
    args: CallbackArgsView,
) -> CallbackCallView<C> {
    CallbackCallView {
        context,
        remote_peer_id: c_string::peer_id_c_string(peer_id),
        call_id,
        args,
    }
}

/// The invocations that deliver `message`, in order.
pub open spec fn signaling_calls<C>(
    context: C,
    recipient_id: Seq<char>,
    call_id: u64,
    receiver_device_id: Option<u32>,
    message: MessageView,
) -> Seq<CallbackCallView<C>> {
    signaling_args(receiver_device_id, message).map_values(
        |args: CallbackArgsView| invocation(context, recipient_id, call_id, args),
    )
}

/// The callbacks of one call manager. `context` is an opaque token of the C caller's that goes
/// with every invocation; the functions themselves stay with whoever invokes them.
#[derive(Debug)]
pub struct Callbacks<C> {
    pub context: C,
}

/// Turns what the engine reports into invocations of the C callbacks.
#[derive(Debug)]
pub struct CCallbackDelegate<C> {
    pub callbacks: Callbacks<C>,
}

impl<C: Copy> CCallbackDelegate<C> {
    /// The invocations that deliver `message` to `recipient_id`.
    pub fn send_signaling(
        &self,
        recipient_id: &str,
        call_id: u64,
        receiver_device_id: Option<u32>,
        message: Message,
    ) -> (calls: Vec<CallbackCall<C>>)
        ensures
            calls_view(calls@) == signaling_calls(
                self.callbacks.context,
                recipient_id@,
                call_id,
                receiver_device_id,
                message@,
            ),
    {
        let ghost expected = signaling_calls(
            self.callbacks.context,
            recipient_id@,
            call_id,
            receiver_device_id,
            message@,
        );
        let mut calls: Vec<CallbackCall<C>> = Vec::new();
        match message {
            Message::Offer(offer) => {
                calls.push(
                    self.invoke(
                        recipient_id,
                        call_id,
                        CallbackArgs::SendOffer {
                            call_media_type: offer.call_media_type,
                            opaque: offer.opaque,
                        },
                    ),
                );
            },
            Message::Answer(answer) => {
                calls.push(
                    self.invoke(
                        recipient_id,
                        call_id,
                        CallbackArgs::SendAnswer { opaque: answer.opaque },
                    ),
                );
            },
            Message::Ice(ice) => {
                // One invocation per candidate keeps the C interface simple: a list of
                // candidates would need an allocation scheme across the boundary.
                let ghost candidates = ice.candidates@;
                for candidate in it: ice.candidates
                    invariant
                        it.seq() == candidates,
                        calls@.len() == it.index(),
                        forall|i: int|
                            0 <= i < calls@.len() ==> (#[trigger] calls@[i])@ == invocation(
                                self.callbacks.context,
                                recipient_id@,
                                call_id,
                                ice_args(receiver_device_id, candidates[i].opaque@),
                            ),
                {
                    calls.push(
                        self.invoke(
                            recipient_id,
                            call_id,
                            CallbackArgs::SendIce {
                                has_receiver_device_id: receiver_device_id.is_some(),
                                receiver_device_id: receiver_device_id.unwrap_or(0),
                                opaque: candidate.opaque,
                            },
                        ),
                    );
                }
            },
            Message::Hangup(hangup) => {
                calls.push(
                    self.invoke(
                        recipient_id,
                        call_id,
                        CallbackArgs::SendHangup {
                            hangup_type: hangup.hangup_type,
                            hangup_device_id: hangup.device_id.unwrap_or(0),
                        },
                    ),
                );
            },
            Message::Busy => {},
        }
        assert(calls_view(calls@) =~= expected);
        calls
    }

    fn invoke(&self, peer_id: &str, call_id: u64, args: CallbackArgs) -> (call: CallbackCall<C>)
        ensures
            call@ == invocation(self.callbacks.context, peer_id@, call_id, args@),
    {
        CallbackCall {
            context: self.callbacks.context,
            remote_peer_id: peer_id_cstring(peer_id),
            call_id,
            args,
        }
    }

    /// The invocation that reports the new state of a call.
    pub fn handle_call_state(
        &self,
        remote_peer_id: &str,
        call_id: u64,
        state: CallState,
    ) -> (call: CallbackCall<C>)
        ensures
            call@ == invocation(
                self.callbacks.context,
                remote_peer_id@,
                call_id,
                (CallbackArgsView::CallState { call_state: call_state_code(state) }),
            ),
    {
        self.invoke(
            remote_peer_id,
            call_id,
            CallbackArgs::CallState { call_state: call_state_to_i32(&state) },
        )
    }

    /// Group-call signaling to one user is not reported: calls are between two parties.
    pub fn send_call_message(
        &self,
        _recipient_id: &[u8],
        _message: &[u8],
    ) -> (calls: Vec<CallbackCall<C>>)
        ensures
            calls@.len() == 0,
    {
        Vec::new()
    }

    /// Group-call signaling to a group is not reported.
    pub fn send_call_message_to_group(
        &self,
        _group_id: &[u8],
        _message: &[u8],
    ) -> (calls: Vec<CallbackCall<C>>)
        ensures
            calls@.len() == 0,
    {
        Vec::new()
    }

    /// Group-call signaling to an ad-hoc group is not reported.
    pub fn send_call_message_to_adhoc_group(
        &self,
        _message: &[u8],
        _expiration: u64,
    ) -> (calls: Vec<CallbackCall<C>>)
        ensures
            calls@.len() == 0,
    {
        Vec::new()
    }

    /// Whether the remote peer's audio is on is not reported.
    pub fn handle_remote_audio_state(
        &self,
        _remote_peer_id: &str,
        _enabled: bool,
    ) -> (calls: Vec<CallbackCall<C>>)
        ensures
            calls@.len() == 0,
    {
        Vec::new()
    }

    /// Whether the remote peer's video is on is not reported.
    pub fn handle_remote_video_state(
        &self,
        _remote_peer_id: &str,
        _enabled: bool,
    ) -> (calls: Vec<CallbackCall<C>>)
        ensures
            calls@.len() == 0,
    {
        Vec::new()
    }

    /// Whether the remote peer shares a screen is not reported.
    pub fn handle_remote_sharing_screen(
        &self,
        _remote_peer_id: &str,
        _enabled: bool,
    ) -> (calls: Vec<CallbackCall<C>>)
        ensures
            calls@.len() == 0,
    {
        Vec::new()
    }

    /// A change of the network route is not reported.
    pub fn handle_network_route(&self, _remote_peer_id: &str) -> (calls: Vec<CallbackCall<C>>)
        ensures
            calls@.len() == 0,
    {
        Vec::new()
    }

    /// Audio levels are not reported.
    pub fn handle_audio_levels(&self, _remote_peer_id: &str) -> (calls: Vec<CallbackCall<C>>)
        ensures
            calls@.len() == 0,
    {
        Vec::new()
    }

    /// Low bandwidth for video is not reported.
    pub fn handle_low_bandwidth_for_video(
        &self,
        _remote_peer_id: &str,
        _recovered: bool,
    ) -> (calls: Vec<CallbackCall<C>>)
        ensures
            calls@.len() == 0,
    {
        Vec::new()
    }
}

/// States of different kinds have different numbers, and the media of a call do not matter.
pub proof fn law_call_state_codes_tell_kinds_apart(a: CallState, b: CallState)
    ensures
        0 <= call_state_code(a) <= 7,
        call_state_code(a) == call_state_code(b) <==> (a == b || (a is Incoming && b is Incoming)
            || (a is Outgoing && b is Outgoing)),
{
}

/// Every invocation carries the context of the C caller, the recipient and the call.
pub proof fn law_context_goes_with_every_invocation<C>(
    context: C,
    recipient_id: Seq<char>,
    call_id: u64,
    receiver_device_id: Option<u32>,
    message: MessageView,
    i: int,
)
    requires
        0 <= i < signaling_calls(context, recipient_id, call_id, receiver_device_id, message).len(),
    ensures
        ({
            let call = signaling_calls(
                context,
                recipient_id,
                call_id,
                receiver_device_id,
                message,
            )[i];
            &&& call.context == context
            &&& call.remote_peer_id == c_string::peer_id_c_string(recipient_id)
            &&& call.call_id == call_id
        }),
{
}

/// The number of invocations: one per ICE candidate, none for busy, one for anything else.
pub proof fn law_invocation_count<C>(
    context: C,
    recipient_id: Seq<char>,
    call_id: u64,
    receiver_device_id: Option<u32>,
    message: MessageView,
)
    ensures
        signaling_calls(context, recipient_id, call_id, receiver_device_id, message).len() == (
        match message {
            MessageView::Ice { candidates } => candidates.len(),
            MessageView::Busy => 0,
            _ => 1,
        }),
{
}

/// Candidates sent in two batches give the same invocations as in one.
pub proof fn law_ice_in_batches<C>(
    context: C,
    recipient_id: Seq<char>,
    call_id: u64,
    receiver_device_id: Option<u32>,
    a: Seq<Seq<u8>>,
    b: Seq<Seq<u8>>,
)
    ensures
        signaling_calls(
            context,
            recipient_id,
            call_id,
            receiver_device_id,
            (MessageView::Ice { candidates: a }),
        ) + signaling_calls(
            context,
            recipient_id,
            call_id,
            receiver_device_id,
            (MessageView::Ice { candidates: b }),
        ) == signaling_calls(
            context,
            recipient_id,
            call_id,
            receiver_device_id,
            (MessageView::Ice { candidates: a + b }),
        ),
{
    assert(signaling_calls(
        context,
        recipient_id,
        call_id,
        receiver_device_id,
        (MessageView::Ice { candidates: a }),
    ) + signaling_calls(
        context,
        recipient_id,
        call_id,
        receiver_device_id,
        (MessageView::Ice { candidates: b }),
    ) =~= signaling_calls(
        context,
        recipient_id,
        call_id,
        receiver_device_id,
        (MessageView::Ice { candidates: a + b }),
    ));
}

/// The receiving device of a candidate can be told from the callback's arguments, a device
/// numbered 0 included.
pub proof fn law_receiver_device_is_told(a: Option<u32>, b: Option<u32>, candidate: Seq<u8>)
    ensures
        ice_args(a, candidate) == ice_args(b, candidate) <==> a == b,
{
}

/// An offer is delivered by one invocation, to its recipient and for its call, with the offer's own
/// media type and bytes.
pub proof fn law_offer_is_delivered_as_it_is<C: Copy>(
    delegate: &CCallbackDelegate<C>,
    recipient_id: &str,
    call_id: u64,
    receiver_device_id: Option<u32>,
    offer: Offer,
    calls: Vec<CallbackCall<C>>,
)
    requires
        call_ensures(
            CCallbackDelegate::<C>::send_signaling,
            (delegate, recipient_id, call_id, receiver_device_id, Message::Offer(offer)),
            calls,
        ),
    ensures
        ({
            let call = calls@[0];
            &&& calls@.len() == 1
            &&& call.context == delegate.callbacks.context
            &&& call.remote_peer_id@ == if recipient_id@.contains('\0') {
                seq![0u8]
            } else {
                encode_utf8(recipient_id@).push(0)
            }
            &&& call.call_id == call_id
            &&& call.args matches CallbackArgs::SendOffer { call_media_type, opaque }
            &&& call_media_type == offer.call_media_type
            &&& opaque@ == offer.opaque@
        }),
{
    assert(calls@.len() == calls_view(calls@).len());
    assert(calls_view(calls@)[0] == calls@[0]@);
    c_string::law_only_nul_is_dropped(recipient_id@);
    assert(Seq::<u8>::empty().push(0u8) =~= seq![0u8]);
}

/// An answer is delivered by one invocation, to its recipient and for its call, with the answer's
/// own bytes.
pub proof fn law_answer_is_delivered_as_it_is<C: Copy>(
    delegate: &CCallbackDelegate<C>,
    recipient_id: &str,
    call_id: u64,
    receiver_device_id: Option<u32>,
    answer: Answer,
    calls: Vec<CallbackCall<C>>,
)
    requires
        call_ensures(
            CCallbackDelegate::<C>::send_signaling,
            (delegate, recipient_id, call_id, receiver_device_id, Message::Answer(answer)),
            calls,
        ),
    ensures
        ({
            let call = calls@[0];
            &&& calls@.len() == 1
            &&& call.context == delegate.callbacks.context
            &&& call.remote_peer_id@ == if recipient_id@.contains('\0') {
                seq![0u8]
            } else {
                encode_utf8(recipient_id@).push(0)
            }
            &&& call.call_id == call_id
            &&& call.args matches CallbackArgs::SendAnswer { opaque }
            &&& opaque@ == answer.opaque@
        }),
{
    assert(calls@.len() == calls_view(calls@).len());
    assert(calls_view(calls@)[0] == calls@[0]@);
    c_string::law_only_nul_is_dropped(recipient_id@);
    assert(Seq::<u8>::empty().push(0u8) =~= seq![0u8]);
}

/// A hangup is delivered by one invocation, to its recipient and for its call, with the hangup's
/// own type and device, or 0 where it has none.
pub proof fn law_hangup_is_delivered_as_it_is<C: Copy>(
    delegate: &CCallbackDelegate<C>,
    recipient_id: &str,
    call_id: u64,
    receiver_device_id: Option<u32>,
    hangup: Hangup,
    calls: Vec<CallbackCall<C>>,
)
    requires
        call_ensures(
            CCallbackDelegate::<C>::send_signaling,
            (delegate, recipient_id, call_id, receiver_device_id, Message::Hangup(hangup)),
            calls,
        ),
    ensures
        ({
            let call = calls@[0];
            &&& calls@.len() == 1
            &&& call.context == delegate.callbacks.context
            &&& call.remote_peer_id@ == if recipient_id@.contains('\0') {
                seq![0u8]
            } else {
                encode_utf8(recipient_id@).push(0)
            }
            &&& call.call_id == call_id
            &&& call.args matches CallbackArgs::SendHangup { hangup_type, hangup_device_id }
            &&& hangup_type == hangup.hangup_type
            &&& hangup.device_id is None ==> hangup_device_id == 0
            &&& hangup.device_id matches Some(device) ==> hangup_device_id == device
        }),
{
    assert(calls@.len() == calls_view(calls@).len());
    assert(calls_view(calls@)[0] == calls@[0]@);
    c_string::law_only_nul_is_dropped(recipient_id@);
    assert(Seq::<u8>::empty().push(0u8) =~= seq![0u8]);
}

/// ICE candidates are delivered by one invocation each and in order, to their recipient and for
/// their call, with the candidate's own bytes and the receiving device, if there is one.
pub proof fn law_ice_is_delivered_as_it_is<C: Copy>(
    delegate: &CCallbackDelegate<C>,
    recipient_id: &str,
    call_id: u64,
    receiver_device_id: Option<u32>,
    ice: Ice,
    calls: Vec<CallbackCall<C>>,
)
    requires
        call_ensures(
            CCallbackDelegate::<C>::send_signaling,
            (delegate, recipient_id, call_id, receiver_device_id, Message::Ice(ice)),
            calls,
        ),
    ensures
        calls@.len() == ice.candidates@.len(),
        forall|i: int|
            0 <= i < calls@.len() ==> {
                let call = #[trigger] calls@[i];
                &&& call.context == delegate.callbacks.context
                &&& call.remote_peer_id@ == if recipient_id@.contains('\0') {
                    seq![0u8]
                } else {
                    encode_utf8(recipient_id@).push(0)
                }
                &&& call.call_id == call_id
                &&& call.args matches CallbackArgs::SendIce {
                    has_receiver_device_id,
                    receiver_device_id: device,
                    opaque,
                }
                &&& has_receiver_device_id == receiver_device_id is Some
                &&& receiver_device_id is None ==> device == 0
                &&& receiver_device_id matches Some(d) ==> device == d
                &&& opaque@ == ice.candidates@[i].opaque@
            },
{
    assert(calls@.len() == calls_view(calls@).len());
    c_string::law_only_nul_is_dropped(recipient_id@);
    assert(Seq::<u8>::empty().push(0u8) =~= seq![0u8]);
    assert forall|i: int| 0 <= i < calls@.len() implies #[trigger] calls_view(calls@)[i]
        == invocation(
        delegate.callbacks.context,
        recipient_id@,
        call_id,
        ice_args(receiver_device_id, ice.candidates@[i].opaque@),
    ) by {}
    assert forall|i: int| 0 <= i < calls@.len() implies (#[trigger] calls@[i])@
        == calls_view(calls@)[i] by {}
}

/// A busy message is not delivered.
pub proof fn law_busy_is_not_delivered<C: Copy>(
    delegate: &CCallbackDelegate<C>,
    recipient_id: &str,
    call_id: u64,
    receiver_device_id: Option<u32>,
    calls: Vec<CallbackCall<C>>,
)
    requires
        call_ensures(
            CCallbackDelegate::<C>::send_signaling,
            (delegate, recipient_id, call_id, receiver_device_id, Message::Busy),
            calls,
        ),
    ensures
        calls@.len() == 0,
{
    assert(calls@.len() == calls_view(calls@).len());
}

/// Offers that differ in their media type or their bytes lead to invocations that differ in the
/// same.
pub proof fn law_different_offers_are_told_apart<C: Copy>(
    delegate: &CCallbackDelegate<C>,
    recipient_id: &str,
    call_id: u64,
    receiver_device_id: Option<u32>,
    a: Offer,
    a_calls: Vec<CallbackCall<C>>,
    b: Offer,
    b_calls: Vec<CallbackCall<C>>,
)
    requires
        call_ensures(
            CCallbackDelegate::<C>::send_signaling,
            (delegate, recipient_id, call_id, receiver_device_id, Message::Offer(a)),
            a_calls,
        ),
        call_ensures(
            CCallbackDelegate::<C>::send_signaling,
            (delegate, recipient_id, call_id, receiver_device_id, Message::Offer(b)),
            b_calls,
        ),
        a.call_media_type != b.call_media_type || a.opaque@ != b.opaque@,
    ensures
        a_calls@[0].args != b_calls@[0].args,
{
    law_offer_is_delivered_as_it_is(
        delegate,
        recipient_id,
        call_id,
        receiver_device_id,
        a,
        a_calls,
    );
    law_offer_is_delivered_as_it_is(
        delegate,
        recipient_id,
        call_id,
        receiver_device_id,
        b,
        b_calls,
    );
}

/// A state of a call is reported for that call and its peer, by the number that C knows it by.
pub proof fn law_call_state_is_reported_as_it_is<C: Copy>(
    delegate: &CCallbackDelegate<C>,
    remote_peer_id: &str,
    call_id: u64,
    state: CallState,
    call: CallbackCall<C>,
)
    requires
        call_ensures(
            CCallbackDelegate::<C>::handle_call_state,
            (delegate, remote_peer_id, call_id, state),
            call,
        ),
    ensures
        ({
            &&& call.context == delegate.callbacks.context
            &&& call.remote_peer_id@ == if remote_peer_id@.contains('\0') {
                seq![0u8]
            } else {
                encode_utf8(remote_peer_id@).push(0)
            }
            &&& call.call_id == call_id
            &&& call.args matches CallbackArgs::CallState { call_state }
            &&& call_state == match state {
                CallState::Incoming(_) => 0i32,
                CallState::Outgoing(_) => 1i32,
                CallState::Ringing => 2i32,
                CallState::Connected => 3i32,
                CallState::Connecting => 4i32,
                CallState::Ended => 5i32,
                CallState::Rejected => 6i32,
                CallState::Concluded => 7i32,
            }
        }),
{
    c_string::law_only_nul_is_dropped(remote_peer_id@);
    assert(Seq::<u8>::empty().push(0u8) =~= seq![0u8]);
}

/// The numbers of the states are those that C knows.
pub proof fn law_call_state_numbers(state: &CallState, code: i32)
    requires
        call_ensures(call_state_to_i32, (state,), code),
    ensures
        *state is Incoming <==> code == 0,
        *state is Outgoing <==> code == 1,
        *state is Ringing <==> code == 2,
        *state is Connected <==> code == 3,
        *state is Connecting <==> code == 4,
        *state is Ended <==> code == 5,
        *state is Rejected <==> code == 6,
        *state is Concluded <==> code == 7,
{
}

} // verus!
