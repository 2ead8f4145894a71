//! The negotiation coordinator: one call's session, driven one event at a
//! time. Each handler checks its guard, moves the state machine and returns
//! the actions that the caller must carry out on the channel and on the
//! media engine, in order.
use vstd::prelude::*;
use crate::codec::{
    classify, encode, hello_message, hello_text, ice_text, inbound_of, sdp_text, session_message,
    session_text, Inbound, NegotiationMessage, SdpKind,
};
use crate::state::{
    happy_path, is_progress, is_trace, next_state, progress_trace_follows_happy_path, spec_error_state,
    steps_to, transition, CallState, Trigger,
};

verus! {

/// Lowest registration identifier drawn on channel open.
pub const ID_LOW: u32 = 10;

/// One past the highest registration identifier drawn on channel open.
pub const ID_HIGH: u32 = 10000;

/// A command for the signalling channel or the media engine.
#[derive(Debug, PartialEq, Eq)]
pub enum Action {
    /// Send this text on the signalling channel.
    Send(String),
    /// Build and start the media pipeline.
    StartMedia,
    /// Ask the media engine to create an offer.
    CreateOffer,
    /// Install this SDP offer as the local description.
    SetLocalOffer(String),
    /// Apply this SDP answer as the remote description.
    SetRemoteAnswer(String),
    /// Hand a remote connectivity candidate to the media engine.
    AddRemoteCandidate { sdp_mline_index: u32, candidate: String },
    /// Close the signalling channel.
    CloseChannel,
}

/// A step that the coordinator was asked to take and whose guard failed.
#[derive(Clone, Copy, Debug, PartialEq, Eq, Structural)]
pub enum Attempt {
    OpenChannel,
    Register,
    AcceptRegistration,
    RequestSession,
    AcceptSession,
    StartNegotiation,
    InstallOffer,
    SendOffer,
    SendCandidate,
    ApplyRemoteDescription,
}

/// Why a call cannot go on.
#[derive(Clone, Copy, Debug, PartialEq, Eq, Structural)]
pub enum Fault {
    /// A guard failed: `attempt` is not allowed in phase `state`.
    Protocol { state: CallState, attempt: Attempt },
    /// The server sent an error while the call was in phase `prior`.
    ServerReported { prior: CallState },
    /// A payload that is none of the negotiation messages.
    MalformedPayload,
}

/// What one event asks of the caller: the actions to perform, in order, and
/// the fault that ends the call, if any.
#[derive(Debug)]
pub struct Step {
    pub actions: Vec<Action>,
    pub fault: Option<Fault>,
}

/// The session of the one call: its phase and the peer it calls.
pub struct Session {
    state: CallState,
    peer_id: String,
    history: Ghost<Seq<CallState>>,
}

/// `a` sends exactly the text `t`.
pub open spec fn sends(a: Action, t: Seq<char>) -> bool {
    a matches Action::Send(s) && s@ == t
}

/// The step does nothing and ends the call with `f`.
pub open spec fn fails_with(r: Step, f: Fault) -> bool {
    r.actions@.len() == 0 && r.fault == Some(f)
}

/// The step performs one action and goes on.
pub open spec fn one_action(r: Step) -> bool {
    r.actions@.len() == 1 && r.fault is None
}

/// The step sends exactly the text `t` and goes on.
pub open spec fn sends_only(r: Step, t: Seq<char>) -> bool {
    one_action(r) && sends(r.actions@[0], t)
}

/// Effect of the registration acknowledgement in phase `s0` with trace `t0`,
/// for peer `peer`: accepted only while registering, when the session passes
/// through `ServerRegistered` and requests the session with the peer.
pub open spec fn registration_acked(
    s0: CallState,
    t0: Seq<CallState>,
    peer: Seq<char>,
    s1: CallState,
    t1: Seq<CallState>,
    r: Step,
) -> bool {
    if s0 == CallState::ServerRegistering {
        &&& s1 == CallState::PeerConnecting
        &&& t1 == t0 + seq![CallState::ServerRegistered, CallState::PeerConnecting]
        &&& sends_only(r, session_text(peer))
    } else {
        s1 == s0 && t1 == t0 && fails_with(r, Fault::Protocol { state: s0, attempt: Attempt::AcceptRegistration })
    }
}

/// Effect of the session acknowledgement in phase `s0` with trace `t0`:
/// accepted only while connecting to the peer, when it starts the media.
pub open spec fn session_acked(s0: CallState, t0: Seq<CallState>, s1: CallState, t1: Seq<CallState>, r: Step) -> bool {
    if s0 == CallState::PeerConnecting {
        &&& s1 == CallState::PeerConnected
        &&& t1 == t0.push(CallState::PeerConnected)
        &&& one_action(r)
        &&& r.actions@[0] is StartMedia
    } else {
        s1 == s0 && t1 == t0 && fails_with(r, Fault::Protocol { state: s0, attempt: Attempt::AcceptSession })
    }
}

/// Effect of a server error in phase `s0` with trace `t0`: the error phase of
/// `s0` and the end of the call. The channel is closed once: by the first
/// error, not again by an error that arrives in an error phase.
pub open spec fn server_errored(s0: CallState, t0: Seq<CallState>, s1: CallState, t1: Seq<CallState>, r: Step) -> bool {
    &&& s1 == spec_error_state(s0)
    &&& t1 == t0.push(s1)
    &&& r.actions@.len() == (if s0.is_error() { 0int } else { 1int })
    &&& !s0.is_error() ==> r.actions@[0] is CloseChannel
    &&& r.fault == Some(Fault::ServerReported { prior: s0 })
}

/// Effect of a payload decoded as `msg` in phase `s0` with trace `t0`: a
/// malformed payload ends the call; a candidate is handed on in any phase; an
/// answer is applied only while negotiating; an offer is never accepted.
pub open spec fn remote_received(
    s0: CallState,
    t0: Seq<CallState>,
    msg: Option<NegotiationMessage>,
    s1: CallState,
    t1: Seq<CallState>,
    r: Step,
) -> bool {
    match msg {
        None => s1 == s0 && t1 == t0 && fails_with(r, Fault::MalformedPayload),
        Some(NegotiationMessage::Candidate { sdp_mline_index, candidate }) => {
            &&& s1 == s0
            &&& t1 == t0
            &&& one_action(r)
            &&& (r.actions@[0] matches Action::AddRemoteCandidate { sdp_mline_index: i, candidate: c }
                && i == sdp_mline_index && c@ == candidate@)
        },
        Some(NegotiationMessage::SessionDescription { kind, sdp }) => {
            if kind == SdpKind::Answer && s0 == CallState::PeerCallNegotiating {
                &&& s1 == CallState::PeerCallStarted
                &&& t1 == t0.push(CallState::PeerCallStarted)
                &&& one_action(r)
                &&& (r.actions@[0] matches Action::SetRemoteAnswer(t) && t@ == sdp@)
            } else {
                &&& s1 == s0
                &&& t1 == t0
                &&& fails_with(r, Fault::Protocol { state: s0, attempt: Attempt::ApplyRemoteDescription })
            }
        },
    }
}

/// Relies on rand's `thread_rng().gen_range(low, high)`: a value in
/// `[low, high)`; it panics unless `low < high`.
#[verifier::external_body]
fn random_between(low: u32, high: u32) -> (r: u32)
    requires
        low < high,
    ensures
        low <= r < high,
{
    rand::Rng::gen_range(&mut rand::thread_rng(), low, high)
}

/// A step that refuses `attempt` in phase `state`.
fn refuse(state: CallState, attempt: Attempt) -> (r: Step)
    ensures
        fails_with(r, Fault::Protocol { state, attempt }),
{
    Step { actions: Vec::new(), fault: Some(Fault::Protocol { state, attempt }) }
}

/// A step that performs `a` alone.
fn single(a: Action) -> (r: Step)
    ensures
        r.actions@ == seq![a],
        r.fault is None,
{
    let mut actions = Vec::new();
    actions.push(a);
    Step { actions, fault: None }
}

impl Session {
    /// Current phase.
    pub closed spec fn phase(&self) -> CallState {
        self.state
    }

    /// The peer this session calls.
    pub closed spec fn peer(&self) -> Seq<char> {
        self.peer_id@
    }

    /// The phases the session has entered so far, oldest first.
    pub closed spec fn trace(&self) -> Seq<CallState> {
        self.history@
    }

    /// The trace is a trace of the state machine that ends in the current phase.
    pub closed spec fn wf(&self) -> bool {
        is_trace(self.history@) && self.history@.last() == self.state
    }

    /// What well-formedness says of the visible trace and phase.
    pub proof fn trace_is_valid(&self)
        requires
            self.wf(),
        ensures
            is_trace(self.trace()),
            self.trace().last() == self.phase(),
    {
    }

    /// A session about to connect to the server, to call `peer_id`.
    pub fn new(peer_id: String) -> (r: Session)
        ensures
            r.wf(),
            r.phase() == CallState::ServerConnecting,
            r.trace() == seq![CallState::ServerConnecting],
            r.peer() == peer_id@,
    {
        let ghost start = seq![CallState::ServerConnecting];
        Session { state: CallState::ServerConnecting, peer_id, history: Ghost(start) }
    }

    /// Current phase.
    pub fn state(&self) -> (r: CallState)
        ensures
            r == self.phase(),
    {
        self.state
    }

    /// The peer this session calls.
    pub fn peer_id(&self) -> (r: &str)
        ensures
            r@ == self.peer(),
    {
        self.peer_id.as_str()
    }

    /// Fires trigger `t`: enters the phase it leads to and records it, or
    /// changes nothing where `t` is not allowed in the current phase.
    fn fire(&mut self, t: Trigger) -> (r: bool)
        requires
            old(self).wf(),
        ensures
            final(self).wf(),
            final(self).peer() == old(self).peer(),
            r == next_state(old(self).phase(), t) is Some,
            r ==> final(self).phase() == next_state(old(self).phase(), t)->0
                && final(self).trace() == old(self).trace().push(final(self).phase()),
            !r ==> final(self).phase() == old(self).phase() && final(self).trace() == old(self).trace(),
    {
        match transition(self.state, t) {
            None => false,
            Some(n) => {
                let ghost h = self.history@;
                proof {
                    assert forall|i: int| 0 <= i < h.push(n).len() - 1 implies #[trigger] steps_to(
                        h.push(n)[i],
                        h.push(n)[i + 1],
                    ) by {
                        if i < h.len() - 1 {
                            assert(steps_to(h[i], h[i + 1]));
                        } else {
                            assert(next_state(h[i], t) == Some(n));
                        }
                    }
                }
                self.state = n;
                self.history = Ghost(h.push(n));
                true
            },
        }
    }

    /// The channel opened; enter `ServerConnected` and register with the
    /// identifier `id`.
    pub fn on_open_with_id(&mut self, id: u32) -> (r: Step)
        requires
            old(self).wf(),
        ensures
            final(self).wf(),
            final(self).peer() == old(self).peer(),
            old(self).phase() == CallState::ServerConnecting ==> {
                &&& final(self).phase() == CallState::ServerRegistering
                &&& final(self).trace() == old(self).trace() + seq![
                    CallState::ServerConnected,
                    CallState::ServerRegistering,
                ]
                &&& sends_only(r, hello_text(id))
            },
            old(self).phase() != CallState::ServerConnecting ==> {
                &&& final(self).phase() == old(self).phase()
                &&& final(self).trace() == old(self).trace()
                &&& fails_with(r, Fault::Protocol { state: old(self).phase(), attempt: Attempt::OpenChannel })
            },
    {
        if !self.fire(Trigger::ChannelOpened) {
            return refuse(self.state, Attempt::OpenChannel);
        }
        let r = self.register_with_server(id);
        assert(self.trace() =~= old(self).trace() + seq![CallState::ServerConnected, CallState::ServerRegistering]);
        r
    }

    /// The channel opened; register with an identifier drawn at random from
    /// `[ID_LOW, ID_HIGH)`.
    pub fn on_open(&mut self) -> (r: Step)
        requires
            old(self).wf(),
        ensures
            final(self).wf(),
            final(self).peer() == old(self).peer(),
            old(self).phase() == CallState::ServerConnecting ==> {
                &&& final(self).phase() == CallState::ServerRegistering
                &&& final(self).trace() == old(self).trace() + seq![
                    CallState::ServerConnected,
                    CallState::ServerRegistering,
                ]
                &&& exists|id: u32|
                    ID_LOW <= id < ID_HIGH && #[trigger] sends_only(r, hello_text(id))
            },
            old(self).phase() != CallState::ServerConnecting ==> {
                &&& final(self).phase() == old(self).phase()
                &&& final(self).trace() == old(self).trace()
                &&& fails_with(r, Fault::Protocol { state: old(self).phase(), attempt: Attempt::OpenChannel })
            },
    {
        let id = random_between(ID_LOW, ID_HIGH);
        self.on_open_with_id(id)
    }

    /// Registers with the server under the identifier `id`: sends
    /// `HELLO <id>` and enters `ServerRegistering`. Allowed only once connected.
    pub fn register_with_server(&mut self, id: u32) -> (r: Step)
        requires
            old(self).wf(),
        ensures
            final(self).wf(),
            final(self).peer() == old(self).peer(),
            old(self).phase() == CallState::ServerConnected ==> {
                &&& final(self).phase() == CallState::ServerRegistering
                &&& final(self).trace() == old(self).trace().push(CallState::ServerRegistering)
                &&& sends_only(r, hello_text(id))
            },
            old(self).phase() != CallState::ServerConnected ==> {
                &&& final(self).phase() == old(self).phase()
                &&& final(self).trace() == old(self).trace()
                &&& fails_with(r, Fault::Protocol { state: old(self).phase(), attempt: Attempt::Register })
            },
    {
        if !self.fire(Trigger::RegistrationSent) {
            return refuse(self.state, Attempt::Register);
        }
        single(Action::Send(hello_message(id)))
    }

    /// Requests the session with the peer: sends `SESSION <peer>` and enters
    /// `PeerConnecting`. Allowed only once registered.
    pub fn setup_call(&mut self) -> (r: Step)
        requires
            old(self).wf(),
        ensures
            final(self).wf(),
            final(self).peer() == old(self).peer(),
            old(self).phase() == CallState::ServerRegistered ==> {
                &&& final(self).phase() == CallState::PeerConnecting
                &&& final(self).trace() == old(self).trace().push(CallState::PeerConnecting)
                &&& sends_only(r, session_text(old(self).peer()))
            },
            old(self).phase() != CallState::ServerRegistered ==> {
                &&& final(self).phase() == old(self).phase()
                &&& final(self).trace() == old(self).trace()
                &&& fails_with(r, Fault::Protocol { state: old(self).phase(), attempt: Attempt::RequestSession })
            },
    {
        if !self.fire(Trigger::SessionRequested) {
            return refuse(self.state, Attempt::RequestSession);
        }
        single(Action::Send(session_message(self.peer_id.as_str())))
    }

    /// The server acknowledged the registration (`HELLO`): enter
    /// `ServerRegistered` and request the session with the peer.
    pub fn on_registration_ack(&mut self) -> (r: Step)
        requires
            old(self).wf(),
        ensures
            final(self).wf(),
            final(self).peer() == old(self).peer(),
            registration_acked(
                old(self).phase(),
                old(self).trace(),
                old(self).peer(),
                final(self).phase(),
                final(self).trace(),
                r,
            ),
    {
        if !self.fire(Trigger::RegistrationAck) {
            return refuse(self.state, Attempt::AcceptRegistration);
        }
        let r = self.setup_call();
        assert(self.trace() =~= old(self).trace() + seq![CallState::ServerRegistered, CallState::PeerConnecting]);
        r
    }

    /// The server connected us with the peer (`SESSION_OK`): start the media.
    pub fn on_session_ack(&mut self) -> (r: Step)
        requires
            old(self).wf(),
        ensures
            final(self).wf(),
            final(self).peer() == old(self).peer(),
            session_acked(old(self).phase(), old(self).trace(), final(self).phase(), final(self).trace(), r),
    {
        if !self.fire(Trigger::SessionAck) {
            return refuse(self.state, Attempt::AcceptSession);
        }
        single(Action::StartMedia)
    }

    /// The server reported an error: enter the error phase of the current
    /// phase and end the call, closing the channel unless an earlier error
    /// already did.
    pub fn on_server_error(&mut self) -> (r: Step)
        requires
            old(self).wf(),
        ensures
            final(self).wf(),
            final(self).peer() == old(self).peer(),
            server_errored(old(self).phase(), old(self).trace(), final(self).phase(), final(self).trace(), r),
            old(self).phase() == CallState::PeerConnecting ==> final(self).phase()
                == CallState::PeerConnectionError,
    {
        let prior = self.state;
        let already_failed = is_error_phase(prior);
        self.fire(Trigger::ServerError);
        let mut actions = Vec::new();
        if !already_failed {
            actions.push(Action::CloseChannel);
        }
        Step { actions, fault: Some(Fault::ServerReported { prior }) }
    }

    /// A payload arrived; `msg` is its decoding, `None` where it is none of
    /// the negotiation messages. An answer is applied only while negotiating;
    /// a candidate is handed on in any phase.
    pub fn on_remote_message(&mut self, msg: Option<NegotiationMessage>) -> (r: Step)
        requires
            old(self).wf(),
        ensures
            final(self).wf(),
            final(self).peer() == old(self).peer(),
            remote_received(old(self).phase(), old(self).trace(), msg, final(self).phase(), final(self).trace(), r),
    {
        match msg {
            None => Step { actions: Vec::new(), fault: Some(Fault::MalformedPayload) },
            Some(NegotiationMessage::Candidate { sdp_mline_index, candidate }) => {
                single(Action::AddRemoteCandidate { sdp_mline_index, candidate })
            },
            Some(NegotiationMessage::SessionDescription { kind, sdp }) => {
                match kind {
                    SdpKind::Offer => refuse(self.state, Attempt::ApplyRemoteDescription),
                    SdpKind::Answer => {
                        if !self.fire(Trigger::AnswerApplied) {
                            return refuse(self.state, Attempt::ApplyRemoteDescription);
                        }
                        single(Action::SetRemoteAnswer(sdp))
                    },
                }
            },
        }
    }

    /// A text message arrived on the channel; `payload` is its decoding as a
    /// negotiation message (`None` where it is none). The literal
    /// acknowledgements and the error prefix are recognised first; `payload`
    /// is consulted only for any other text.
    pub fn on_message(&mut self, text: &str, payload: Option<NegotiationMessage>) -> (r: Step)
        requires
            old(self).wf(),
        ensures
            final(self).wf(),
            final(self).peer() == old(self).peer(),
            match inbound_of(text@) {
                Inbound::RegistrationAck => registration_acked(
                    old(self).phase(),
                    old(self).trace(),
                    old(self).peer(),
                    final(self).phase(),
                    final(self).trace(),
                    r,
                ),
                Inbound::SessionAck => session_acked(
                    old(self).phase(),
                    old(self).trace(),
                    final(self).phase(),
                    final(self).trace(),
                    r,
                ),
                Inbound::ServerError => server_errored(
                    old(self).phase(),
                    old(self).trace(),
                    final(self).phase(),
                    final(self).trace(),
                    r,
                ),
                Inbound::Payload => remote_received(
                    old(self).phase(),
                    old(self).trace(),
                    payload,
                    final(self).phase(),
                    final(self).trace(),
                    r,
                ),
            },
    {
        match classify(text) {
            Inbound::RegistrationAck => self.on_registration_ack(),
            Inbound::SessionAck => self.on_session_ack(),
            Inbound::ServerError => self.on_server_error(),
            Inbound::Payload => self.on_remote_message(payload),
        }
    }

    /// The media engine needs negotiation: ask it for an offer.
    pub fn on_negotiation_needed(&mut self) -> (r: Step)
        requires
            old(self).wf(),
        ensures
            final(self).wf(),
            final(self).peer() == old(self).peer(),
            old(self).phase() == CallState::PeerConnected ==> {
                &&& final(self).phase() == CallState::PeerCallNegotiating
                &&& final(self).trace() == old(self).trace().push(CallState::PeerCallNegotiating)
                &&& one_action(r)
                &&& r.actions@[0] is CreateOffer
            },
            old(self).phase() != CallState::PeerConnected ==> {
                &&& final(self).phase() == old(self).phase()
                &&& final(self).trace() == old(self).trace()
                &&& fails_with(r, Fault::Protocol { state: old(self).phase(), attempt: Attempt::StartNegotiation })
            },
    {
        if !self.fire(Trigger::NegotiationNeeded) {
            return refuse(self.state, Attempt::StartNegotiation);
        }
        single(Action::CreateOffer)
    }

    /// The text that sends the offer `sdp`, allowed once negotiation has begun.
    pub fn send_offer(&self, sdp: &str) -> (r: Result<String, Fault>)
        ensures
            self.phase().rank() >= CallState::PeerCallNegotiating.rank() ==> (r matches Ok(t)
                && t@ == sdp_text(SdpKind::Offer, sdp@)),
            self.phase().rank() < CallState::PeerCallNegotiating.rank() ==> r == Err::<String, Fault>(
                Fault::Protocol { state: self.phase(), attempt: Attempt::SendOffer },
            ),
    {
        if !self.state.negotiation_started() {
            return Err(Fault::Protocol { state: self.state, attempt: Attempt::SendOffer });
        }
        let m = NegotiationMessage::SessionDescription { kind: SdpKind::Offer, sdp: String::from_str(sdp) };
        Ok(encode(&m))
    }

    /// The text that sends a local candidate, allowed once negotiation has begun.
    pub fn send_candidate(&self, sdp_mline_index: u32, candidate: &str) -> (r: Result<String, Fault>)
        ensures
            self.phase().rank() >= CallState::PeerCallNegotiating.rank() ==> (r matches Ok(t)
                && t@ == ice_text(sdp_mline_index, candidate@)),
            self.phase().rank() < CallState::PeerCallNegotiating.rank() ==> r == Err::<String, Fault>(
                Fault::Protocol { state: self.phase(), attempt: Attempt::SendCandidate },
            ),
    {
        if !self.state.negotiation_started() {
            return Err(Fault::Protocol { state: self.state, attempt: Attempt::SendCandidate });
        }
        let m = NegotiationMessage::Candidate { sdp_mline_index, candidate: String::from_str(candidate) };
        Ok(encode(&m))
    }

    /// The media engine created the offer `sdp`: install it as the local
    /// description and send it. Allowed only while negotiating.
    pub fn on_offer_created(&self, sdp: String) -> (r: Step)
        ensures
            self.phase() == CallState::PeerCallNegotiating ==> {
                &&& r.actions@.len() == 2
                &&& (r.actions@[0] matches Action::SetLocalOffer(s) && s@ == sdp@)
                &&& sends(r.actions@[1], sdp_text(SdpKind::Offer, sdp@))
                &&& r.fault is None
            },
            self.phase() != CallState::PeerCallNegotiating ==> fails_with(
                r,
                Fault::Protocol { state: self.phase(), attempt: Attempt::InstallOffer },
            ),
    {
        if self.state != CallState::PeerCallNegotiating {
            return refuse(self.state, Attempt::InstallOffer);
        }
        let text = self.send_offer(sdp.as_str()).unwrap();
        let mut actions = Vec::new();
        actions.push(Action::SetLocalOffer(sdp));
        actions.push(Action::Send(text));
        Step { actions, fault: None }
    }

    /// The media engine found a local candidate: send it to the peer.
    /// Allowed once negotiation has begun.
    pub fn on_local_candidate(&self, sdp_mline_index: u32, candidate: &str) -> (r: Step)
        ensures
            self.phase().rank() >= CallState::PeerCallNegotiating.rank() ==> sends_only(
                r,
                ice_text(sdp_mline_index, candidate@),
            ),
            self.phase().rank() < CallState::PeerCallNegotiating.rank() ==> fails_with(
                r,
                Fault::Protocol { state: self.phase(), attempt: Attempt::SendCandidate },
            ),
    {
        match self.send_candidate(sdp_mline_index, candidate) {
            Err(f) => Step { actions: Vec::new(), fault: Some(f) },
            Ok(text) => single(Action::Send(text)),
        }
    }

    /// The channel closed: the session is closed, whatever its phase.
    pub fn on_close(&mut self)
        requires
            old(self).wf(),
        ensures
            final(self).wf(),
            final(self).peer() == old(self).peer(),
            final(self).phase() == CallState::ServerClosed,
            final(self).trace() == old(self).trace().push(CallState::ServerClosed),
    {
        self.fire(Trigger::ChannelClosed);
    }
}

/// Whether `s` is an error phase.
fn is_error_phase(s: CallState) -> (r: bool)
    ensures
        r == s.is_error(),
{
    match s {
        CallState::AppError
        | CallState::ServerConnectionError
        | CallState::ServerRegisteringError
        | CallState::PeerConnectionError
        | CallState::PeerCallError => true,
        _ => false,
    }
}

/// The happy path is monotonic for every session: as long as a session has
/// entered no error phase and has not closed, the phases it has entered are a
/// prefix of the happy path, in order, none skipped and none revisited.
pub proof fn session_follows_happy_path(s: &Session)
    requires
        s.wf(),
        forall|i: int| 0 <= i < s.trace().len() ==> is_progress(#[trigger] s.trace()[i]),
    ensures
        s.trace().len() <= 8,
        s.trace() == happy_path().subrange(0, s.trace().len() as int),
        s.phase() == happy_path()[s.trace().len() - 1],
{
    s.trace_is_valid();
    progress_trace_follows_happy_path(s.trace());
}

} // verus!
