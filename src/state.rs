//! The call lifecycle: phases, their total order, and the transition relation.
use vstd::prelude::*;

verus! {

/// Phase of the one call that a session drives.
///
/// The phases are totally ordered by `rank`; the guards of the coordinator
/// compare phases through that order only.
#[derive(Clone, Copy, Debug, PartialEq, Eq, Structural)]
pub enum CallState {
    /// Generic fault, for phases that have no error state of their own.
    AppError,
    ServerConnecting,
    ServerConnectionError,
    ServerConnected,
    ServerRegistering,
    ServerRegisteringError,
    ServerRegistered,
    ServerClosed,
    PeerConnecting,
    PeerConnectionError,
    PeerConnected,
    PeerCallNegotiating,
    PeerCallStarted,
    PeerCallError,
}

/// What moves the state machine from one phase to the next.
#[derive(Clone, Copy, Debug, PartialEq, Eq, Structural)]
pub enum Trigger {
    ChannelOpened,
    RegistrationSent,
    RegistrationAck,
    SessionRequested,
    SessionAck,
    NegotiationNeeded,
    AnswerApplied,
    ServerError,
    ChannelClosed,
}

impl CallState {
    /// Position of the phase in the total order, lowest first.
    pub open spec fn rank(self) -> nat {
        match self {
            CallState::AppError => 0,
            CallState::ServerConnecting => 1,
            CallState::ServerConnectionError => 2,
            CallState::ServerConnected => 3,
            CallState::ServerRegistering => 4,
            CallState::ServerRegisteringError => 5,
            CallState::ServerRegistered => 6,
            CallState::ServerClosed => 7,
            CallState::PeerConnecting => 8,
            CallState::PeerConnectionError => 9,
            CallState::PeerConnected => 10,
            CallState::PeerCallNegotiating => 11,
            CallState::PeerCallStarted => 12,
            CallState::PeerCallError => 13,
        }
    }

    /// The terminal error phases.
    pub open spec fn is_error(self) -> bool {
        match self {
            CallState::AppError
            | CallState::ServerConnectionError
            | CallState::ServerRegisteringError
            | CallState::PeerConnectionError
            | CallState::PeerCallError => true,
            _ => false,
        }
    }

    /// Executable form of `rank`.
    pub fn position(&self) -> (r: u8)
        ensures
            r as nat == self.rank(),
    {
        match self {
            CallState::AppError => 0,
            CallState::ServerConnecting => 1,
            CallState::ServerConnectionError => 2,
            CallState::ServerConnected => 3,
            CallState::ServerRegistering => 4,
            CallState::ServerRegisteringError => 5,
            CallState::ServerRegistered => 6,
            CallState::ServerClosed => 7,
            CallState::PeerConnecting => 8,
            CallState::PeerConnectionError => 9,
            CallState::PeerConnected => 10,
            CallState::PeerCallNegotiating => 11,
            CallState::PeerCallStarted => 12,
            CallState::PeerCallError => 13,
        }
    }

    /// Whether this phase comes at or after `other` in the total order.
    pub fn at_least(&self, other: &CallState) -> (r: bool)
        ensures
            r == (self.rank() >= other.rank()),
    {
        self.position() >= other.position()
    }

    /// Whether negotiation has begun: the phase is `PeerCallNegotiating` or later.
    pub fn negotiation_started(&self) -> (r: bool)
        ensures
            r == (self.rank() >= CallState::PeerCallNegotiating.rank()),
    {
        self.at_least(&CallState::PeerCallNegotiating)
    }
}

/// The phase entered when the server reports an error while in `s`.
pub open spec fn spec_error_state(s: CallState) -> CallState {
    match s {
        CallState::ServerConnecting => CallState::ServerConnectionError,
        CallState::ServerRegistering => CallState::ServerRegisteringError,
        CallState::PeerConnecting => CallState::PeerConnectionError,
        CallState::PeerConnected => CallState::PeerCallError,
        CallState::PeerCallNegotiating => CallState::PeerCallError,
        CallState::ServerConnectionError => CallState::ServerConnectionError,
        CallState::ServerRegisteringError => CallState::ServerRegisteringError,
        CallState::PeerConnectionError => CallState::PeerConnectionError,
        CallState::PeerCallError => CallState::PeerCallError,
        _ => CallState::AppError,
    }
}

/// The transition relation: the phase that `t` leads to from `s`, or `None`
/// where `t` is not allowed in `s`.
pub open spec fn next_state(s: CallState, t: Trigger) -> Option<CallState> {
    match t {
        Trigger::ServerError => Some(spec_error_state(s)),
        Trigger::ChannelClosed => Some(CallState::ServerClosed),
        _ => {
            let (from, to) = match t {
                Trigger::ChannelOpened => (CallState::ServerConnecting, CallState::ServerConnected),
                Trigger::RegistrationSent => (CallState::ServerConnected, CallState::ServerRegistering),
                Trigger::RegistrationAck => (CallState::ServerRegistering, CallState::ServerRegistered),
                Trigger::SessionRequested => (CallState::ServerRegistered, CallState::PeerConnecting),
                Trigger::SessionAck => (CallState::PeerConnecting, CallState::PeerConnected),
                Trigger::NegotiationNeeded => (CallState::PeerConnected, CallState::PeerCallNegotiating),
                _ => (CallState::PeerCallNegotiating, CallState::PeerCallStarted),
            };
            if s == from {
                Some(to)
            } else {
                None
            }
        },
    }
}

/// The error phase for a server-reported error received in `s`.
pub fn error_state(s: CallState) -> (r: CallState)
    ensures
        r == spec_error_state(s),
        r.is_error(),
{
    match s {
        CallState::ServerConnecting => CallState::ServerConnectionError,
        CallState::ServerRegistering => CallState::ServerRegisteringError,
        CallState::PeerConnecting => CallState::PeerConnectionError,
        CallState::PeerConnected => CallState::PeerCallError,
        CallState::PeerCallNegotiating => CallState::PeerCallError,
        CallState::ServerConnectionError => CallState::ServerConnectionError,
        CallState::ServerRegisteringError => CallState::ServerRegisteringError,
        CallState::PeerConnectionError => CallState::PeerConnectionError,
        CallState::PeerCallError => CallState::PeerCallError,
        _ => CallState::AppError,
    }
}

/// Applies trigger `t` in phase `s`; `None` where the trigger is not allowed there.
pub fn transition(s: CallState, t: Trigger) -> (r: Option<CallState>)
    ensures
        r == next_state(s, t),
{
    match t {
        Trigger::ServerError => Some(error_state(s)),
        Trigger::ChannelClosed => Some(CallState::ServerClosed),
        _ => {
            let (from, to) = match t {
                Trigger::ChannelOpened => (CallState::ServerConnecting, CallState::ServerConnected),
                Trigger::RegistrationSent => (CallState::ServerConnected, CallState::ServerRegistering),
                Trigger::RegistrationAck => (CallState::ServerRegistering, CallState::ServerRegistered),
                Trigger::SessionRequested => (CallState::ServerRegistered, CallState::PeerConnecting),
                Trigger::SessionAck => (CallState::PeerConnecting, CallState::PeerConnected),
                Trigger::NegotiationNeeded => (CallState::PeerConnected, CallState::PeerCallNegotiating),
                _ => (CallState::PeerCallNegotiating, CallState::PeerCallStarted),
            };
            if s == from {
                Some(to)
            } else {
                None
            }
        },
    }
}

/// The phases of a call that goes well, in order.
pub open spec fn happy_path() -> Seq<CallState> {
    seq![
        CallState::ServerConnecting,
        CallState::ServerConnected,
        CallState::ServerRegistering,
        CallState::ServerRegistered,
        CallState::PeerConnecting,
        CallState::PeerConnected,
        CallState::PeerCallNegotiating,
        CallState::PeerCallStarted,
    ]
}

/// The triggers that lead from each phase of `happy_path` to the next.
pub open spec fn happy_triggers() -> Seq<Trigger> {
    seq![
        Trigger::ChannelOpened,
        Trigger::RegistrationSent,
        Trigger::RegistrationAck,
        Trigger::SessionRequested,
        Trigger::SessionAck,
        Trigger::NegotiationNeeded,
        Trigger::AnswerApplied,
    ]
}

/// The happy path is monotonic: each of its triggers leads to the next phase,
/// later phases rank strictly higher (so none is revisited), and from a phase
/// of the path every allowed trigger leads to the next phase of the path, to
/// an error phase or to the closed phase (so none is skipped).
pub proof fn happy_path_monotonic(i: int, j: int, t: Trigger)
    requires
        0 <= i < j < 8,
    ensures
        j == i + 1 ==> next_state(happy_path()[i], happy_triggers()[i]) == Some(happy_path()[j]),
        happy_path()[i].rank() < happy_path()[j].rank(),
        next_state(happy_path()[i], t) matches Some(n) ==> n == happy_path()[i + 1] || n.is_error()
            || n == CallState::ServerClosed,
        next_state(happy_path()[7], t) matches Some(n) ==> n.is_error() || n == CallState::ServerClosed,
{
}

/// Error phases are sinks: from an error phase every allowed trigger leaves
/// the phase as it is or closes the session.
pub proof fn error_phases_are_sinks(s: CallState, t: Trigger)
    requires
        s.is_error(),
    ensures
        next_state(s, t) matches Some(n) ==> n == s || n == CallState::ServerClosed,
{
}

/// A remote answer is accepted in exactly one phase: `PeerCallNegotiating`.
pub proof fn answer_accepted_only_while_negotiating(s: CallState)
    ensures
        next_state(s, Trigger::AnswerApplied) is Some <==> s == CallState::PeerCallNegotiating,
{
}

/// A phase that is neither an error phase nor the closed phase.
pub open spec fn is_progress(s: CallState) -> bool {
    !s.is_error() && s != CallState::ServerClosed
}

/// Some trigger leads from `a` to `b`.
pub open spec fn steps_to(a: CallState, b: CallState) -> bool {
    exists|t: Trigger| #[trigger] next_state(a, t) == Some(b)
}

/// The phases a session has entered, in order: it starts connecting to the
/// server and each later phase is reached from the one before by a trigger.
pub open spec fn is_trace(tr: Seq<CallState>) -> bool {
    &&& tr.len() > 0
    &&& tr[0] == CallState::ServerConnecting
    &&& forall|i: int| 0 <= i < tr.len() - 1 ==> #[trigger] steps_to(tr[i], tr[i + 1])
}

/// From the `i`-th phase of the happy path every allowed trigger leads to the
/// next phase of the path or out of progress.
pub proof fn happy_successor(i: int, t: Trigger)
    requires
        0 <= i < 8,
    ensures
        next_state(happy_path()[i], t) matches Some(n) ==> (i < 7 && n == happy_path()[i + 1])
            || !is_progress(n),
{
}

/// The happy path is monotonic for every session: a trace of phases that
/// never leaves progress is a prefix of the happy path, so it goes up the
/// phase order one phase at a time, skipping none and revisiting none.
pub proof fn progress_trace_follows_happy_path(tr: Seq<CallState>)
    requires
        is_trace(tr),
        forall|i: int| 0 <= i < tr.len() ==> is_progress(#[trigger] tr[i]),
    ensures
        tr.len() <= 8,
        tr == happy_path().subrange(0, tr.len() as int),
    decreases tr.len(),
{
    if tr.len() > 1 {
        let p = tr.drop_last();
        assert forall|i: int| 0 <= i < p.len() - 1 implies #[trigger] steps_to(p[i], p[i + 1]) by {
            assert(steps_to(tr[i], tr[i + 1]));
        }
        assert forall|i: int| 0 <= i < p.len() implies is_progress(#[trigger] p[i]) by {
            assert(is_progress(tr[i]));
        }
        progress_trace_follows_happy_path(p);
        let n = tr.len() - 1;
        let m = n - 1;
        assert(steps_to(tr[m], tr[m + 1]));
        let t = choose|t: Trigger| #[trigger] next_state(tr[n - 1], t) == Some(tr[n]);
        assert(tr[n - 1] == p[n - 1]);
        happy_successor(n - 1, t);
        assert(is_progress(tr[n]));
        assert(tr =~= happy_path().subrange(0, tr.len() as int));
    } else {
        assert(tr =~= happy_path().subrange(0, tr.len() as int));
    }
}

} // verus!
