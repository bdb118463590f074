//! The reverse tunnel loop as a state machine: one session attempt at a
//! time, a fixed backoff after a failed server connection, and a working
//! destination that verified routing claims overwrite.
use vstd::prelude::*;
use crate::addr::{resolve_destination, claim_host, RemoteAddr, RoutingClaim};
use crate::request_id::{now_v7_value, RequestIds};

verus! {

/// Milliseconds to wait after a failed connection to the tunnel server.
pub const BACKOFF_MILLIS: u64 = 1000;

/// Where the reverse loop stands within one iteration.
#[derive(Clone, Copy, Debug, PartialEq, Eq, Structural)]
pub enum ReversePhase {
    /// About to start a session attempt.
    Ready,
    /// Waiting for the transport connector.
    Connecting,
    /// Waiting for the local destination.
    ConnectingLocal,
    /// The session's relay runs; the next attempt waits for its
    /// transport-to-local direction to end.
    Relaying,
    /// No request identity is left: the loop does nothing more.
    Stopped,
}

/// What the outside world reports back to the reverse loop.
#[derive(Debug)]
pub enum ReverseEvent {
    /// The transport connector failed.
    ServerFailed,
    /// The transport session is up; the verified routing claim of its
    /// handshake, if it carried one.
    ServerConnected(Option<RoutingClaim>),
    /// The local destination could not be reached.
    LocalFailed,
    /// The local destination is connected.
    LocalConnected,
    /// The transport-to-local direction of the session's relay has ended.
    RelayEnded,
}

/// What the reverse loop asks the outside world to do next.
#[derive(Debug)]
pub enum ReverseAction {
    /// Open a transport session to the tunnel server under this identity.
    ConnectServer { id: u128, target: RemoteAddr },
    /// Wait this long, then start the next attempt.
    Sleep { millis: u64 },
    /// Open the local destination.
    ConnectLocal { target: RemoteAddr },
    /// Start the relay on the session and local stream, and report
    /// `RelayEnded` once its transport-to-local direction has ended.
    Relay,
    /// The iteration is over: start the next attempt at once.
    Retry,
    /// Stop: no fresh request identity is left.
    Stop,
    /// The input did not fit the current phase; nothing changed.
    Ignore,
}

/// An input of the reverse loop, without its payload.
pub enum ReverseInput {
    Begin(u128),
    ServerFailed,
    ServerConnected,
    LocalFailed,
    LocalConnected,
    RelayEnded,
}

/// An action of the reverse loop, without its destinations.
pub enum ReverseActionKind {
    ConnectServer(u128),
    Sleep(u64),
    ConnectLocal,
    Relay,
    Retry,
    Stop,
    Ignore,
}

/// The control state of the reverse loop: its phase and the last identity
/// it handed out.
pub struct ReverseModel {
    pub phase: ReversePhase,
    pub last: Option<u128>,
}

impl ReverseEvent {
    pub open spec fn input(&self) -> ReverseInput {
        match self {
            ReverseEvent::ServerFailed => ReverseInput::ServerFailed,
            ReverseEvent::ServerConnected(_) => ReverseInput::ServerConnected,
            ReverseEvent::LocalFailed => ReverseInput::LocalFailed,
            ReverseEvent::LocalConnected => ReverseInput::LocalConnected,
            ReverseEvent::RelayEnded => ReverseInput::RelayEnded,
        }
    }
}

impl ReverseAction {
    pub open spec fn kind(&self) -> ReverseActionKind {
        match self {
            ReverseAction::ConnectServer { id, .. } => ReverseActionKind::ConnectServer(*id),
            ReverseAction::Sleep { millis } => ReverseActionKind::Sleep(*millis),
            ReverseAction::ConnectLocal { .. } => ReverseActionKind::ConnectLocal,
            ReverseAction::Relay => ReverseActionKind::Relay,
            ReverseAction::Retry => ReverseActionKind::Retry,
            ReverseAction::Stop => ReverseActionKind::Stop,
            ReverseAction::Ignore => ReverseActionKind::Ignore,
        }
    }
}

/// One transition of the reverse loop's control state.
pub open spec fn reverse_step(m: ReverseModel, i: ReverseInput) -> (ReverseModel, ReverseActionKind) {
    match (m.phase, i) {
        (ReversePhase::Ready, ReverseInput::Begin(c)) => match RequestIds::next_for(m.last, c) {
            Some(id) => (ReverseModel { phase: ReversePhase::Connecting, last: Some(id) }, ReverseActionKind::ConnectServer(id)),
            None => (ReverseModel { phase: ReversePhase::Stopped, last: m.last }, ReverseActionKind::Stop),
        },
        (ReversePhase::Connecting, ReverseInput::ServerFailed) =>
            (ReverseModel { phase: ReversePhase::Ready, last: m.last }, ReverseActionKind::Sleep(BACKOFF_MILLIS)),
        (ReversePhase::Connecting, ReverseInput::ServerConnected) =>
            (ReverseModel { phase: ReversePhase::ConnectingLocal, last: m.last }, ReverseActionKind::ConnectLocal),
        (ReversePhase::ConnectingLocal, ReverseInput::LocalFailed) =>
            (ReverseModel { phase: ReversePhase::Ready, last: m.last }, ReverseActionKind::Retry),
        (ReversePhase::ConnectingLocal, ReverseInput::LocalConnected) =>
            (ReverseModel { phase: ReversePhase::Relaying, last: m.last }, ReverseActionKind::Relay),
        (ReversePhase::Relaying, ReverseInput::RelayEnded) =>
            (ReverseModel { phase: ReversePhase::Ready, last: m.last }, ReverseActionKind::Retry),
        _ => (m, ReverseActionKind::Ignore),
    }
}

/// The control state and the actions after a sequence of inputs.
pub open spec fn reverse_run(m: ReverseModel, inputs: Seq<ReverseInput>) -> (ReverseModel, Seq<ReverseActionKind>)
    decreases inputs.len(),
{
    if inputs.len() == 0 {
        (m, Seq::empty())
    } else {
        let (m1, a) = reverse_step(m, inputs[0]);
        let (m2, rest) = reverse_run(m1, inputs.drop_first());
        (m2, seq![a].add(rest))
    }
}


/// The inputs of `cands.len()` attempts whose server connection fails, the
/// i-th proposing `cands[i]` as its identity.
pub open spec fn failing_rounds(cands: Seq<u128>) -> Seq<ReverseInput>
    decreases cands.len(),
{
    if cands.len() == 0 {
        Seq::empty()
    } else {
        seq![ReverseInput::Begin(cands[0]), ReverseInput::ServerFailed].add(failing_rounds(cands.drop_first()))
    }
}

/// The number of sleeps among the actions.
pub open spec fn sleep_count(actions: Seq<ReverseActionKind>) -> nat
    decreases actions.len(),
{
    if actions.len() == 0 {
        0
    } else {
        (if actions[0] is Sleep { 1nat } else { 0nat }) + sleep_count(actions.drop_first())
    }
}

/// `n` rounds of a connection request followed by the fixed backoff.
pub open spec fn backoff_rounds(actions: Seq<ReverseActionKind>, n: nat) -> bool {
    &&& actions.len() == 2 * n
    &&& forall|k: int| 0 <= k < n ==> #[trigger] actions[2 * k] is ConnectServer
    &&& forall|k: int| 0 <= k < n ==> #[trigger] actions[2 * k + 1] == ReverseActionKind::Sleep(BACKOFF_MILLIS)
}

/// Identities to spare: every candidate, and the last identity handed out,
/// lie below the top of the identity space by more than the number of
/// candidates.
pub open spec fn ids_to_spare(last: Option<u128>, cands: Seq<u128>) -> bool {
    &&& forall|i: int| 0 <= i < cands.len() ==> #[trigger] cands[i] < u128::MAX - cands.len()
    &&& last matches Some(l) ==> l < u128::MAX - cands.len()
}

/// A permanently failing transport connector never stops the reverse loop:
/// each of any number of attempts whose server connection fails is answered
/// by a connection request and then by the fixed backoff of
/// `BACKOFF_MILLIS` (one second), and the loop is ready for the next
/// attempt. So n failures give n backoff sleeps, as long as request
/// identities are not used up.
pub proof fn lemma_failures_back_off(m: ReverseModel, cands: Seq<u128>)
    requires
        m.phase == ReversePhase::Ready,
        ids_to_spare(m.last, cands),
    ensures
        reverse_run(m, failing_rounds(cands)).0.phase == ReversePhase::Ready,
        backoff_rounds(reverse_run(m, failing_rounds(cands)).1, cands.len()),
        sleep_count(reverse_run(m, failing_rounds(cands)).1) == cands.len(),
        BACKOFF_MILLIS >= 1000,
    decreases cands.len(),
{
    let out = reverse_run(m, failing_rounds(cands)).1;
    if cands.len() == 0 {
        assert(out.len() == 0);
    } else {
        let n = cands.len();
        let c = cands[0];
        let rest = cands.drop_first();
        let ins = failing_rounds(cands);
        let tail = failing_rounds(rest);
        let id = RequestIds::next_for(m.last, c).unwrap();
        assert(RequestIds::next_for(m.last, c) is Some);
        assert(id < u128::MAX - (n - 1));
        let m1 = ReverseModel { phase: ReversePhase::Connecting, last: Some(id) };
        let m2 = ReverseModel { phase: ReversePhase::Ready, last: Some(id) };
        assert(reverse_step(m, ReverseInput::Begin(c)) == (m1, ReverseActionKind::ConnectServer(id)));
        assert(ins[0] == ReverseInput::Begin(c));
        assert(ins.drop_first() == seq![ReverseInput::ServerFailed].add(tail));
        assert(ins.drop_first()[0] == ReverseInput::ServerFailed);
        assert(ins.drop_first().drop_first() == tail);
        assert(ids_to_spare(Some(id), rest)) by {
            assert forall|i: int| 0 <= i < rest.len() implies #[trigger] rest[i] < u128::MAX - rest.len() by {
                assert(rest[i] == cands[i + 1]);
            }
        }
        lemma_failures_back_off(m2, rest);
        let r2 = reverse_run(m2, tail).1;
        assert(reverse_run(m1, ins.drop_first()).1 == seq![ReverseActionKind::Sleep(BACKOFF_MILLIS)].add(r2));
        assert(out == seq![ReverseActionKind::ConnectServer(id)].add(
            seq![ReverseActionKind::Sleep(BACKOFF_MILLIS)].add(r2)));
        assert(out.drop_first() == seq![ReverseActionKind::Sleep(BACKOFF_MILLIS)].add(r2));
        assert(out.drop_first().drop_first() == r2);
        assert(sleep_count(out.drop_first()) == 1 + sleep_count(r2));
        assert forall|k: int| 0 <= k < n implies #[trigger] out[2 * k] is ConnectServer by {
            if k > 0 {
                assert(out[2 * k] == r2[2 * (k - 1)]);
            }
        }
        assert forall|k: int| 0 <= k < n implies #[trigger] out[2 * k + 1] == ReverseActionKind::Sleep(BACKOFF_MILLIS) by {
            if k > 0 {
                assert(out[2 * k + 1] == r2[2 * (k - 1) + 1]);
            }
        }
    }
}

/// One reverse session at a time: a new session is requested only from
/// `Ready`; once the local destination is connected the loop relays, and it
/// becomes ready again only when the relay's transport-to-local direction
/// has ended. Every other input leaves a relaying loop as it is.
pub proof fn lemma_one_session_at_a_time(m: ReverseModel, i: ReverseInput)
    ensures
        m.phase != ReversePhase::Ready ==> !(reverse_step(m, i).1 is ConnectServer),
        m.phase == ReversePhase::ConnectingLocal && i is LocalConnected ==> reverse_step(m, i).0.phase == ReversePhase::Relaying,
        m.phase == ReversePhase::Relaying ==> (reverse_step(m, i).0.phase == ReversePhase::Ready <==> i is RelayEnded),
        m.phase == ReversePhase::Relaying && !(i is RelayEnded) ==> reverse_step(m, i) == (m, ReverseActionKind::Ignore),
{
}

/// The reverse tunnel loop.
pub struct ReverseLoop {
    server: RemoteAddr,
    working: RemoteAddr,
    phase: ReversePhase,
    ids: RequestIds,
}

impl ReverseLoop {
    pub closed spec fn model(&self) -> ReverseModel {
        ReverseModel { phase: self.phase, last: self.ids.last() }
    }

    /// The statically configured address used to reach the tunnel server.
    pub closed spec fn server(&self) -> RemoteAddr {
        self.server
    }

    /// The destination that local connections currently go to.
    pub closed spec fn working(&self) -> RemoteAddr {
        self.working
    }

    /// Every request identity handed out so far.
    pub closed spec fn issued(&self) -> Set<u128> {
        self.ids.issued()
    }

    pub closed spec fn wf(&self) -> bool {
        self.ids.wf()
    }

    /// A loop about to make its first attempt; the configured address is
    /// also the first working destination.
    pub fn new(server: RemoteAddr) -> (r: ReverseLoop)
        ensures
            r.wf(),
            r.model() == (ReverseModel { phase: ReversePhase::Ready, last: None }),
            r.server() == server,
            r.working() == server,
            r.issued().is_empty(),
    {
        let working = server.duplicate();
        ReverseLoop { server, working, phase: ReversePhase::Ready, ids: RequestIds::new() }
    }

    /// The current phase.
    pub fn phase(&self) -> (r: ReversePhase)
        ensures
            r == self.model().phase,
    {
        self.phase
    }

    /// Starts a session attempt with `candidate` as the proposed request
    /// identity: asks to connect to the tunnel server under a fresh
    /// identity. Outside `Ready` nothing changes.
    pub fn begin_with(&mut self, candidate: u128) -> (r: ReverseAction)
        requires
            old(self).wf(),
        ensures
            final(self).wf(),
            (final(self).model(), r.kind()) == reverse_step(old(self).model(), ReverseInput::Begin(candidate)),
            final(self).server() == old(self).server(),
            final(self).working() == old(self).working(),
            r matches ReverseAction::ConnectServer { id, target } ==> target == old(self).server()
                && !old(self).issued().contains(id) && final(self).issued() == old(self).issued().insert(id),
            !(r is ConnectServer) ==> final(self).issued() == old(self).issued(),
    {
        if self.phase != ReversePhase::Ready {
            return ReverseAction::Ignore;
        }
        match self.ids.issue(candidate) {
            Some(id) => {
                self.phase = ReversePhase::Connecting;
                ReverseAction::ConnectServer { id, target: self.server.duplicate() }
            },
            None => {
                self.phase = ReversePhase::Stopped;
                ReverseAction::Stop
            },
        }
    }

    /// Starts a session attempt under a fresh time-ordered request identity.
    pub fn begin(&mut self) -> (r: ReverseAction)
        requires
            old(self).wf(),
        ensures
            final(self).wf(),
            exists|c: u128| (final(self).model(), r.kind()) == #[trigger] reverse_step(old(self).model(), ReverseInput::Begin(c)),
            final(self).server() == old(self).server(),
            final(self).working() == old(self).working(),
            r matches ReverseAction::ConnectServer { id, target } ==> target == old(self).server()
                && !old(self).issued().contains(id) && final(self).issued() == old(self).issued().insert(id),
            !(r is ConnectServer) ==> final(self).issued() == old(self).issued(),
    {
        let candidate = now_v7_value();
        self.begin_with(candidate)
    }

    /// Takes what the outside world reports and decides the next action.
    /// A failed server connection asks for the fixed backoff; a session that
    /// is up resolves the destination from its claim and asks for the local
    /// connection; a failed local connection ends the iteration at once, a
    /// connected one starts the relay, and the iteration ends when the
    /// relay's transport-to-local direction does.
    pub fn on_event(&mut self, e: ReverseEvent) -> (r: ReverseAction)
        requires
            old(self).wf(),
        ensures
            final(self).wf(),
            (final(self).model(), r.kind()) == reverse_step(old(self).model(), e.input()),
            final(self).server() == old(self).server(),
            final(self).issued() == old(self).issued(),
            match (old(self).model().phase, e) {
                (ReversePhase::Connecting, ReverseEvent::ServerConnected(claim)) => match claim {
                    Some(c) => final(self).working().protocol == c.protocol
                        && final(self).working().host@ == claim_host(c.host@)
                        && final(self).working().port == c.port,
                    None => final(self).working() == old(self).working(),
                },
                _ => final(self).working() == old(self).working(),
            },
            r matches ReverseAction::ConnectLocal { target } ==> target == final(self).working(),
    {
        match (self.phase, e) {
            (ReversePhase::Connecting, ReverseEvent::ServerFailed) => {
                self.phase = ReversePhase::Ready;
                ReverseAction::Sleep { millis: BACKOFF_MILLIS }
            },
            (ReversePhase::Connecting, ReverseEvent::ServerConnected(claim)) => {
                self.working = resolve_destination(&self.working, &claim);
                self.phase = ReversePhase::ConnectingLocal;
                ReverseAction::ConnectLocal { target: self.working.duplicate() }
            },
            (ReversePhase::ConnectingLocal, ReverseEvent::LocalFailed) => {
                self.phase = ReversePhase::Ready;
                ReverseAction::Retry
            },
            (ReversePhase::ConnectingLocal, ReverseEvent::LocalConnected) => {
                self.phase = ReversePhase::Relaying;
                ReverseAction::Relay
            },
            (ReversePhase::Relaying, ReverseEvent::RelayEnded) => {
                self.phase = ReversePhase::Ready;
                ReverseAction::Retry
            },
            _ => ReverseAction::Ignore,
        }
    }
}

} // verus!
