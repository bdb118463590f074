//! The two directions of the duplex relay as state machines: local to
//! remote, with keepalive frames and a close signal fired once, and remote
//! to local, which records that signal and ends with the transport.
use vstd::prelude::*;

verus! {

/// What the local-to-remote direction observes.
#[derive(Debug)]
pub enum LocalEvent {
    /// Bytes read from the local stream.
    Data(Vec<u8>),
    /// A keepalive interval passed with no data to send.
    Idle,
    /// The local stream reached its end.
    Closed,
    /// Reading the local stream or writing the transport failed.
    Failed,
}

/// What the local-to-remote direction asks for.
#[derive(Debug)]
pub enum LocalAction {
    /// Write these bytes to the transport.
    Send(Vec<u8>),
    /// Write one keepalive frame to the transport.
    Ping,
    /// Nothing to do: wait for the next event.
    Wait,
    /// Fire the close signal and end this direction.
    SignalClose,
    /// This direction has ended.
    Stop,
}

/// A local event without its bytes' representation.
pub enum LocalInput {
    Data(Seq<u8>),
    Idle,
    Closed,
    Failed,
}

/// A local action over byte sequences.
pub enum LocalActionKind {
    Send(Seq<u8>),
    Ping,
    Wait,
    SignalClose,
    Stop,
}

/// The state of the local-to-remote direction.
pub struct LocalModel {
    pub keepalive: bool,
    pub stopped: bool,
}

impl LocalEvent {
    pub open spec fn input(&self) -> LocalInput {
        match self {
            LocalEvent::Data(b) => LocalInput::Data(b@),
            LocalEvent::Idle => LocalInput::Idle,
            LocalEvent::Closed => LocalInput::Closed,
            LocalEvent::Failed => LocalInput::Failed,
        }
    }
}

impl LocalAction {
    pub open spec fn kind(&self) -> LocalActionKind {
        match self {
            LocalAction::Send(b) => LocalActionKind::Send(b@),
            LocalAction::Ping => LocalActionKind::Ping,
            LocalAction::Wait => LocalActionKind::Wait,
            LocalAction::SignalClose => LocalActionKind::SignalClose,
            LocalAction::Stop => LocalActionKind::Stop,
        }
    }
}

/// One transition of the local-to-remote direction.
pub open spec fn local_step(m: LocalModel, i: LocalInput) -> (LocalModel, LocalActionKind) {
    if m.stopped {
        (m, LocalActionKind::Stop)
    } else {
        match i {
            LocalInput::Data(b) => (m, LocalActionKind::Send(b)),
            LocalInput::Idle => (m, if m.keepalive { LocalActionKind::Ping } else { LocalActionKind::Wait }),
            LocalInput::Closed | LocalInput::Failed => (LocalModel { keepalive: m.keepalive, stopped: true }, LocalActionKind::SignalClose),
        }
    }
}

/// The state and the actions after a sequence of local events.
pub open spec fn local_run(m: LocalModel, inputs: Seq<LocalInput>) -> (LocalModel, Seq<LocalActionKind>)
    decreases inputs.len(),
{
    if inputs.len() == 0 {
        (m, Seq::empty())
    } else {
        let (m1, a) = local_step(m, inputs[0]);
        let (m2, rest) = local_run(m1, inputs.drop_first());
        (m2, seq![a].add(rest))
    }
}

/// The number of close signals among the actions.
pub open spec fn close_count(actions: Seq<LocalActionKind>) -> nat
    decreases actions.len(),
{
    if actions.len() == 0 {
        0
    } else {
        (if actions[0] is SignalClose { 1nat } else { 0nat }) + close_count(actions.drop_first())
    }
}

/// What the remote-to-local direction observes.
#[derive(Debug)]
pub enum RemoteEvent {
    /// Bytes read from the transport.
    Data(Vec<u8>),
    /// The transport reached its end.
    Closed,
    /// Reading the transport or writing the local stream failed.
    Failed,
    /// The close signal of the local-to-remote direction arrived.
    PeerClosed,
}

/// What the remote-to-local direction asks for.
#[derive(Debug)]
pub enum RemoteAction {
    /// Write these bytes to the local stream.
    Write(Vec<u8>),
    /// Nothing to do: go on reading the transport.
    Wait,
    /// This direction has ended.
    Stop,
}

/// A remote event over byte sequences.
pub enum RemoteInput {
    Data(Seq<u8>),
    Closed,
    Failed,
    PeerClosed,
}

/// A remote action over byte sequences.
pub enum RemoteActionKind {
    Write(Seq<u8>),
    Wait,
    Stop,
}

/// The state of the remote-to-local direction: whether it has ended, and
/// whether the other direction has signalled that it has.
pub struct RemoteModel {
    pub stopped: bool,
    pub peer_done: bool,
}

impl RemoteEvent {
    pub open spec fn input(&self) -> RemoteInput {
        match self {
            RemoteEvent::Data(b) => RemoteInput::Data(b@),
            RemoteEvent::Closed => RemoteInput::Closed,
            RemoteEvent::Failed => RemoteInput::Failed,
            RemoteEvent::PeerClosed => RemoteInput::PeerClosed,
        }
    }
}

impl RemoteAction {
    pub open spec fn kind(&self) -> RemoteActionKind {
        match self {
            RemoteAction::Write(b) => RemoteActionKind::Write(b@),
            RemoteAction::Wait => RemoteActionKind::Wait,
            RemoteAction::Stop => RemoteActionKind::Stop,
        }
    }
}

/// One transition of the remote-to-local direction. The close signal is
/// only recorded: the direction goes on copying until the transport itself
/// ends or fails.
pub open spec fn remote_step(m: RemoteModel, i: RemoteInput) -> (RemoteModel, RemoteActionKind) {
    if m.stopped {
        (m, RemoteActionKind::Stop)
    } else {
        match i {
            RemoteInput::Data(b) => (m, RemoteActionKind::Write(b)),
            RemoteInput::PeerClosed => (RemoteModel { stopped: false, peer_done: true }, RemoteActionKind::Wait),
            RemoteInput::Closed | RemoteInput::Failed => (RemoteModel { stopped: true, peer_done: m.peer_done }, RemoteActionKind::Stop),
        }
    }
}

/// The state and the actions after a sequence of remote events.
pub open spec fn remote_run(m: RemoteModel, inputs: Seq<RemoteInput>) -> (RemoteModel, Seq<RemoteActionKind>)
    decreases inputs.len(),
{
    if inputs.len() == 0 {
        (m, Seq::empty())
    } else {
        let (m1, a) = remote_step(m, inputs[0]);
        let (m2, rest) = remote_run(m1, inputs.drop_first());
        (m2, seq![a].add(rest))
    }
}

/// Whether a local event ends the local-to-remote direction.
pub open spec fn local_terminal(i: LocalInput) -> bool {
    i is Closed || i is Failed
}

/// Whether a remote event ends the remote-to-local direction.
pub open spec fn remote_terminal(i: RemoteInput) -> bool {
    i is Closed || i is Failed
}

/// A stopped local-to-remote direction stays stopped and only answers
/// `Stop`.
pub proof fn lemma_local_stays_stopped(m: LocalModel, inputs: Seq<LocalInput>)
    requires
        m.stopped,
    ensures
        local_run(m, inputs).0 == m,
        forall|k: int| 0 <= k < inputs.len() ==> #[trigger] local_run(m, inputs).1[k] is Stop,
        local_run(m, inputs).1.len() == inputs.len(),
        close_count(local_run(m, inputs).1) == 0,
    decreases inputs.len(),
{
    if inputs.len() > 0 {
        lemma_local_stays_stopped(m, inputs.drop_first());
        let tail = local_run(m, inputs.drop_first()).1;
        let out = local_run(m, inputs).1;
        assert(out == seq![LocalActionKind::Stop].add(tail));
        assert(out.drop_first() == tail);
        assert forall|k: int| 0 <= k < inputs.len() implies #[trigger] out[k] is Stop by {
            if k > 0 {
                assert(out[k] == tail[k - 1]);
            }
        }
    }
}

/// The close signal fires exactly once: a running local-to-remote direction
/// emits one close signal over any sequence of local events that reaches the
/// local stream's end or a failure, none over one that does not, and is
/// stopped exactly when it did.
pub proof fn lemma_close_signalled_once(m: LocalModel, inputs: Seq<LocalInput>)
    requires
        !m.stopped,
    ensures
        close_count(local_run(m, inputs).1) == (if exists|k: int| 0 <= k < inputs.len() && local_terminal(
            #[trigger] inputs[k],
        ) {
            1nat
        } else {
            0nat
        }),
        local_run(m, inputs).0.stopped == exists|k: int| 0 <= k < inputs.len() && local_terminal(#[trigger] inputs[k]),
    decreases inputs.len(),
{
    if inputs.len() > 0 {
        let (m1, a) = local_step(m, inputs[0]);
        let rest = inputs.drop_first();
        let out = local_run(m, inputs).1;
        assert(out == seq![a].add(local_run(m1, rest).1));
        assert(out.drop_first() == local_run(m1, rest).1);
        if local_terminal(inputs[0]) {
            lemma_local_stays_stopped(m1, rest);
        } else {
            lemma_close_signalled_once(m1, rest);
            if exists|k: int| 0 <= k < rest.len() && local_terminal(#[trigger] rest[k]) {
                let k = choose|k: int| 0 <= k < rest.len() && local_terminal(#[trigger] rest[k]);
                assert(inputs[k + 1] == rest[k]);
            }
            if exists|k: int| 0 <= k < inputs.len() && local_terminal(#[trigger] inputs[k]) {
                let k = choose|k: int| 0 <= k < inputs.len() && local_terminal(#[trigger] inputs[k]);
                assert(rest[k - 1] == inputs[k]);
            }
        }
    }
}

/// Bytes read from the local stream and then its end: the bytes go to the
/// transport, then the close signal fires once, and whatever follows is
/// answered with `Stop` alone.
pub proof fn lemma_data_then_close(keepalive: bool, data: Seq<u8>, rest: Seq<LocalInput>)
    ensures
        local_run(LocalModel { keepalive, stopped: false }, seq![LocalInput::Data(data), LocalInput::Closed].add(rest)).1
            == seq![LocalActionKind::Send(data), LocalActionKind::SignalClose].add(
            Seq::new(rest.len(), |k: int| LocalActionKind::Stop),
        ),
        close_count(
            local_run(LocalModel { keepalive, stopped: false }, seq![LocalInput::Data(data), LocalInput::Closed].add(rest)).1,
        ) == 1,
{
    let m = LocalModel { keepalive, stopped: false };
    let ms = LocalModel { keepalive, stopped: true };
    let ins = seq![LocalInput::Data(data), LocalInput::Closed].add(rest);
    assert(ins[0] == LocalInput::Data(data));
    assert(ins.drop_first() == seq![LocalInput::Closed].add(rest));
    assert(ins.drop_first()[0] == LocalInput::Closed);
    assert(ins.drop_first().drop_first() == rest);
    lemma_local_stays_stopped(ms, rest);
    let tail = local_run(ms, rest).1;
    assert(tail == Seq::new(rest.len(), |k: int| LocalActionKind::Stop));
    assert(local_run(m, ins.drop_first()).1 == seq![LocalActionKind::SignalClose].add(tail));
    assert(local_run(m, ins).1 == seq![LocalActionKind::Send(data)].add(seq![LocalActionKind::SignalClose].add(tail)));
    assert(exists|k: int| 0 <= k < ins.len() && local_terminal(#[trigger] ins[k])) by {
        assert(local_terminal(ins[1]));
    }
    lemma_close_signalled_once(m, ins);
}

/// With keepalive on, one idle interval gives exactly one keepalive frame,
/// and the application data that follows goes out as it came.
pub proof fn lemma_idle_interval_pings_once(data: Seq<u8>)
    ensures
        local_run(LocalModel { keepalive: true, stopped: false }, seq![LocalInput::Idle, LocalInput::Data(data)]).1
            == seq![LocalActionKind::Ping, LocalActionKind::Send(data)],
{
    let m = LocalModel { keepalive: true, stopped: false };
    let ins = seq![LocalInput::Idle, LocalInput::Data(data)];
    assert(ins.drop_first() == seq![LocalInput::Data(data)]);
    assert(ins.drop_first().drop_first() =~= Seq::<LocalInput>::empty());
    assert(local_run(m, Seq::<LocalInput>::empty()).1 == Seq::<LocalActionKind>::empty());
    assert(local_run(m, ins.drop_first()).1 == seq![LocalActionKind::Send(data)].add(Seq::<LocalActionKind>::empty()));
    assert(seq![LocalActionKind::Send(data)].add(Seq::<LocalActionKind>::empty()) == seq![LocalActionKind::Send(data)]);
    assert(seq![LocalActionKind::Ping].add(seq![LocalActionKind::Send(data)]) == seq![LocalActionKind::Ping, LocalActionKind::Send(data)]);
}

/// A stopped remote-to-local direction stays stopped and only answers
/// `Stop`.
pub proof fn lemma_remote_stays_stopped(m: RemoteModel, inputs: Seq<RemoteInput>)
    requires
        m.stopped,
    ensures
        remote_run(m, inputs).0 == m,
        remote_run(m, inputs).1.len() == inputs.len(),
        forall|k: int| 0 <= k < inputs.len() ==> #[trigger] remote_run(m, inputs).1[k] is Stop,
    decreases inputs.len(),
{
    if inputs.len() > 0 {
        lemma_remote_stays_stopped(m, inputs.drop_first());
        let tail = remote_run(m, inputs.drop_first()).1;
        let out = remote_run(m, inputs).1;
        assert(out == seq![RemoteActionKind::Stop].add(tail));
        assert forall|k: int| 0 <= k < inputs.len() implies #[trigger] out[k] is Stop by {
            if k > 0 {
                assert(out[k] == tail[k - 1]);
            }
        }
    }
}

/// Whether none of the first `k` remote events ends the direction.
pub open spec fn open_before(inputs: Seq<RemoteInput>, k: int) -> bool {
    forall|j: int| 0 <= j < k ==> !remote_terminal(#[trigger] inputs[j])
}

/// The remote-to-local direction ends at the transport's end or failure and
/// at nothing else: the close signal does not end it, and every chunk that
/// the transport delivers before its end is written to the local stream.
pub proof fn lemma_remote_ends_with_transport(m: RemoteModel, inputs: Seq<RemoteInput>)
    requires
        !m.stopped,
    ensures
        remote_run(m, inputs).0.stopped == exists|k: int| 0 <= k < inputs.len() && remote_terminal(#[trigger] inputs[k]),
        remote_run(m, inputs).1.len() == inputs.len(),
        forall|k: int|
            0 <= k < inputs.len() && open_before(inputs, k) && inputs[k] is Data
                ==> #[trigger] remote_run(m, inputs).1[k] == RemoteActionKind::Write(inputs[k]->Data_0),
    decreases inputs.len(),
{
    if inputs.len() > 0 {
        let (m1, a) = remote_step(m, inputs[0]);
        let rest = inputs.drop_first();
        let out = remote_run(m, inputs).1;
        let tail = remote_run(m1, rest).1;
        assert(out == seq![a].add(tail));
        if remote_terminal(inputs[0]) {
            lemma_remote_stays_stopped(m1, rest);
            assert forall|k: int|
                0 <= k < inputs.len() && open_before(inputs, k) && inputs[k] is Data
                    implies #[trigger] out[k] == RemoteActionKind::Write(inputs[k]->Data_0) by {
                if k > 0 {
                    assert(!remote_terminal(inputs[0]));
                }
            }
        } else {
            lemma_remote_ends_with_transport(m1, rest);
            if exists|k: int| 0 <= k < rest.len() && remote_terminal(#[trigger] rest[k]) {
                let k = choose|k: int| 0 <= k < rest.len() && remote_terminal(#[trigger] rest[k]);
                assert(inputs[k + 1] == rest[k]);
            }
            if exists|k: int| 0 <= k < inputs.len() && remote_terminal(#[trigger] inputs[k]) {
                let k = choose|k: int| 0 <= k < inputs.len() && remote_terminal(#[trigger] inputs[k]);
                assert(rest[k - 1] == inputs[k]);
            }
            assert forall|k: int|
                0 <= k < inputs.len() && open_before(inputs, k) && inputs[k] is Data
                    implies #[trigger] out[k] == RemoteActionKind::Write(inputs[k]->Data_0) by {
                if k > 0 {
                    assert(rest[k - 1] == inputs[k]);
                    assert forall|j: int| 0 <= j < k - 1 implies !remote_terminal(#[trigger] rest[j]) by {
                        assert(rest[j] == inputs[j + 1]);
                    }
                    assert(open_before(rest, k - 1));
                    assert(out[k] == tail[k - 1]);
                }
            }
        }
    }
}

/// A relay does not outlive its streams, and a failure on one direction
/// ends that direction only. The local-to-remote direction ends at the
/// local stream's end or a failure (a write to a closed transport fails),
/// firing the close signal once; the remote-to-local direction ends at the
/// transport's end or a failure, and the close signal alone does not end
/// it. Once ended, neither direction acts again.
pub proof fn lemma_relay_ends(local: Seq<LocalInput>, keepalive: bool, remote: Seq<RemoteInput>)
    ensures
        local_run(LocalModel { keepalive, stopped: false }, local).0.stopped
            == exists|k: int| 0 <= k < local.len() && local_terminal(#[trigger] local[k]),
        (exists|k: int| 0 <= k < local.len() && local_terminal(#[trigger] local[k])) ==> close_count(
            local_run(LocalModel { keepalive, stopped: false }, local).1,
        ) == 1,
        remote_run(RemoteModel { stopped: false, peer_done: false }, remote).0.stopped
            == exists|k: int| 0 <= k < remote.len() && remote_terminal(#[trigger] remote[k]),
{
    lemma_close_signalled_once(LocalModel { keepalive, stopped: false }, local);
    lemma_remote_ends_with_transport(RemoteModel { stopped: false, peer_done: false }, remote);
}

/// The local-to-remote direction of a relay.
pub struct LocalToRemote {
    keepalive: bool,
    stopped: bool,
}

impl LocalToRemote {
    pub closed spec fn model(&self) -> LocalModel {
        LocalModel { keepalive: self.keepalive, stopped: self.stopped }
    }

    /// A running direction; `keepalive` says whether idle intervals send a
    /// keepalive frame.
    pub fn new(keepalive: bool) -> (r: LocalToRemote)
        ensures
            r.model() == (LocalModel { keepalive, stopped: false }),
    {
        LocalToRemote { keepalive, stopped: false }
    }

    /// Whether this direction has ended.
    pub fn is_stopped(&self) -> (r: bool)
        ensures
            r == self.model().stopped,
    {
        self.stopped
    }

    /// Decides what to do with one local event.
    pub fn on_event(&mut self, e: LocalEvent) -> (r: LocalAction)
        ensures
            (final(self).model(), r.kind()) == local_step(old(self).model(), e.input()),
    {
        if self.stopped {
            return LocalAction::Stop;
        }
        match e {
            LocalEvent::Data(b) => LocalAction::Send(b),
            LocalEvent::Idle => if self.keepalive {
                LocalAction::Ping
            } else {
                LocalAction::Wait
            },
            LocalEvent::Closed | LocalEvent::Failed => {
                self.stopped = true;
                LocalAction::SignalClose
            },
        }
    }
}

/// The remote-to-local direction of a relay.
pub struct RemoteToLocal {
    stopped: bool,
    peer_done: bool,
}

impl RemoteToLocal {
    pub closed spec fn model(&self) -> RemoteModel {
        RemoteModel { stopped: self.stopped, peer_done: self.peer_done }
    }

    /// A running direction whose counterpart has not finished.
    pub fn new() -> (r: RemoteToLocal)
        ensures
            r.model() == (RemoteModel { stopped: false, peer_done: false }),
    {
        RemoteToLocal { stopped: false, peer_done: false }
    }

    /// Whether this direction has ended.
    pub fn is_stopped(&self) -> (r: bool)
        ensures
            r == self.model().stopped,
    {
        self.stopped
    }

    /// Whether the close signal of the other direction has arrived.
    pub fn peer_closed(&self) -> (r: bool)
        ensures
            r == self.model().peer_done,
    {
        self.peer_done
    }

    /// Decides what to do with one remote event: bytes are written to the
    /// local stream, the close signal is recorded, and the transport's end
    /// or a failure ends this direction.
    pub fn on_event(&mut self, e: RemoteEvent) -> (r: RemoteAction)
        ensures
            (final(self).model(), r.kind()) == remote_step(old(self).model(), e.input()),
    {
        if self.stopped {
            return RemoteAction::Stop;
        }
        match e {
            RemoteEvent::Data(b) => RemoteAction::Write(b),
            RemoteEvent::PeerClosed => {
                self.peer_done = true;
                RemoteAction::Wait
            },
            RemoteEvent::Closed | RemoteEvent::Failed => {
                self.stopped = true;
                RemoteAction::Stop
            },
        }
    }
}

} // verus!
