//! The forward tunnel loop as a state machine: each accepted local
//! connection is dispatched under a fresh request identity, a failed accept
//! is skipped, and the loop ends with its input sequence.
use vstd::prelude::*;
use crate::addr::RemoteAddr;
use crate::request_id::{now_v7_value, RequestIds};

verus! {

/// One item of the local listener's sequence, or its end.
#[derive(Debug)]
pub enum AcceptOutcome {
    /// A local connection for this destination was accepted.
    Accepted(RemoteAddr),
    /// The listener failed to accept one connection.
    Failed,
    /// The listener's sequence has ended.
    Exhausted,
}

/// What the forward loop asks the outside world to do.
#[derive(Debug)]
pub enum ForwardAction {
    /// Open a transport session under this identity and relay the accepted
    /// connection to `target`, as a task of its own.
    Dispatch { id: u128, target: RemoteAddr },
    /// Drop this item and go on with the next one.
    Skip,
    /// The loop is over.
    Finish,
}

/// An input of the forward loop without its destination; an accepted
/// connection carries the proposed request identity.
pub enum ForwardInput {
    Accepted(u128),
    Failed,
    Exhausted,
}

/// An action of the forward loop without its destination.
pub enum ForwardActionKind {
    Dispatch(u128),
    Skip,
    Finish,
}

/// The control state of the forward loop.
pub struct ForwardModel {
    pub finished: bool,
    pub last: Option<u128>,
}

impl AcceptOutcome {
    pub open spec fn input(&self, candidate: u128) -> ForwardInput {
        match self {
            AcceptOutcome::Accepted(_) => ForwardInput::Accepted(candidate),
            AcceptOutcome::Failed => ForwardInput::Failed,
            AcceptOutcome::Exhausted => ForwardInput::Exhausted,
        }
    }
}

impl ForwardAction {
    pub open spec fn kind(&self) -> ForwardActionKind {
        match self {
            ForwardAction::Dispatch { id, .. } => ForwardActionKind::Dispatch(*id),
            ForwardAction::Skip => ForwardActionKind::Skip,
            ForwardAction::Finish => ForwardActionKind::Finish,
        }
    }
}

/// One transition of the forward loop's control state. Once finished, the
/// loop only answers `Finish`; an identity space used up skips the
/// connection.
pub open spec fn forward_step(m: ForwardModel, i: ForwardInput) -> (ForwardModel, ForwardActionKind) {
    if m.finished {
        (m, ForwardActionKind::Finish)
    } else {
        match i {
            ForwardInput::Accepted(c) => match RequestIds::next_for(m.last, c) {
                Some(id) => (ForwardModel { finished: false, last: Some(id) }, ForwardActionKind::Dispatch(id)),
                None => (m, ForwardActionKind::Skip),
            },
            ForwardInput::Failed => (m, ForwardActionKind::Skip),
            ForwardInput::Exhausted => (ForwardModel { finished: true, last: m.last }, ForwardActionKind::Finish),
        }
    }
}

/// The control state and the actions after a sequence of inputs.
pub open spec fn forward_run(m: ForwardModel, inputs: Seq<ForwardInput>) -> (ForwardModel, Seq<ForwardActionKind>)
    decreases inputs.len(),
{
    if inputs.len() == 0 {
        (m, Seq::empty())
    } else {
        let (m1, a) = forward_step(m, inputs[0]);
        let (m2, rest) = forward_run(m1, inputs.drop_first());
        (m2, seq![a].add(rest))
    }
}

/// A failed accept never halts the forward loop: over any sequence of
/// accept results that has not ended, a running loop keeps running, answers
/// each item, skips each failed accept, and never finishes; once the
/// sequence then ends, the loop finishes.
pub proof fn lemma_accept_failures_never_halt(m: ForwardModel, inputs: Seq<ForwardInput>)
    requires
        !m.finished,
        forall|i: int| 0 <= i < inputs.len() ==> !(#[trigger] inputs[i] is Exhausted),
    ensures
        !forward_run(m, inputs).0.finished,
        forward_run(m, inputs).1.len() == inputs.len(),
        forall|i: int| 0 <= i < inputs.len() ==> !(#[trigger] forward_run(m, inputs).1[i] is Finish),
        forall|i: int| 0 <= i < inputs.len() && inputs[i] is Failed ==> #[trigger] forward_run(m, inputs).1[i] is Skip,
        forward_run(m, inputs.push(ForwardInput::Exhausted)).0.finished,
        forward_run(m, inputs.push(ForwardInput::Exhausted)).1.last() is Finish,
    decreases inputs.len(),
{
    let ended = inputs.push(ForwardInput::Exhausted);
    if inputs.len() == 0 {
        assert(ended[0] is Exhausted);
        assert(ended.drop_first() =~= Seq::<ForwardInput>::empty());
        let fin = forward_step(m, ForwardInput::Exhausted);
        assert(ended[0] == ForwardInput::Exhausted);
        assert(forward_run(fin.0, ended.drop_first()) == (fin.0, Seq::<ForwardActionKind>::empty()));
        assert(forward_run(m, ended) == (fin.0, seq![fin.1].add(Seq::<ForwardActionKind>::empty())));
        assert(seq![fin.1].add(Seq::<ForwardActionKind>::empty()).last() is Finish);
    } else {
        let (m1, a) = forward_step(m, inputs[0]);
        let rest = inputs.drop_first();
        assert forall|i: int| 0 <= i < rest.len() implies !(#[trigger] rest[i] is Exhausted) by {
            assert(rest[i] == inputs[i + 1]);
        }
        lemma_accept_failures_never_halt(m1, rest);
        assert(ended[0] == inputs[0]);
        assert(ended.drop_first() == rest.push(ForwardInput::Exhausted));
        let tail_e = forward_run(m1, rest.push(ForwardInput::Exhausted)).1;
        assert(forward_run(m, ended).1 == seq![a].add(tail_e));
        assert(tail_e.len() > 0);
        assert(seq![a].add(tail_e).last() == tail_e.last());
        let out = forward_run(m, inputs).1;
        let tail = forward_run(m1, rest).1;
        assert(out == seq![a].add(tail));
        assert forall|i: int| 0 <= i < inputs.len() implies !(#[trigger] out[i] is Finish) by {
            if i > 0 {
                assert(out[i] == tail[i - 1]);
            }
        }
        assert forall|i: int| 0 <= i < inputs.len() && inputs[i] is Failed implies #[trigger] out[i] is Skip by {
            if i > 0 {
                assert(out[i] == tail[i - 1]);
                assert(rest[i - 1] == inputs[i]);
            }
        }
    }
}

/// Identities to spare: every proposed identity, and the last identity
/// handed out, lie below the top of the identity space by more than the
/// number of inputs.
pub open spec fn ids_to_spare(last: Option<u128>, inputs: Seq<ForwardInput>) -> bool {
    &&& forall|i: int| 0 <= i < inputs.len() ==> (#[trigger] inputs[i] matches ForwardInput::Accepted(c) ==> c < u128::MAX - inputs.len())
    &&& last matches Some(l) ==> l < u128::MAX - inputs.len()
}

/// Failed accepts cost no later connection: while request identities are
/// not used up, every accepted connection in a sequence that has not ended
/// is dispatched, whatever failures come before it.
pub proof fn lemma_accepted_connections_dispatched(m: ForwardModel, inputs: Seq<ForwardInput>)
    requires
        !m.finished,
        forall|i: int| 0 <= i < inputs.len() ==> !(#[trigger] inputs[i] is Exhausted),
        ids_to_spare(m.last, inputs),
    ensures
        forward_run(m, inputs).1.len() == inputs.len(),
        forall|i: int| 0 <= i < inputs.len() && inputs[i] is Accepted ==> #[trigger] forward_run(m, inputs).1[i] is Dispatch,
    decreases inputs.len(),
{
    if inputs.len() > 0 {
        let n = inputs.len();
        let (m1, a) = forward_step(m, inputs[0]);
        let rest = inputs.drop_first();
        assert(!m1.finished);
        assert(m1.last matches Some(l) ==> l < u128::MAX - (n - 1)) by {
            if let ForwardInput::Accepted(c) = inputs[0] {
                assert(RequestIds::next_for(m.last, c) is Some);
            }
        }
        assert forall|i: int| 0 <= i < rest.len() implies !(#[trigger] rest[i] is Exhausted) by {
            assert(rest[i] == inputs[i + 1]);
        }
        assert forall|i: int| 0 <= i < rest.len() implies (#[trigger] rest[i] matches ForwardInput::Accepted(c) ==> c
            < u128::MAX - rest.len()) by {
            assert(rest[i] == inputs[i + 1]);
        }
        lemma_accepted_connections_dispatched(m1, rest);
        let out = forward_run(m, inputs).1;
        let tail = forward_run(m1, rest).1;
        assert(out == seq![a].add(tail));
        assert forall|i: int| 0 <= i < inputs.len() && inputs[i] is Accepted implies #[trigger] out[i] is Dispatch by {
            if i > 0 {
                assert(out[i] == tail[i - 1]);
                assert(rest[i - 1] == inputs[i]);
            } else {
                if let ForwardInput::Accepted(c) = inputs[0] {
                    assert(RequestIds::next_for(m.last, c) is Some);
                }
            }
        }
    }
}

/// The forward tunnel loop.
pub struct ForwardLoop {
    finished: bool,
    ids: RequestIds,
    dispatched: Ghost<Seq<u128>>,
}

impl ForwardLoop {
    pub closed spec fn model(&self) -> ForwardModel {
        ForwardModel { finished: self.finished, last: self.ids.last() }
    }

    /// The identities of the connections dispatched so far, in order.
    pub closed spec fn dispatched(&self) -> Seq<u128> {
        self.dispatched@
    }

    pub closed spec fn wf(&self) -> bool {
        &&& self.ids.wf()
        &&& forall|i: int| 0 <= i < self.dispatched@.len() ==> self.ids.issued().contains(#[trigger] self.dispatched@[i])
        &&& self.dispatched@.no_duplicates()
    }

    /// A loop that has dispatched nothing.
    pub fn new() -> (r: ForwardLoop)
        ensures
            r.wf(),
            r.model() == (ForwardModel { finished: false, last: None }),
            r.dispatched() == Seq::<u128>::empty(),
    {
        ForwardLoop { finished: false, ids: RequestIds::new(), dispatched: Ghost(Seq::empty()) }
    }

    /// Whether the listener's sequence has ended.
    pub fn is_finished(&self) -> (r: bool)
        ensures
            r == self.model().finished,
    {
        self.finished
    }

    /// Decides what to do with one accept result, with `candidate` as the
    /// proposed identity of an accepted connection.
    pub fn on_accept_with(&mut self, outcome: AcceptOutcome, candidate: u128) -> (r: ForwardAction)
        requires
            old(self).wf(),
        ensures
            final(self).wf(),
            (final(self).model(), r.kind()) == forward_step(old(self).model(), outcome.input(candidate)),
            match r {
                ForwardAction::Dispatch { id, target } => outcome == AcceptOutcome::Accepted(target)
                    && !old(self).dispatched().contains(id)
                    && final(self).dispatched() == old(self).dispatched().push(id),
                _ => final(self).dispatched() == old(self).dispatched(),
            },
    {
        if self.finished {
            return ForwardAction::Finish;
        }
        match outcome {
            AcceptOutcome::Accepted(target) => match self.ids.issue(candidate) {
                Some(id) => {
                    proof {
                        let old_d = self.dispatched@;
                        self.dispatched = Ghost(old_d.push(id));
                        assert forall|i: int| 0 <= i < self.dispatched@.len() implies self.ids.issued().contains(
                            #[trigger] self.dispatched@[i],
                        ) by {
                            if i < old_d.len() {
                                assert(self.dispatched@[i] == old_d[i]);
                            }
                        }
                        assert(!old_d.contains(id));
                    }
                    ForwardAction::Dispatch { id, target }
                },
                None => ForwardAction::Skip,
            },
            AcceptOutcome::Failed => ForwardAction::Skip,
            AcceptOutcome::Exhausted => {
                self.finished = true;
                ForwardAction::Finish
            },
        }
    }

    /// Decides what to do with one accept result; an accepted connection gets
    /// a fresh time-ordered request identity.
    pub fn on_accept(&mut self, outcome: AcceptOutcome) -> (r: ForwardAction)
        requires
            old(self).wf(),
        ensures
            final(self).wf(),
            exists|c: u128| (final(self).model(), r.kind()) == #[trigger] forward_step(old(self).model(), outcome.input(c)),
            match r {
                ForwardAction::Dispatch { id, target } => outcome == AcceptOutcome::Accepted(target)
                    && !old(self).dispatched().contains(id)
                    && final(self).dispatched() == old(self).dispatched().push(id),
                _ => final(self).dispatched() == old(self).dispatched(),
            },
    {
        let candidate: u128 = if let AcceptOutcome::Accepted(_) = &outcome {
            now_v7_value()
        } else {
            0
        };
        self.on_accept_with(outcome, candidate)
    }
}

/// No two connections that the forward loop dispatched share a request
/// identity, so no two of them share a transport session.
pub proof fn lemma_dispatched_ids_distinct(l: &ForwardLoop)
    requires
        l.wf(),
    ensures
        forall|i: int, j: int| 0 <= i < j < l.dispatched().len() ==> l.dispatched()[i] != l.dispatched()[j],
{
}

} // verus!
