//! Request identities: one fresh identifier per connection attempt, never
//! handed out twice.
use vstd::prelude::*;

verus! {

/// The version field of a UUID held as a big-endian integer.
pub open spec fn uuid_version(id: u128) -> u128 {
    (id >> 76u128) & 0xfu128
}

/// Relies on `uuid::Uuid::now_v7`: a version 7 UUID built from the current
/// time, as its 128-bit big-endian value (`Uuid::as_u128`).
#[verifier::external_body]
pub(crate) fn now_v7_value() -> (r: u128)
    ensures
        uuid_version(r) == 7,
{
    uuid::Uuid::now_v7().as_u128()
}

/// The issuer of request identities. Identities come out strictly
/// increasing, so none is ever handed out twice.
pub struct RequestIds {
    last: Option<u128>,
    issued: Ghost<Set<u128>>,
}

impl RequestIds {
    /// Every identity handed out so far.
    pub closed spec fn issued(&self) -> Set<u128> {
        self.issued@
    }

    /// The largest identity handed out so far, if any.
    pub closed spec fn last(&self) -> Option<u128> {
        self.last
    }

    pub closed spec fn wf(&self) -> bool {
        match self.last {
            None => self.issued@.is_empty(),
            Some(l) => self.issued@.contains(l) && forall|x: u128| #[trigger] self.issued@.contains(x) ==> x <= l,
        }
    }

    /// An issuer that has handed out nothing.
    pub fn new() -> (r: RequestIds)
        ensures
            r.wf(),
            r.issued().is_empty(),
            r.last().is_none(),
    {
        RequestIds { last: None, issued: Ghost(Set::empty()) }
    }

    /// The identity that `issue` hands out for a candidate, if any: the
    /// candidate where it exceeds every identity handed out so far, else the
    /// successor of the largest one.
    pub open spec fn next_for(last: Option<u128>, candidate: u128) -> Option<u128> {
        match last {
            None => Some(candidate),
            Some(l) => if candidate > l {
                Some(candidate)
            } else if l < u128::MAX {
                Some((l + 1) as u128)
            } else {
                None
            },
        }
    }

    /// Hands out an identity derived from `candidate` that was never handed
    /// out before. `None` exactly when `u128::MAX` has been handed out.
    pub fn issue(&mut self, candidate: u128) -> (r: Option<u128>)
        requires
            old(self).wf(),
        ensures
            final(self).wf(),
            r == Self::next_for(old(self).last(), candidate),
            match r {
                Some(id) => !old(self).issued().contains(id) && final(self).issued() == old(self).issued().insert(id)
                    && final(self).last() == Some(id),
                None => final(self).issued() == old(self).issued() && final(self).last() == old(self).last(),
            },
    {
        let next: Option<u128> = match self.last {
            None => Some(candidate),
            Some(l) => if candidate > l {
                Some(candidate)
            } else if l < u128::MAX {
                Some(l + 1)
            } else {
                None
            },
        };
        if let Some(id) = next {
            self.last = Some(id);
            self.issued = Ghost(self.issued@.insert(id));
        }
        next
    }

    /// Hands out a fresh time-ordered identity. `None` only once the top of
    /// the identity space has been handed out.
    pub fn fresh(&mut self) -> (r: Option<u128>)
        requires
            old(self).wf(),
        ensures
            final(self).wf(),
            exists|c: u128| r == #[trigger] Self::next_for(old(self).last(), c),
            old(self).last() != Some(u128::MAX) ==> r is Some,
            final(self).last() == (if r is Some { r } else { old(self).last() }),
            match r {
                Some(id) => !old(self).issued().contains(id) && final(self).issued() == old(self).issued().insert(id),
                None => final(self).issued() == old(self).issued(),
            },
    {
        let candidate = now_v7_value();
        self.issue(candidate)
    }
}

} // verus!
