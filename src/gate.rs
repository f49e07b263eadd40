//! The admission gate that bounds the number of outstanding requests.
use vstd::prelude::*;

verus! {

/// A counting gate: at most `limit` requests may be outstanding at once,
/// across the prober and every row walk. The bound holds of every gate,
/// whatever admissions and releases came before.
pub struct Gate {
    limit: usize,
    outstanding: usize,
}

impl Gate {
    #[verifier::type_invariant]
    spec fn within_limit(self) -> bool {
        self.outstanding <= self.limit
    }

    /// The most requests that may be outstanding at once.
    pub closed spec fn spec_limit(self) -> nat {
        self.limit as nat
    }

    /// The requests admitted and not yet answered.
    pub closed spec fn spec_outstanding(self) -> nat {
        self.outstanding as nat
    }

    /// A gate admitting up to `limit` requests at once, none admitted yet.
    pub fn new(limit: usize) -> (r: Gate)
        ensures
            r.spec_limit() == limit,
            r.spec_outstanding() == 0,
            r.spec_outstanding() <= r.spec_limit(),
    {
        Gate { limit, outstanding: 0 }
    }

    pub fn limit(&self) -> (r: usize)
        ensures
            r == self.spec_limit(),
    {
        self.limit
    }

    pub fn outstanding(&self) -> (r: usize)
        ensures
            r == self.spec_outstanding(),
            r <= self.spec_limit(),
    {
        proof {
            use_type_invariant(self);
        }
        self.outstanding
    }

    /// Admits one more request if the limit allows it; a caller turned
    /// away waits for a release and tries again.
    pub fn try_acquire(&mut self) -> (admitted: bool)
        ensures
            admitted == (old(self).spec_outstanding() < old(self).spec_limit()),
            final(self).spec_limit() == old(self).spec_limit(),
            admitted ==> final(self).spec_outstanding() == old(self).spec_outstanding() + 1,
            !admitted ==> final(self).spec_outstanding() == old(self).spec_outstanding(),
            final(self).spec_outstanding() <= final(self).spec_limit(),
    {
        proof {
            use_type_invariant(&*self);
        }
        if self.outstanding < self.limit {
            self.outstanding = self.outstanding + 1;
            true
        } else {
            false
        }
    }

    /// Gives back the admission of a request whose response has arrived.
    /// Returns false, changing nothing, where no request was outstanding.
    pub fn release(&mut self) -> (released: bool)
        ensures
            released == (old(self).spec_outstanding() > 0),
            final(self).spec_limit() == old(self).spec_limit(),
            released ==> final(self).spec_outstanding() == old(self).spec_outstanding() - 1,
            !released ==> final(self).spec_outstanding() == old(self).spec_outstanding(),
            final(self).spec_outstanding() <= final(self).spec_limit(),
    {
        proof {
            use_type_invariant(&*self);
        }
        if self.outstanding > 0 {
            self.outstanding = self.outstanding - 1;
            true
        } else {
            false
        }
    }
}

} // verus!
