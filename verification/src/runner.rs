//! Sequential execution of a protocol's call sequence.
//!
//! Every multi-step protocol issues its calls strictly in order and
//! aborts on the first failure. The runner owns the sequence and hands
//! out one call at a time; the application runs it and reports the exit
//! status back before the next call is offered. A non-zero status is
//! final: from then on no further call is offered, so a failure at call
//! k leaves exactly k calls issued.

use vstd::prelude::*;

use crate::JarvisError;

verus! {

/// A protocol run: a fixed call sequence, a cursor, and the first
/// failure if one happened.
pub struct Runner {
    plan: Vec<Vec<String>>,
    issued: usize,
    failed: Option<i32>,
}

impl Runner {
    /// The calls of the protocol, in order.
    pub closed spec fn plan(&self) -> Seq<Seq<Seq<char>>> {
        self.plan.deep_view()
    }

    /// How many calls have been issued so far.
    pub closed spec fn issued(&self) -> nat {
        self.issued as nat
    }

    /// The exit status of the failed call, if one failed.
    pub closed spec fn failure(&self) -> Option<i32> {
        self.failed
    }

    pub closed spec fn wf(&self) -> bool {
        self.issued <= self.plan@.len()
    }

    /// Starts a run over a call sequence.
    pub fn new(plan: Vec<Vec<String>>) -> (r: Runner)
        ensures
            r.wf(),
            r.plan() == plan.deep_view(),
            r.issued() == 0,
            r.failure() is None,
    {
        Runner { plan, issued: 0, failed: None }
    }

    /// The next call to issue: present exactly while no call has failed
    /// and calls remain; absent forever once one failed.
    pub fn current(&self) -> (r: Option<&Vec<String>>)
        requires
            self.wf(),
        ensures
            match r {
                Some(c) => self.failure() is None && self.issued() < self.plan().len()
                    && c.deep_view() == self.plan()[self.issued() as int],
                None => self.failure() is Some || self.issued() == self.plan().len(),
            },
    {
        if self.failed.is_some() {
            None
        } else if self.issued < self.plan.len() {
            Some(&self.plan[self.issued])
        } else {
            None
        }
    }

    /// Records the exit status of the call just issued. A non-zero
    /// status becomes the run's failure; the count of issued calls
    /// grows by one either way and never grows after a failure.
    pub fn report(&mut self, code: i32)
        requires
            old(self).wf(),
            old(self).failure() is None,
            old(self).issued() < old(self).plan().len(),
        ensures
            final(self).wf(),
            final(self).plan() == old(self).plan(),
            final(self).issued() == old(self).issued() + 1,
            code == 0 ==> final(self).failure() is None,
            code != 0 ==> final(self).failure() == Some(code),
    {
        let _n = self.plan.len();
        proof {
            assert(self.plan.deep_view().len() == self.plan@.len());
        }
        self.issued = self.issued + 1;
        if code != 0 {
            self.failed = Some(code);
        }
    }

    /// The run's outcome, once no further call is due: the first
    /// failure's exit status, or success after the whole sequence ran.
    pub fn outcome(&self) -> (r: Result<(), JarvisError>)
        requires
            self.wf(),
            self.failure() is Some || self.issued() == self.plan().len(),
        ensures
            match r {
                Ok(u) => self.failure() is None && self.issued() == self.plan().len(),
                Err(e) => self.failure() is Some && (e matches JarvisError::NonZero(c)
                    && self.failure() == Some(c)),
            },
    {
        match self.failed {
            Some(c) => Err(JarvisError::NonZero(c)),
            None => Ok(()),
        }
    }
}

} // verus!
