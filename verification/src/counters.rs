//! Delivery statistics for the ingress process.

use vstd::prelude::*;
use vstd::string::StringExecFns;
use crate::event::{Event, spec_decimal, to_decimal};
use crate::validate::{
    RawEvent, ValidationError, spec_raw_valid, spec_event_of, spec_validation_error,
    validate_event,
};

verus! {

/// Counts of events accepted at the ingress endpoint and of detached publish
/// tasks that have reported back, split by outcome. `inflight` is the ghost
/// number of publish tasks that were started and have not reported yet; the
/// running process never stores it, but it ties the three real counters
/// together.
pub struct State {
    pub received: u64,
    pub processed: u64,
    pub errored: u64,
    pub inflight: Ghost<nat>,
}

impl State {
    /// Every accepted event either still has its publish task in flight or
    /// has been recorded exactly once as processed or errored, so
    /// `processed + errored` never runs ahead of `received`.
    pub open spec fn wf(self) -> bool {
        self.processed + self.errored + self.inflight@ == self.received
    }

    pub fn new() -> (s: State)
        ensures
            s.received == 0,
            s.processed == 0,
            s.errored == 0,
            s.inflight@ == 0,
            s.wf(),
    {
        State { received: 0, processed: 0, errored: 0, inflight: Ghost(0) }
    }

    /// Ingress dispatch: validate the submission, count the acceptance, and
    /// hand back the validated event for a detached publish task to
    /// serialize and send. The caller is answered at this point, before any
    /// broker interaction. A rejected submission leaves every counter
    /// untouched and hands nothing out, so it causes no broker interaction
    /// at all.
    pub fn submit(&mut self, raw: &RawEvent) -> (r: Result<Event, ValidationError>)
        requires
            old(self).wf(),
            old(self).received < u64::MAX,
        ensures
            final(self).wf(),
            (r is Ok <==> spec_raw_valid(*raw)),
            r is Err ==> *final(self) == *old(self) && r->Err_0 == spec_validation_error(*raw),
            r is Ok ==> r->Ok_0 == spec_event_of(*raw) && r->Ok_0.wf(),
            r is Ok ==> final(self).received == old(self).received + 1,
            r is Ok ==> final(self).processed == old(self).processed,
            r is Ok ==> final(self).errored == old(self).errored,
            r is Ok ==> final(self).inflight@ == old(self).inflight@ + 1,
    {
        match validate_event(raw) {
            Ok(e) => {
                self.received = self.received + 1;
                proof {
                    self.inflight@ = self.inflight@ + 1;
                }
                Ok(e)
            },
            Err(e) => Err(e),
        }
    }

    /// Publish bookkeeping: one in-flight publish task reports its outcome,
    /// and exactly one of `processed` / `errored` advances by one.
    pub fn record_publish_outcome(&mut self, delivered: bool)
        requires
            old(self).wf(),
            old(self).inflight@ > 0,
        ensures
            final(self).wf(),
            final(self).received == old(self).received,
            final(self).inflight@ == old(self).inflight@ - 1,
            delivered ==> final(self).processed == old(self).processed + 1
                && final(self).errored == old(self).errored,
            !delivered ==> final(self).errored == old(self).errored + 1
                && final(self).processed == old(self).processed,
    {
        if delivered {
            self.processed = self.processed + 1;
        } else {
            self.errored = self.errored + 1;
        }
        proof {
            self.inflight@ = (self.inflight@ - 1) as nat;
        }
    }

    /// The one-line rendering of the counters, as the status page shows it.
    pub fn summary(&self) -> (r: String)
        ensures
            r@ == "received: "@ + spec_decimal(self.received as int) + ", processed: "@
                + spec_decimal(self.processed as int) + ", errored: "@ + spec_decimal(
                self.errored as int,
            ),
    {
        let mut s = String::from_str("received: ");
        let received = to_decimal(self.received);
        s.append(received.as_str());
        s.append(", processed: ");
        let processed = to_decimal(self.processed);
        s.append(processed.as_str());
        s.append(", errored: ");
        let errored = to_decimal(self.errored);
        s.append(errored.as_str());
        s
    }

    /// At any instant the outcome counters never run ahead of `received`:
    /// publication is asynchronous, so acceptances are counted first and
    /// outcomes catch up as the detached tasks settle.
    pub proof fn lemma_counters_bounded(self)
        requires
            self.wf(),
        ensures
            self.processed + self.errored <= self.received,
    {
    }

    /// Once every detached publish task has settled, the outcome counters
    /// account for every accepted event exactly.
    pub proof fn lemma_settled_counters(self)
        requires
            self.wf(),
            self.inflight@ == 0,
        ensures
            self.processed + self.errored == self.received,
    {
    }
}

} // verus!
