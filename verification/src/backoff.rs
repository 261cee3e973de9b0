use vstd::prelude::*;

verus! {

/// A stateful generator of optional retry delays, in milliseconds.
///
/// A backoff is consulted once per failed, retryable attempt.  Yielding
/// `Some(delay)` means "retry after waiting `delay`"; yielding `None` means
/// the schedule is exhausted and the session must stop retrying.  Results may
/// vary from call to call (a jittering backoff, for instance), so the
/// interface is a transition relation rather than a function: `yields` says
/// which answers a given backoff value may produce, and what it may become.
pub trait Backoff: Sized {
    /// Holds when this backoff, asked for its next delay, may answer
    /// `answer` and become `next`.
    spec fn yields(self, answer: Option<u64>, next: Self) -> bool;

    /// Produce the next delay of the schedule, or `None` once it is
    /// exhausted.
    fn next(&mut self) -> (answer: Option<u64>)
        ensures
            old(self).yields(answer, *final(self)),
    ;
}

/// A maker of fresh [`Backoff`] values, one per retry session.
pub trait BackoffBuilder: Sized {
    type Backoff: Backoff;

    /// Holds when this builder may produce `backoff`.
    spec fn builds(self, backoff: Self::Backoff) -> bool;

    /// Build a fresh backoff for one session.
    fn build(self) -> (backoff: Self::Backoff)
        ensures
            self.builds(backoff),
    ;
}

/// A backoff that yields a fixed, finite schedule of delays in order, then is
/// exhausted.
pub struct ScheduleBackoff {
    /// The whole schedule, in milliseconds.
    pub delays: Vec<u64>,
    /// How many delays have already been yielded.
    pub pos: usize,
}

impl ScheduleBackoff {
    /// The delays this backoff has yet to yield, in order.
    pub open spec fn remaining(self) -> Seq<u64> {
        if self.pos <= self.delays@.len() {
            self.delays@.skip(self.pos as int)
        } else {
            Seq::empty()
        }
    }

    /// A fresh backoff that will yield exactly `delays`, in order.
    pub fn new(delays: Vec<u64>) -> (r: ScheduleBackoff)
        ensures
            r.remaining() =~= delays@,
    {
        ScheduleBackoff { delays, pos: 0 }
    }
}

impl Backoff for ScheduleBackoff {
    open spec fn yields(self, answer: Option<u64>, next: Self) -> bool {
        if self.remaining().len() == 0 {
            answer is None && next.remaining().len() == 0
        } else {
            answer == Some(self.remaining()[0]) && next.remaining() =~= self.remaining().skip(1)
        }
    }

    fn next(&mut self) -> (answer: Option<u64>)
        ensures
            old(self).yields(answer, *final(self)),
    {
        if self.pos < self.delays.len() {
            let delay = self.delays[self.pos];
            self.pos = self.pos + 1;
            proof {
                assert(old(self).remaining()[0] == delay);
                assert(self.remaining() =~= old(self).remaining().skip(1));
            }
            Some(delay)
        } else {
            None
        }
    }
}

/// A builder for [`ScheduleBackoff`].
pub struct ScheduleBuilder {
    /// The schedule every built backoff will yield, in milliseconds.
    pub delays: Vec<u64>,
}

impl ScheduleBuilder {
    /// A builder whose backoffs yield exactly `delays`, in order.
    pub fn new(delays: Vec<u64>) -> (r: ScheduleBuilder)
        ensures
            r.delays@ == delays@,
    {
        ScheduleBuilder { delays }
    }
}

impl BackoffBuilder for ScheduleBuilder {
    type Backoff = ScheduleBackoff;

    open spec fn builds(self, backoff: ScheduleBackoff) -> bool {
        backoff.remaining() == self.delays@
    }

    fn build(self) -> (backoff: ScheduleBackoff)
        ensures
            self.builds(backoff),
    {
        let backoff = ScheduleBackoff::new(self.delays);
        backoff
    }
}

} // verus!
