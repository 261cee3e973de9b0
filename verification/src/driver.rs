use vstd::prelude::*;

use crate::backoff::Backoff;
use crate::backoff::BackoffBuilder;

verus! {

/// The phase a retry session is in.
///
/// A session is always in exactly one phase.  `Idle` is "about to invoke the
/// operation" (before the first attempt, and after each completed
/// suspension); `Polling` is "the operation is in flight"; `Sleeping` is
/// "waiting out a scheduled delay"; `Complete` is "the session has resolved
/// to its terminal outcome".
#[derive(Clone, Copy, PartialEq, Eq, Structural)]
pub enum State {
    Idle,
    Polling,
    Sleeping,
    Complete,
}

/// Marker for the ambient suspension mechanism, used when no other one is
/// configured with [`RetryWithContext::sleep`].
pub struct DefaultSleeper;

/// Marker for the default retry predicate, which accepts every error.
pub struct RetryAll;

/// Marker for the default notify callback, which does nothing.
pub struct NoopNotify;

/// The driver as the contracts see it: its phase, whether it currently holds
/// the context, how many attempts it has started, and the delays it has
/// scheduled so far, in order.
pub struct DriverModel {
    pub state: State,
    pub has_ctx: bool,
    pub attempts: nat,
    pub scheduled: Seq<u64>,
}

/// What the driver decides after a failed attempt.
///
/// `Finished` carries the terminal outcome: the context and the original
/// error, returned verbatim.  `Retry` orders one more attempt: the caller
/// must pass the error and the delay to the notify callback, suspend for the
/// delay, and then wake the driver.
pub enum RetryDecision<Ctx, E> {
    Finished(Ctx, E),
    Retry { error: E, delay: u64 },
}

/// The retry driver: it owns the context, the backoff and the configured
/// capabilities, and it alone decides when the operation runs, when the
/// backoff is consulted and when the session suspends.
///
/// The async plumbing around it performs the operation and the suspensions;
/// every decision between two suspension points is made here, by
/// [`Self::start_attempt`], [`Self::on_success`], [`Self::on_failure`] and
/// [`Self::wake`].
pub struct RetryWithContext<B, Ctx, FutureFn, SF = DefaultSleeper, RF = RetryAll, NF = NoopNotify> {
    /// The backoff of this session; consulted only by [`Self::on_failure`].
    pub backoff: B,
    /// The retry predicate; the driver never invokes it, the surrounding
    /// program evaluates it on the failed attempt's error and hands the
    /// verdict to [`Self::on_failure`].
    pub retryable: RF,
    /// The notify callback, invoked by the surrounding program with exactly
    /// the pairs a [`RetryDecision::Retry`] carries.
    pub notify: NF,
    /// The operation; invoked by the surrounding program once per
    /// [`Self::start_attempt`].
    pub future_fn: FutureFn,
    /// The suspension mechanism, used by the surrounding program to wait out
    /// each [`RetryDecision::Retry`] delay.
    pub sleep_fn: SF,
    /// The phase of the session.
    pub state: State,
    /// The context slot.  The context is taken out exactly at the transition
    /// that consumes it and put back before the next suspension.
    pub ctx: Option<Ctx>,
    /// How many attempts have been started.
    pub attempts: Ghost<nat>,
    /// The delays scheduled so far, in the order the backoff produced them.
    pub scheduled: Ghost<Seq<u64>>,
}

impl<B, Ctx, FutureFn, SF, RF, NF> View for RetryWithContext<B, Ctx, FutureFn, SF, RF, NF> {
    type V = DriverModel;

    open spec fn view(&self) -> DriverModel {
        DriverModel {
            state: self.state,
            has_ctx: self.ctx is Some,
            attempts: self.attempts@,
            scheduled: self.scheduled@,
        }
    }
}

impl<B, Ctx, FutureFn, SF, RF, NF> RetryWithContext<B, Ctx, FutureFn, SF, RF, NF> {
    /// The driver-state invariant: the context has exactly one owner at
    /// every observable point, so it sits in the slot exactly when no
    /// attempt and no terminal outcome holds it — while the operation is in
    /// flight (`Polling`) the attempt owns it, and after resolution
    /// (`Complete`) the caller owns it.
    pub open spec fn wf(self) -> bool {
        match self.state {
            State::Idle => true,
            State::Polling => self.ctx is None,
            State::Sleeping => self.ctx is Some,
            State::Complete => self.ctx is None,
        }
    }

    /// Holds when the two drivers carry the same operation, predicate,
    /// notify callback and suspension mechanism.
    pub open spec fn same_capabilities(self, other: Self) -> bool {
        &&& self.retryable == other.retryable
        &&& self.notify == other.notify
        &&& self.future_fn == other.future_fn
        &&& self.sleep_fn == other.sleep_fn
    }
}

impl<B, Ctx, FutureFn> RetryWithContext<B, Ctx, FutureFn> {
    /// A driver defaulted to "retry on every error", "no notification" and
    /// the ambient suspension mechanism, with no context set yet: the
    /// session is not runnable until [`Self::context`] supplies one.
    pub fn new(future_fn: FutureFn, backoff: B) -> (r: Self)
        ensures
            r.state == State::Idle,
            r.ctx is None,
            r.backoff == backoff,
            r.future_fn == future_fn,
            r@.attempts == 0,
            r@.scheduled == Seq::<u64>::empty(),
            r.wf(),
    {
        RetryWithContext {
            backoff,
            retryable: RetryAll,
            notify: NoopNotify,
            future_fn,
            sleep_fn: DefaultSleeper,
            state: State::Idle,
            ctx: None,
            attempts: Ghost(0),
            scheduled: Ghost(Seq::empty()),
        }
    }
}

impl<B, Ctx, FutureFn, SF, RF, NF> RetryWithContext<B, Ctx, FutureFn, SF, RF, NF> {
    /// Replace the suspension mechanism.
    ///
    /// Must be called before the context is supplied: the context's presence
    /// marks the session as configured and ready to run, and swapping the
    /// suspension mechanism after that point is a configuration fault, which
    /// this precondition rules out.
    pub fn sleep<SN>(self, sleep_fn: SN) -> (r: RetryWithContext<B, Ctx, FutureFn, SN, RF, NF>)
        requires
            self.state == State::Idle,
            self.ctx is None,
        ensures
            r.state == State::Idle,
            r.ctx is None,
            r.backoff == self.backoff,
            r.retryable == self.retryable,
            r.notify == self.notify,
            r.future_fn == self.future_fn,
            r.sleep_fn == sleep_fn,
            r@.attempts == self@.attempts,
            r@.scheduled == self@.scheduled,
    {
        RetryWithContext {
            backoff: self.backoff,
            retryable: self.retryable,
            notify: self.notify,
            future_fn: self.future_fn,
            sleep_fn,
            state: State::Idle,
            ctx: None,
            attempts: self.attempts,
            scheduled: self.scheduled,
        }
    }

    /// Supply the initial context, marking the driver ready to run.
    pub fn context(self, context: Ctx) -> (r: RetryWithContext<B, Ctx, FutureFn, SF, RF, NF>)
        requires
            self.state == State::Idle,
        ensures
            r.state == State::Idle,
            r.ctx == Some(context),
            r.backoff == self.backoff,
            r.same_capabilities(self),
            r@.attempts == self@.attempts,
            r@.scheduled == self@.scheduled,
            r.wf(),
    {
        RetryWithContext {
            backoff: self.backoff,
            retryable: self.retryable,
            notify: self.notify,
            future_fn: self.future_fn,
            sleep_fn: self.sleep_fn,
            state: State::Idle,
            ctx: Some(context),
            attempts: self.attempts,
            scheduled: self.scheduled,
        }
    }

    /// Replace the retry predicate.  The default accepts every error.
    pub fn when<RN>(self, retryable: RN) -> (r: RetryWithContext<B, Ctx, FutureFn, SF, RN, NF>)
        ensures
            r.state == self.state,
            r.ctx == self.ctx,
            r.backoff == self.backoff,
            r.retryable == retryable,
            r.notify == self.notify,
            r.future_fn == self.future_fn,
            r.sleep_fn == self.sleep_fn,
            r@.attempts == self@.attempts,
            r@.scheduled == self@.scheduled,
    {
        RetryWithContext {
            backoff: self.backoff,
            retryable,
            notify: self.notify,
            future_fn: self.future_fn,
            sleep_fn: self.sleep_fn,
            state: self.state,
            ctx: self.ctx,
            attempts: self.attempts,
            scheduled: self.scheduled,
        }
    }

    /// Replace the notify callback.  The default does nothing.
    pub fn notify<NN>(self, notify: NN) -> (r: RetryWithContext<B, Ctx, FutureFn, SF, RF, NN>)
        ensures
            r.state == self.state,
            r.ctx == self.ctx,
            r.backoff == self.backoff,
            r.retryable == self.retryable,
            r.notify == notify,
            r.future_fn == self.future_fn,
            r.sleep_fn == self.sleep_fn,
            r@.attempts == self@.attempts,
            r@.scheduled == self@.scheduled,
    {
        RetryWithContext {
            backoff: self.backoff,
            retryable: self.retryable,
            notify,
            future_fn: self.future_fn,
            sleep_fn: self.sleep_fn,
            state: self.state,
            ctx: self.ctx,
            attempts: self.attempts,
            scheduled: self.scheduled,
        }
    }

    /// Whether the driver currently holds a context, i.e. whether the
    /// session is configured and ready to run.
    pub fn has_context(&self) -> (r: bool)
        ensures
            r == (self.ctx is Some),
    {
        self.ctx.is_some()
    }
}

impl<B: Backoff, Ctx, FutureFn, SF, RF, NF> RetryWithContext<B, Ctx, FutureFn, SF, RF, NF> {
    /// Begin one attempt: take the context out of the slot and hand it to
    /// the caller, who must invoke the operation on it exactly once and
    /// report the outcome through [`Self::on_success`] or
    /// [`Self::on_failure`].
    pub fn start_attempt(&mut self) -> (context: Ctx)
        requires
            old(self).state == State::Idle,
            old(self).ctx is Some,
        ensures
            final(self).state == State::Polling,
            final(self).ctx is None,
            old(self).ctx == Some(context),
            final(self)@.attempts == old(self)@.attempts + 1,
            final(self)@.scheduled == old(self)@.scheduled,
            final(self).backoff == old(self).backoff,
            final(self).same_capabilities(*old(self)),
            final(self).wf(),
    {
        let context = self.ctx.take().unwrap();
        self.state = State::Polling;
        self.attempts = Ghost(self.attempts@ + 1);
        context
    }

    /// The attempt resolved with a value: the session ends, and the context
    /// returned to the caller is exactly the one the successful attempt
    /// produced.
    pub fn on_success(&mut self, context: Ctx) -> (r: Ctx)
        requires
            old(self).state == State::Polling,
            old(self).ctx is None,
        ensures
            r == context,
            final(self).state == State::Complete,
            final(self).ctx is None,
            final(self)@.attempts == old(self)@.attempts,
            final(self)@.scheduled == old(self)@.scheduled,
            final(self).backoff == old(self).backoff,
            final(self).same_capabilities(*old(self)),
            final(self).wf(),
    {
        self.state = State::Complete;
        context
    }

    /// The attempt resolved with an error.  `retryable` is the retry
    /// predicate's verdict on that error; the predicate is evaluated once
    /// per failed attempt, before the backoff is consulted.
    ///
    /// If the predicate rejected the error, the backoff is not consulted and
    /// the session ends with the original context and error.  Otherwise the
    /// backoff is consulted once: exhaustion ends the session the same way,
    /// and a delay schedules a retry, recorded in order, with the driver
    /// holding the context again for the coming suspension.
    pub fn on_failure<E>(&mut self, context: Ctx, error: E, retryable: bool) -> (decision: RetryDecision<
        Ctx,
        E,
    >)
        requires
            old(self).state == State::Polling,
            old(self).ctx is None,
        ensures
            final(self)@.attempts == old(self)@.attempts,
            final(self).same_capabilities(*old(self)),
            final(self).wf(),
            !retryable ==> {
                &&& decision == RetryDecision::<Ctx, E>::Finished(context, error)
                &&& final(self).state == State::Complete
                &&& final(self).ctx is None
                &&& final(self).backoff == old(self).backoff
                &&& final(self)@.scheduled == old(self)@.scheduled
            },
            retryable ==> match decision {
                RetryDecision::Finished(c, e) => {
                    &&& c == context
                    &&& e == error
                    &&& old(self).backoff.yields(None, final(self).backoff)
                    &&& final(self).state == State::Complete
                    &&& final(self).ctx is None
                    &&& final(self)@.scheduled == old(self)@.scheduled
                },
                RetryDecision::Retry { error: e, delay } => {
                    &&& e == error
                    &&& old(self).backoff.yields(Some(delay), final(self).backoff)
                    &&& final(self).state == State::Sleeping
                    &&& final(self).ctx == Some(context)
                    &&& final(self)@.scheduled == old(self)@.scheduled.push(delay)
                },
            },
    {
        if !retryable {
            self.state = State::Complete;
            return RetryDecision::Finished(context, error);
        }
        match self.backoff.next() {
            None => {
                self.state = State::Complete;
                RetryDecision::Finished(context, error)
            },
            Some(delay) => {
                self.state = State::Sleeping;
                self.ctx = Some(context);
                self.scheduled = Ghost(self.scheduled@.push(delay));
                RetryDecision::Retry { error, delay }
            },
        }
    }

    /// The scheduled suspension completed: the driver returns to `Idle`,
    /// still holding the context, ready to begin the next attempt.
    pub fn wake(&mut self)
        requires
            old(self).state == State::Sleeping,
            old(self).ctx is Some,
        ensures
            final(self).state == State::Idle,
            final(self).ctx == old(self).ctx,
            final(self)@.attempts == old(self)@.attempts,
            final(self)@.scheduled == old(self)@.scheduled,
            final(self).backoff == old(self).backoff,
            final(self).same_capabilities(*old(self)),
            final(self).wf(),
    {
        self.state = State::Idle;
    }
}

/// Adds [`RetryableWithContext::retry`] to every operation value: together
/// with a backoff builder it yields a fresh, unconfigured retry driver.
pub trait RetryableWithContext<B: BackoffBuilder, Ctx>: Sized {
    /// A driver for this operation, with a fresh backoff built by `builder`
    /// and every other capability at its default.
    fn retry(self, builder: B) -> (r: RetryWithContext<B::Backoff, Ctx, Self>)
        ensures
            builder.builds(r.backoff),
            r.state == State::Idle,
            r.ctx is None,
            r.future_fn == self,
            r@.attempts == 0,
            r@.scheduled == Seq::<u64>::empty(),
    ;
}

impl<B: BackoffBuilder, Ctx, FutureFn> RetryableWithContext<B, Ctx> for FutureFn {
    fn retry(self, builder: B) -> (r: RetryWithContext<B::Backoff, Ctx, FutureFn>) {
        RetryWithContext::new(self, builder.build())
    }
}

} // verus!
