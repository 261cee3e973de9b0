use vstd::prelude::*;

use crate::backoff::Backoff;
use crate::backoff::ScheduleBackoff;
use crate::driver::State;

verus! {

/// What can happen to one retry session between two of the driver's
/// decision points.
///
/// `Start` is the driver beginning an attempt; `Succeed` is the operation
/// resolving with a value; `FailFatal` is the operation resolving with an
/// error the predicate rejects; `FailRetryable` is the operation resolving
/// with an error the predicate accepts; `Wake` is a scheduled suspension
/// completing.
pub enum SessionEvent {
    Start,
    Succeed,
    FailFatal,
    FailRetryable,
    Wake,
}

/// One retry session whose backoff is a fixed schedule, as the contracts of
/// [`crate::driver::RetryWithContext`] describe it: the phase, whether the
/// driver holds the context, how many attempts have started, the delays
/// scheduled (and so announced to the notify callback) so far, and the
/// delays the backoff has yet to yield.
pub struct SessionModel {
    pub state: State,
    pub has_ctx: bool,
    pub attempts: nat,
    pub scheduled: Seq<u64>,
    pub remaining: Seq<u64>,
}

/// A freshly configured session: ready to run, no attempt started, nothing
/// scheduled, the whole backoff schedule ahead of it.
pub open spec fn session_init(schedule: Seq<u64>) -> SessionModel {
    SessionModel {
        state: State::Idle,
        has_ctx: true,
        attempts: 0,
        scheduled: Seq::empty(),
        remaining: schedule,
    }
}

/// How one event moves a session on.  Each arm restates, over
/// [`SessionModel`], the `ensures` of the corresponding step of
/// [`crate::driver::RetryWithContext`] — `Start` of `start_attempt`,
/// `Succeed` of `on_success`, `FailFatal` and `FailRetryable` of
/// `on_failure` (with [`crate::backoff::ScheduleBackoff`] answering from
/// `remaining`), and `Wake` of `wake`.
pub open spec fn session_step(m: SessionModel, ev: SessionEvent) -> SessionModel {
    match ev {
        SessionEvent::Start => SessionModel {
            state: State::Polling,
            has_ctx: false,
            attempts: m.attempts + 1,
            ..m
        },
        SessionEvent::Succeed => SessionModel { state: State::Complete, ..m },
        SessionEvent::FailFatal => SessionModel { state: State::Complete, ..m },
        SessionEvent::FailRetryable => if m.remaining.len() == 0 {
            SessionModel { state: State::Complete, ..m }
        } else {
            SessionModel {
                state: State::Sleeping,
                has_ctx: true,
                scheduled: m.scheduled.push(m.remaining[0]),
                remaining: m.remaining.skip(1),
                ..m
            }
        },
        SessionEvent::Wake => SessionModel { state: State::Idle, ..m },
    }
}

/// A session after a whole sequence of events.
pub open spec fn session_run(m: SessionModel, evs: Seq<SessionEvent>) -> SessionModel
    decreases evs.len(),
{
    if evs.len() == 0 {
        m
    } else {
        session_run(session_step(m, evs[0]), evs.skip(1))
    }
}

/// Running a concatenation of event sequences is running them in turn.
pub proof fn lemma_session_run_app(m: SessionModel, a: Seq<SessionEvent>, b: Seq<SessionEvent>)
    ensures
        session_run(m, a + b) == session_run(session_run(m, a), b),
    decreases a.len(),
{
    if a.len() == 0 {
        assert(a + b =~= b);
    } else {
        assert((a + b).skip(1) =~= a.skip(1) + b);
        lemma_session_run_app(session_step(m, a[0]), a.skip(1), b);
    }
}

/// The events of a session whose every attempt fails with an error the
/// predicate accepts, until the backoff is exhausted: `n` is the number of
/// retries the schedule still allows.
pub open spec fn always_failing_session(n: nat) -> Seq<SessionEvent>
    decreases n,
{
    if n == 0 {
        seq![SessionEvent::Start, SessionEvent::FailRetryable]
    } else {
        seq![SessionEvent::Start, SessionEvent::FailRetryable, SessionEvent::Wake]
            + always_failing_session((n - 1) as nat)
    }
}

/// When the operation always fails and the predicate always accepts, and the
/// backoff yields exactly the delays still remaining and then none: the
/// operation is invoked once more than there are delays, exactly those
/// delays are scheduled — one notification each — in order, and the session
/// ends.
pub proof fn law_exhaustion(m: SessionModel)
    requires
        m.state == State::Idle,
        m.has_ctx,
    ensures
        ({
            let f = session_run(m, always_failing_session(m.remaining.len()));
            &&& f.state == State::Complete
            &&& f.attempts == m.attempts + m.remaining.len() + 1
            &&& f.scheduled =~= m.scheduled + m.remaining
            &&& f.remaining.len() == 0
        }),
    decreases m.remaining.len(),
{
    reveal_with_fuel(session_run, 4);
    if m.remaining.len() == 0 {
        let evs = always_failing_session(0);
        assert(evs.skip(1) =~= seq![SessionEvent::FailRetryable]);
        assert(evs.skip(1).skip(1) =~= Seq::<SessionEvent>::empty());
        assert(m.scheduled + m.remaining =~= m.scheduled);
    } else {
        let head = seq![SessionEvent::Start, SessionEvent::FailRetryable, SessionEvent::Wake];
        let tail = always_failing_session((m.remaining.len() - 1) as nat);
        assert(always_failing_session(m.remaining.len()) == head + tail);
        lemma_session_run_app(m, head, tail);
        assert(head.skip(1) =~= seq![SessionEvent::FailRetryable, SessionEvent::Wake]);
        assert(head.skip(1).skip(1) =~= seq![SessionEvent::Wake]);
        assert(head.skip(1).skip(1).skip(1) =~= Seq::<SessionEvent>::empty());
        let m2 = session_run(m, head);
        assert(m2.state == State::Idle && m2.has_ctx);
        assert(m2.attempts == m.attempts + 1);
        assert(m2.scheduled == m.scheduled.push(m.remaining[0]));
        assert(m2.remaining == m.remaining.skip(1));
        law_exhaustion(m2);
        assert(m.scheduled.push(m.remaining[0]) + m.remaining.skip(1) =~= m.scheduled
            + m.remaining);
    }
}

/// If the predicate rejects the first error produced, the operation is
/// invoked exactly once, nothing is scheduled — so no notification and no
/// suspension occur — and the backoff is never consulted.
pub proof fn law_reject_first(m: SessionModel)
    requires
        m.state == State::Idle,
        m.has_ctx,
    ensures
        ({
            let f = session_run(m, seq![SessionEvent::Start, SessionEvent::FailFatal]);
            &&& f.state == State::Complete
            &&& f.attempts == m.attempts + 1
            &&& f.scheduled == m.scheduled
            &&& f.remaining == m.remaining
        }),
{
    reveal_with_fuel(session_run, 4);
    let evs = seq![SessionEvent::Start, SessionEvent::FailFatal];
    assert(evs.skip(1) =~= seq![SessionEvent::FailFatal]);
    assert(evs.skip(1).skip(1) =~= Seq::<SessionEvent>::empty());
}

/// Whatever happens to a session, the delays already scheduled followed by
/// the delays still remaining are always the original schedule: delays are
/// scheduled — and so announced to the notify callback — exactly in the
/// order the backoff produces them, none skipped, none repeated.
pub proof fn law_notify_order(m: SessionModel, evs: Seq<SessionEvent>)
    ensures
        ({
            let f = session_run(m, evs);
            &&& f.scheduled + f.remaining =~= m.scheduled + m.remaining
            &&& f.scheduled.len() >= m.scheduled.len()
            &&& f.scheduled.take(m.scheduled.len() as int) =~= m.scheduled
        }),
    decreases evs.len(),
{
    if evs.len() != 0 {
        let m2 = session_step(m, evs[0]);
        assert(m2.scheduled + m2.remaining =~= m.scheduled + m.remaining);
        assert(m2.scheduled.take(m.scheduled.len() as int) =~= m.scheduled);
        law_notify_order(m2, evs.skip(1));
        let f = session_run(m, evs);
        assert(f.scheduled.take(m.scheduled.len() as int) =~= f.scheduled.take(
            m2.scheduled.len() as int,
        ).take(m.scheduled.len() as int));
    }
}

/// The model transition for a failed, retryable attempt is exactly what the
/// contract of [`crate::driver::RetryWithContext::on_failure`] allows when
/// the backoff is a [`ScheduleBackoff`] with the delays `m.remaining` ahead
/// of it: the backoff's every permitted answer agrees with
/// `session_step(m, FailRetryable)` — exhaustion exactly when no delay
/// remains, otherwise the head of the schedule, with the rest remaining.
pub proof fn law_schedule_backoff_refines_model(
    m: SessionModel,
    b: ScheduleBackoff,
    answer: Option<u64>,
    next: ScheduleBackoff,
)
    requires
        b.remaining() == m.remaining,
        b.yields(answer, next),
    ensures
        ({
            let m2 = session_step(m, SessionEvent::FailRetryable);
            &&& (answer is None <==> m.remaining.len() == 0)
            &&& answer is None ==> {
                &&& m2.state == State::Complete
                &&& next.remaining() =~= m2.remaining
                &&& m2.scheduled == m.scheduled
            }
            &&& answer matches Some(delay) ==> {
                &&& delay == m.remaining[0]
                &&& m2.state == State::Sleeping
                &&& next.remaining() =~= m2.remaining
                &&& m2.scheduled == m.scheduled.push(delay)
            }
        }),
{
}

/// In a fresh session, what has been scheduled so far is always an exact
/// prefix of the configured schedule: the notify callback sees the backoff's
/// delays in the order the backoff produced them.
pub proof fn law_notify_order_session(schedule: Seq<u64>, evs: Seq<SessionEvent>)
    ensures
        ({
            let f = session_run(session_init(schedule), evs);
            f.scheduled =~= schedule.take(f.scheduled.len() as int)
        }),
{
    law_notify_order(session_init(schedule), evs);
    let f = session_run(session_init(schedule), evs);
    assert(f.scheduled + f.remaining =~= schedule);
    assert forall|i: int| 0 <= i < f.scheduled.len() implies f.scheduled[i] == schedule[i] by {
        assert((f.scheduled + f.remaining)[i] == f.scheduled[i]);
    }
}

} // verus!
