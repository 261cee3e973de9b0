use backon::Backoff;
use backon::BackoffBuilder;
use backon::RetryDecision;
use backon::RetryWithContext;
use backon::RetryableWithContext;
use backon::ScheduleBuilder;

/// Drives one session to completion the way the async plumbing would: it
/// performs the operation and the notifications the driver orders, records
/// every suspension in `slept`, and returns the terminal outcome.
fn run_session<B, Ctx, T, E, Op, SF, RF, NF>(
    mut driver: RetryWithContext<B, Ctx, Op, SF, RF, NF>,
    slept: &mut Vec<u64>,
) -> (Ctx, Result<T, E>)
where
    B: Backoff,
    Op: FnMut(Ctx) -> (Ctx, Result<T, E>),
    RF: FnMut(&E) -> bool,
    NF: FnMut(&E, u64),
{
    if !driver.has_context() {
        panic!("context must be valid");
    }
    loop {
        let ctx = driver.start_attempt();
        let (ctx, res) = (driver.future_fn)(ctx);
        match res {
            Ok(v) => {
                let ctx = driver.on_success(ctx);
                return (ctx, Ok(v));
            }
            Err(e) => {
                let retryable = (driver.retryable)(&e);
                match driver.on_failure(ctx, e, retryable) {
                    RetryDecision::Finished(ctx, e) => return (ctx, Err(e)),
                    RetryDecision::Retry { error, delay } => {
                        (driver.notify)(&error, delay);
                        slept.push(delay);
                        driver.wake();
                    }
                }
            }
        }
    }
}

struct Test;

impl Test {
    fn hello(&mut self) -> Result<usize, String> {
        Err("not retryable".to_string())
    }
}

#[test]
fn test_retry_with_not_retryable_error() {
    let mut error_times = 0;
    let test = Test;
    let backoff = ScheduleBuilder::new(vec![1, 1, 1]);

    let mut driver = {
        |mut v: Test| {
            error_times += 1;
            let res = v.hello();
            (v, res)
        }
    }
    .retry(backoff)
    .context(test)
    // Only retry If error message is `retryable`
    .when(|e: &String| e == "retryable");

    let ctx = driver.start_attempt();
    let (ctx, res) = (driver.future_fn)(ctx);
    let result: Result<usize, String> = match res {
        Ok(v) => {
            driver.on_success(ctx);
            Ok(v)
        }
        Err(e) => {
            let retryable = (driver.retryable)(&e);
            match driver.on_failure(ctx, e, retryable) {
                RetryDecision::Finished(_ctx, e) => Err(e),
                RetryDecision::Retry { .. } => panic!("no retry may be scheduled"),
            }
        }
    };
    drop(driver);

    assert!(result.is_err());
    assert_eq!("not retryable", result.unwrap_err());
    // `f` always returns error "not retryable", so it should be executed
    // only once.
    assert_eq!(error_times, 1);
}

#[test]
fn test_exhaustion_invokes_and_notifies() {
    let mut calls = 0;
    let mut notified: Vec<(String, u64)> = Vec::new();
    let mut slept: Vec<u64> = Vec::new();

    let driver = {
        |v: u32| {
            calls += 1;
            (v, Err::<u32, String>("boom".to_string()))
        }
    }
    .retry(ScheduleBuilder::new(vec![2, 3]))
    .context(0u32)
    .when(|_e: &String| true)
    .notify(|e: &String, d: u64| notified.push((e.clone(), d)));

    let (_ctx, res) = run_session(driver, &mut slept);

    assert_eq!(calls, 3);
    assert_eq!(res, Err("boom".to_string()));
    assert_eq!(
        notified,
        vec![("boom".to_string(), 2), ("boom".to_string(), 3)]
    );
    assert_eq!(slept, vec![2, 3]);
}

#[test]
fn test_empty_schedule_single_attempt() {
    let mut calls = 0;
    let mut notified: Vec<(String, u64)> = Vec::new();
    let mut slept: Vec<u64> = Vec::new();

    let driver = {
        |v: u32| {
            calls += 1;
            (v, Err::<u32, String>("boom".to_string()))
        }
    }
    .retry(ScheduleBuilder::new(Vec::new()))
    .context(0u32)
    .when(|_e: &String| true)
    .notify(|e: &String, d: u64| notified.push((e.clone(), d)));

    let (_ctx, res) = run_session(driver, &mut slept);

    assert_eq!(calls, 1);
    assert_eq!(res, Err("boom".to_string()));
    assert!(notified.is_empty());
    assert!(slept.is_empty());
}

#[test]
fn test_reject_first_no_suspension() {
    let mut calls = 0;
    let mut notified: Vec<(String, u64)> = Vec::new();
    let mut slept: Vec<u64> = Vec::new();

    let driver = {
        |v: u32| {
            calls += 1;
            (v, Err::<u32, String>("nope".to_string()))
        }
    }
    .retry(ScheduleBuilder::new(vec![2, 3]))
    .context(0u32)
    .when(|_e: &String| false)
    .notify(|e: &String, d: u64| notified.push((e.clone(), d)));

    let (_ctx, res) = run_session(driver, &mut slept);

    assert_eq!(calls, 1);
    assert_eq!(res, Err("nope".to_string()));
    assert!(notified.is_empty());
    assert!(slept.is_empty());
}

#[test]
fn test_success_returns_latest_context() {
    let mut notified: Vec<(String, u64)> = Vec::new();
    let mut slept: Vec<u64> = Vec::new();

    let driver = {
        |mut v: Vec<u64>| {
            let attempt = v.len() as u64 + 1;
            v.push(attempt);
            if attempt < 2 {
                (v, Err::<u64, String>("transient".to_string()))
            } else {
                (v, Ok(attempt * 10))
            }
        }
    }
    .retry(ScheduleBuilder::new(vec![1, 5, 9]))
    .context(Vec::new())
    .when(|_e: &String| true)
    .notify(|e: &String, d: u64| notified.push((e.clone(), d)));

    let (ctx, res) = run_session(driver, &mut slept);

    // exactly two invocations, one suspension, and the context of the
    // successful attempt comes back, not an earlier one
    assert_eq!(res, Ok(20));
    assert_eq!(ctx, vec![1, 2]);
    assert_eq!(slept, vec![1]);
    assert_eq!(notified, vec![("transient".to_string(), 1)]);
}

#[test]
fn test_notify_pairs_in_backoff_order() {
    let mut calls = 0;
    let mut notified: Vec<(String, u64)> = Vec::new();
    let mut slept: Vec<u64> = Vec::new();

    let driver = {
        |v: u8| {
            calls += 1;
            (v, Err::<u8, String>(format!("e{}", calls)))
        }
    }
    .retry(ScheduleBuilder::new(vec![5, 7, 11]))
    .context(0u8)
    .when(|_e: &String| true)
    .notify(|e: &String, d: u64| notified.push((e.clone(), d)));

    let (_ctx, res) = run_session(driver, &mut slept);

    assert_eq!(calls, 4);
    assert_eq!(res, Err("e4".to_string()));
    assert_eq!(
        notified,
        vec![
            ("e1".to_string(), 5),
            ("e2".to_string(), 7),
            ("e3".to_string(), 11),
        ]
    );
    assert_eq!(slept, vec![5, 7, 11]);
}

#[test]
fn test_third_attempt_outcome_is_final() {
    let mut calls = 0;
    let mut notified: Vec<(String, u64)> = Vec::new();
    let mut slept: Vec<u64> = Vec::new();

    let driver = {
        |v: u8| {
            calls += 1;
            (v, Err::<u8, String>(format!("e{}", calls)))
        }
    }
    .retry(ScheduleBuilder::new(vec![1, 1]))
    .context(0u8)
    .when(|_e: &String| true)
    .notify(|e: &String, d: u64| notified.push((e.clone(), d)));

    let (_ctx, res) = run_session(driver, &mut slept);

    assert_eq!(calls, 3);
    assert_eq!(res, Err("e3".to_string()));
    assert_eq!(notified.len(), 2);
    assert_eq!(notified, vec![("e1".to_string(), 1), ("e2".to_string(), 1)]);
}

#[test]
fn test_sleeper_set_before_context() {
    let mut slept: Vec<u64> = Vec::new();

    let driver = {
        |v: u32| {
            if v < 1 {
                (v + 1, Err::<u32, String>("again".to_string()))
            } else {
                (v, Ok(v))
            }
        }
    }
    .retry(ScheduleBuilder::new(vec![4]))
    .sleep(())
    .context(0u32)
    .when(|_e: &String| true)
    .notify(|_e: &String, _d: u64| {});

    let (ctx, res) = run_session(driver, &mut slept);

    assert_eq!(res, Ok(1));
    assert_eq!(ctx, 1);
    assert_eq!(slept, vec![4]);
}

#[test]
fn test_schedule_backoff_yields_in_order() {
    let mut backoff = ScheduleBuilder::new(vec![4, 5]).build();
    assert_eq!(backoff.next(), Some(4));
    assert_eq!(backoff.next(), Some(5));
    assert_eq!(backoff.next(), None);
    assert_eq!(backoff.next(), None);
}
