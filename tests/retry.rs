use weblib::retry::RetryRun;

/// Drives a run for `max_attempts` against scripted outcomes, and gives back
/// its outcome with the number of attempts that were made.
fn drive(max_attempts: usize, script: &[Result<&'static str, &'static str>]) -> (Result<&'static str, &'static str>, usize) {
    let mut run = RetryRun::new(max_attempts);
    let mut calls: usize = 0;
    while let Some(n) = run.next_attempt() {
        assert_eq!(n, calls + 1);
        let outcome = script[calls];
        calls += 1;
        run.record(outcome);
    }
    assert_eq!(run.attempts_made(), calls);
    (run.into_outcome(), calls)
}

#[test]
fn always_failing_endpoint_is_tried_three_times() {
    let script = [Err("refused 1"), Err("refused 2"), Err("refused 3"), Err("refused 4")];
    let (outcome, calls) = drive(3, &script);
    assert_eq!(calls, 3);
    assert_eq!(outcome, Err("refused 3"));
}

#[test]
fn success_on_second_attempt_stops_there() {
    let script = [Err("refused"), Ok("body"), Ok("third")];
    let (outcome, calls) = drive(3, &script);
    assert_eq!(calls, 2);
    assert_eq!(outcome, Ok("body"));
}

#[test]
fn first_success_makes_one_call() {
    for max in [0usize, 1, 2, 5, 100] {
        let script = [Ok("body"), Err("never"), Err("never")];
        let (outcome, calls) = drive(max, &script);
        assert_eq!(calls, 1);
        assert_eq!(outcome, Ok("body"));
    }
}

#[test]
fn only_the_last_failure_is_reported() {
    let script = [Err("A"), Err("B")];
    let (outcome, calls) = drive(2, &script);
    assert_eq!(calls, 2);
    assert_eq!(outcome, Err("B"));
}

#[test]
fn zero_or_one_attempt_means_no_retry() {
    let script = [Err("down"), Ok("late")];
    assert_eq!(drive(0, &script), (Err("down"), 1));
    assert_eq!(drive(1, &script), (Err("down"), 1));
}

#[test]
fn calls_stay_between_one_and_max() {
    for max in 1usize..8 {
        let script: Vec<Result<&str, &str>> = (0..10).map(|_| Err("x")).collect();
        let (_, calls) = drive(max, &script);
        assert_eq!(calls, max);
    }
}

#[test]
fn fresh_run_asks_for_attempt_one() {
    let run: RetryRun<u32, u32> = RetryRun::new(4);
    assert_eq!(run.next_attempt(), Some(1));
    assert_eq!(run.attempts_made(), 0);
}

#[test]
fn run_at_the_largest_limit() {
    let mut run: RetryRun<u32, u32> = RetryRun::new(usize::MAX);
    run.record(Err(1));
    assert_eq!(run.next_attempt(), Some(2));
    run.record(Ok(7));
    assert_eq!(run.next_attempt(), None);
    assert_eq!(run.into_outcome(), Ok(7));
}
