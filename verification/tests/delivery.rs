use thermal_print::delivery::{result, start, step, Action, Attempt, Channel, Delivery};

/// Follows the actions as a caller does, with what each channel reports
/// given beforehand; returns the writes made and what the job returned.
fn run(direct: Result<(), &str>, spooler: Result<(), &str>) -> (Vec<Channel>, Result<(), String>) {
    let mut writes = Vec::new();
    let (mut state, mut action) = start();
    for _ in 0..10 {
        let report = match action {
            Action::Finish => break,
            Action::Write(channel) => {
                writes.push(channel);
                match channel {
                    Channel::Direct => direct,
                    Channel::Spooler => spooler,
                }
            }
        };
        let attempt = match report {
            Ok(()) => Attempt::Succeeded,
            Err(text) => Attempt::Failed(text.to_string()),
        };
        let next = step(state, attempt);
        state = next.0;
        action = next.1;
    }
    assert_eq!(action, Action::Finish);
    let outcome = result(state).expect("the job is over");
    (writes, outcome.map_err(|e| e.message))
}

#[test]
fn direct_success_ends_the_job() {
    let (writes, outcome) = run(Ok(()), Err("never asked"));
    assert_eq!(writes, vec![Channel::Direct]);
    assert_eq!(outcome, Ok(()));
}

#[test]
fn direct_failure_leads_to_the_spooler_once() {
    let (writes, outcome) = run(Err("no device"), Ok(()));
    assert_eq!(writes, vec![Channel::Direct, Channel::Spooler]);
    assert_eq!(outcome, Ok(()));
}

#[test]
fn both_failing_returns_the_spooler_error() {
    let (writes, outcome) = run(Err("no device"), Err("lp failed"));
    assert_eq!(writes, vec![Channel::Direct, Channel::Spooler]);
    assert_eq!(outcome, Err("lp failed".to_string()));
}

#[test]
fn job_starts_with_the_direct_device() {
    let (state, action) = start();
    assert!(matches!(state, Delivery::AwaitingDirect));
    assert_eq!(action, Action::Write(Channel::Direct));
    assert!(result(state).is_none());
}

#[test]
fn job_that_is_over_stays_over() {
    let (state, _) = start();
    let (state, action) = step(state, Attempt::Succeeded);
    assert!(matches!(state, Delivery::Delivered(Channel::Direct)));
    assert_eq!(action, Action::Finish);
    let (state, action) = step(state, Attempt::Failed("late".to_string()));
    assert!(matches!(state, Delivery::Delivered(Channel::Direct)));
    assert_eq!(action, Action::Finish);
    assert!(matches!(result(state), Some(Ok(()))));

    let (state, _) = start();
    let (state, _) = step(state, Attempt::Failed("a".to_string()));
    assert!(result(Delivery::AwaitingSpooler).is_none());
    let (state, _) = step(state, Attempt::Failed("b".to_string()));
    let (state, action) = step(state, Attempt::Succeeded);
    assert_eq!(action, Action::Finish);
    match result(state) {
        Some(Err(e)) => assert_eq!(e.message, "b"),
        _ => panic!("the job failed"),
    }
}
