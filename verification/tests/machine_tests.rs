use snatch::machine::{
    Action, CallFailure, Event, FailReason, Orchestrator, SnatchOutcome, State,
};
use snatch::task::PurchaseTask;

fn demo_task() -> PurchaseTask {
    PurchaseTask {
        ticket_id: String::from("779952773791"),
        perform_id: String::from("223408885656"),
        sku_id: String::from("5418235189156"),
        quantity: 2,
        sale_time: 1_700_000_000_000,
        priority_window_minutes: 0,
        clock_offset_ms: 0,
        think_time_ms: 30,
        retry_count: 3,
        retry_interval_ms: 100,
        real_names: vec![String::from("alice"), String::from("bob")],
    }
}

fn is_create(a: &Action) -> bool {
    matches!(a, Action::CallCreate { .. })
}

fn is_submit(a: &Action) -> bool {
    matches!(a, Action::CallSubmit { .. })
}

#[test]
fn sold_out_every_create_exhausts_budget() {
    // retry_count = 3: exactly 3 creation attempts, no submission,
    // terminal Failed(AttemptsExhausted).
    let task = demo_task();
    assert!(task.is_valid());
    let mut orch = Orchestrator::new(task);
    let mut creates = 0;
    let mut submits = 0;
    let mut act = orch.start();
    assert!(matches!(act, Action::SleepUntil { .. }));
    act = orch.step(Event::WokeUp);
    loop {
        match act {
            Action::CallCreate { .. } => {
                creates += 1;
                // every creation answers sold out (a transient failure)
                act = orch.step(Event::CallFailed { failure: CallFailure::Transient });
            }
            Action::CallSubmit { .. } => {
                submits += 1;
                panic!("no submission may happen when creation never succeeds");
            }
            Action::SleepFor { .. } => {
                act = orch.step(Event::WokeUp);
            }
            Action::SleepUntil { .. } => {
                act = orch.step(Event::WokeUp);
            }
            Action::Finish { outcome } => {
                assert!(matches!(
                    outcome,
                    SnatchOutcome::Failed { reason: FailReason::AttemptsExhausted }
                ));
                break;
            }
        }
    }
    assert_eq!(creates, 3);
    assert_eq!(submits, 0);
    assert!(orch.is_done());
}

#[test]
fn cancellation_during_think_delay_skips_submission() {
    let task = demo_task();
    let mut orch = Orchestrator::new(task);
    orch.start();
    let act = orch.step(Event::WokeUp);
    assert!(is_create(&act));
    let act = orch.step(Event::CreateOk { order_token: String::from("tok-1") });
    assert!(matches!(act, Action::SleepFor { duration_ms: 30 }));
    // cancellation arrives while the think-time sleep is pending
    let act = orch.step(Event::CancelSignal);
    match act {
        Action::Finish { outcome } => assert!(matches!(outcome, SnatchOutcome::Cancelled)),
        other => panic!("expected the run to finish, got {:?}", action_name(&other)),
    }
    assert!(orch.is_done());
    assert!(matches!(
        orch.state,
        State::Done { outcome: SnatchOutcome::Cancelled }
    ));
}

#[test]
fn happy_path_reaches_success() {
    let task = demo_task();
    let mut orch = Orchestrator::new(task);
    let act = orch.start();
    match act {
        Action::SleepUntil { target_ms } => assert_eq!(target_ms, 1_700_000_000_000),
        _ => panic!("a fresh run sleeps until the window"),
    }
    let act = orch.step(Event::WokeUp);
    match &act {
        Action::CallCreate { ticket_id, perform_id, sku_id, quantity } => {
            assert_eq!(ticket_id, "779952773791");
            assert_eq!(perform_id, "223408885656");
            assert_eq!(sku_id, "5418235189156");
            assert_eq!(*quantity, 2);
        }
        _ => panic!("waking in the window creates an order"),
    }
    let act = orch.step(Event::CreateOk { order_token: String::from("tok-9") });
    assert!(matches!(act, Action::SleepFor { duration_ms: 30 }));
    let act = orch.step(Event::WokeUp);
    match &act {
        Action::CallSubmit { order_token, real_names } => {
            assert_eq!(order_token, "tok-9");
            assert_eq!(real_names, &vec![String::from("alice"), String::from("bob")]);
        }
        _ => panic!("after the think delay the order is submitted"),
    }
    let act = orch.step(Event::SubmitOk { order_ref: String::from("order-42") });
    match act {
        Action::Finish { outcome } => match outcome {
            SnatchOutcome::Success { order_ref } => assert_eq!(order_ref, "order-42"),
            _ => panic!("a submitted order succeeds"),
        },
        _ => panic!("submission success finishes the run"),
    }
    assert!(orch.is_done());
}

#[test]
fn failed_submission_discards_token_and_fresh_one_is_created() {
    let task = demo_task();
    let mut orch = Orchestrator::new(task);
    orch.start();
    orch.step(Event::WokeUp);
    orch.step(Event::CreateOk { order_token: String::from("stale") });
    let act = orch.step(Event::WokeUp);
    assert!(is_submit(&act));
    // the submission fails; the stale token must not be seen again
    let act = orch.step(Event::CallFailed { failure: CallFailure::Transient });
    assert!(matches!(act, Action::SleepFor { duration_ms: 100 }));
    assert!(matches!(orch.state, State::Retrying));
    let act = orch.step(Event::WokeUp);
    assert!(is_create(&act));
    let act = orch.step(Event::CreateOk { order_token: String::from("fresh") });
    assert!(matches!(act, Action::SleepFor { .. }));
    let act = orch.step(Event::WokeUp);
    match &act {
        Action::CallSubmit { order_token, .. } => assert_eq!(order_token, "fresh"),
        _ => panic!("submission resumes with the fresh token only"),
    }
}

#[test]
fn malformed_request_fails_fatally_with_budget_left() {
    let task = demo_task();
    let mut orch = Orchestrator::new(task);
    orch.start();
    orch.step(Event::WokeUp);
    let act = orch.step(Event::CallFailed { failure: CallFailure::Fatal });
    match act {
        Action::Finish { outcome } => assert!(matches!(
            outcome,
            SnatchOutcome::Failed { reason: FailReason::Fatal }
        )),
        _ => panic!("a malformed request ends the run at once"),
    }
    // the budget was not consumed: the failure bypassed it
    assert_eq!(orch.attempts_left, 3);
}

#[test]
fn stale_session_after_rotation_fails_as_session_invalid() {
    let task = demo_task();
    let mut orch = Orchestrator::new(task);
    orch.start();
    orch.step(Event::WokeUp);
    let act = orch.step(Event::CallFailed { failure: CallFailure::SessionInvalid });
    match act {
        Action::Finish { outcome } => assert!(matches!(
            outcome,
            SnatchOutcome::Failed { reason: FailReason::SessionInvalid }
        )),
        _ => panic!("an invalid session ends the run at once"),
    }
}

#[test]
fn cancellation_during_initial_wait() {
    let task = demo_task();
    let mut orch = Orchestrator::new(task);
    orch.start();
    let act = orch.step(Event::CancelSignal);
    match act {
        Action::Finish { outcome } => assert!(matches!(outcome, SnatchOutcome::Cancelled)),
        _ => panic!("cancellation during the window wait finishes the run"),
    }
}

#[test]
fn cancellation_during_retry_sleep() {
    let task = demo_task();
    let mut orch = Orchestrator::new(task);
    orch.start();
    orch.step(Event::WokeUp);
    orch.step(Event::CallFailed { failure: CallFailure::Transient });
    let act = orch.step(Event::CancelSignal);
    match act {
        Action::Finish { outcome } => assert!(matches!(outcome, SnatchOutcome::Cancelled)),
        _ => panic!("cancellation during the retry sleep finishes the run"),
    }
}

fn action_name(a: &Action) -> &'static str {
    match a {
        Action::SleepUntil { .. } => "SleepUntil",
        Action::SleepFor { .. } => "SleepFor",
        Action::CallCreate { .. } => "CallCreate",
        Action::CallSubmit { .. } => "CallSubmit",
        Action::Finish { .. } => "Finish",
    }
}
