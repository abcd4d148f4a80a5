use switch_core::clock::Timestamp;
use switch_core::enums::ProcessTrackerStatus;
use switch_core::errors::{ProcessTrackerError, StorageError};
use switch_core::scheduler::consumer::{
    consumer_error_handler, consumer_name, consumer_operations, consumer_result, cycle_result,
    error_handler_result, fetch_consumer_tasks, finish_with_status, new_consumer_name,
    run_executor, start_consumer, startup_delay, valid_business_statuses,
    ConsumerLoop, ConsumerSettings, Cycle, CycleAction, CycleEvent, Executor, ExecutorAction,
    ExecutorEvent, LoopAction, LoopEvent, SchedulerSettings, SignalState,
};
use switch_core::scheduler::process_tracker::{
    ProcessTracker, ProcessTrackerBatch, ProcessTrackerUpdate,
};

fn task(id: &str, business_status: &str) -> ProcessTracker {
    ProcessTracker {
        id: id.to_string(),
        name: Some("PAYMENTS_SYNC".to_string()),
        runner: Some("PAYMENTS_SYNC_WORKFLOW".to_string()),
        retry_count: 0,
        schedule_time: None,
        rule: String::new(),
        tracking_data: serde_json::Value::Null,
        business_status: business_status.to_string(),
        status: ProcessTrackerStatus::Pending,
        created_at: Timestamp { nanos: 1 },
        updated_at: Timestamp { nanos: 1 },
    }
}

fn batch(id: &str, trackers: Vec<ProcessTracker>) -> ProcessTrackerBatch {
    ProcessTrackerBatch {
        id: id.to_string(),
        group_name: "scheduler_group".to_string(),
        stream_name: "SCHEDULER_STREAM".to_string(),
        connection_name: String::new(),
        created_time: Timestamp { nanos: 1 },
        rule: String::new(),
        trackers,
    }
}

fn settings(loop_interval: u64) -> SchedulerSettings {
    SchedulerSettings {
        stream: "SCHEDULER_STREAM".to_string(),
        consumer: ConsumerSettings {
            disabled: false,
            consumer_group: "scheduler_group".to_string(),
        },
        loop_interval,
        graceful_shutdown_interval: 60_000,
    }
}

#[test]
fn only_pending_tasks_are_accepted() {
    assert_eq!(valid_business_statuses(), vec!["Pending"]);
}

#[test]
fn business_status_is_checked_against_the_list() {
    let valid = valid_business_statuses();
    assert!(task("t1", "Pending").is_valid_business_status(&valid));
    assert!(!task("t1", "pending").is_valid_business_status(&valid));
    assert!(!task("t1", "GLOBAL_FAILURE").is_valid_business_status(&valid));
    assert!(!task("t1", "Pending").is_valid_business_status(&Vec::new()));
    assert!(task("t1", "B").is_valid_business_status(&vec!["A", "B"]));
}

#[test]
fn claimed_batches_are_filtered_in_delivery_order() {
    let claim = fetch_consumer_tasks(vec![
        batch("b1", vec![task("t1", "Pending"), task("t2", "Finished")]),
        batch("b2", vec![]),
        batch("b3", vec![task("t3", "Pending"), task("t4", "Pending")]),
    ]);
    let ids: Vec<&str> = claim.tasks.iter().map(|t| t.id.as_str()).collect();
    assert_eq!(ids, vec!["t1", "t3", "t4"]);
    assert_eq!(claim.request.task_ids, vec!["t1", "t3", "t4"]);
    assert_eq!(
        claim.request.update,
        ProcessTrackerUpdate::StatusUpdate {
            status: ProcessTrackerStatus::ProcessStarted,
            business_status: None,
        }
    );
    assert!(claim.tasks.iter().all(|t| t.status == ProcessTrackerStatus::Pending));
}

#[test]
fn nothing_delivered_claims_nothing() {
    let claim = fetch_consumer_tasks(Vec::new());
    assert!(claim.tasks.is_empty());
    assert!(claim.request.task_ids.is_empty());
    assert_eq!(claim.confirm(Ok(0)), Ok(Vec::new()));
}

#[test]
fn confirmed_claim_hands_out_started_tasks() {
    let claim = fetch_consumer_tasks(vec![batch(
        "b1",
        vec![task("t1", "Pending"), task("t2", "Pending")],
    )]);
    let started = claim.confirm(Ok(2)).unwrap();
    assert_eq!(started.len(), 2);
    for (started, id) in started.iter().zip(["t1", "t2"]) {
        assert_eq!(started.status, ProcessTrackerStatus::ProcessStarted);
        assert_eq!(started.id, id);
        assert_eq!(started.business_status, "Pending");
    }
}

#[test]
fn failed_status_update_hands_out_no_task() {
    let claim = fetch_consumer_tasks(vec![batch("b1", vec![task("t1", "Pending")])]);
    assert_eq!(
        claim.confirm(Err(StorageError::DatabaseConnectionError)),
        Err(ProcessTrackerError::ProcessFetchingFailed)
    );
}

#[test]
fn cycle_reports_the_first_failure() {
    assert_eq!(cycle_result(&Vec::new()), Ok(()));
    assert_eq!(
        cycle_result(&vec![
            ProcessTrackerError::UnexpectedFlow,
            ProcessTrackerError::NotImplemented
        ]),
        Err(ProcessTrackerError::UnexpectedFlow)
    );
}

fn started(id: &str) -> ProcessTracker {
    let mut task = task(id, "Pending");
    task.status = ProcessTrackerStatus::ProcessStarted;
    task
}

/// One step of a cycle whose workflows are numbers.
fn step(state: Cycle, event: CycleEvent<u8>) -> (Cycle, CycleAction<u8>) {
    consumer_operations(state, event)
}

fn claiming() -> Cycle {
    let (state, _) = Cycle::start_named::<u8>(&settings(1_000), "consumer_c1".to_string());
    step(state, CycleEvent::GroupCreated(true)).0
}

/// Carries out a cycle on a batch: answers every selection from the list,
/// starts every execution asked for, and notes the actions.
fn carry_out(
    batch: Vec<ProcessTracker>,
    selections: Vec<Result<Option<u8>, ProcessTrackerError>>,
) -> (Vec<String>, Vec<(String, u8)>, Result<(), ProcessTrackerError>) {
    let mut selections = selections.into_iter();
    let mut selected = Vec::new();
    let mut run = Vec::new();
    let (mut state, mut action) = step(claiming(), CycleEvent::Claimed(Ok(batch)));
    loop {
        let event = match action {
            CycleAction::Select { task } => {
                selected.push(task.id);
                CycleEvent::Selected(selections.next().expect("one selection for each task"))
            }
            CycleAction::Run { task, workflow } => {
                run.push((task.id, workflow));
                CycleEvent::Started
            }
            CycleAction::Join => CycleEvent::Joined,
            CycleAction::Done(result) => {
                assert_eq!(state, Cycle::Finished);
                return (selected, run, result);
            }
            other => panic!("unexpected action {:?}", other),
        };
        (state, action) = step(state, event);
    }
}

fn executions(list: &[(&str, u8)]) -> Vec<(String, u8)> {
    list.iter().map(|(id, workflow)| (id.to_string(), *workflow)).collect()
}

#[test]
fn cycle_creates_the_group_then_claims_under_the_consumer_name() {
    let (state, action) = Cycle::start_named::<u8>(&settings(1_000), "consumer_c1".to_string());
    assert_eq!(
        action,
        CycleAction::CreateGroup {
            stream_name: "SCHEDULER_STREAM".to_string(),
            group_name: "scheduler_group".to_string(),
        }
    );
    let (state, action) = step(state, CycleEvent::GroupCreated(true));
    assert_eq!(state, Cycle::Claiming);
    assert_eq!(
        action,
        CycleAction::Claim {
            stream_name: "SCHEDULER_STREAM".to_string(),
            group_name: "scheduler_group".to_string(),
            consumer_name: "consumer_c1".to_string(),
        }
    );
}

#[test]
fn failed_group_creation_is_not_the_result_of_the_cycle() {
    let (state, _) = Cycle::start_named::<u8>(&settings(1_000), "consumer_c1".to_string());
    let (state, action) = step(state, CycleEvent::GroupCreated(false));
    assert_eq!(
        action,
        CycleAction::Claim {
            stream_name: "SCHEDULER_STREAM".to_string(),
            group_name: "scheduler_group".to_string(),
            consumer_name: "consumer_c1".to_string(),
        }
    );
    let (state, action) = step(state, CycleEvent::Claimed(Ok(Vec::new())));
    assert_eq!(state, Cycle::Joining { failures: Vec::new() });
    assert_eq!(action, CycleAction::Join);
    let (state, action) = step(state, CycleEvent::Joined);
    assert_eq!((state, action), (Cycle::Finished, CycleAction::Done(Ok(()))));
}

#[test]
fn cycle_starts_under_a_fresh_consumer_name() {
    let names: Vec<String> = (0..2)
        .map(|_| {
            let (state, _) = Cycle::start::<u8>(&settings(1_000));
            match step(state, CycleEvent::GroupCreated(true)).1 {
                CycleAction::Claim { stream_name, group_name, consumer_name } => {
                    assert_eq!(stream_name, "SCHEDULER_STREAM");
                    assert_eq!(group_name, "scheduler_group");
                    consumer_name
                }
                other => panic!("expected a claim, got {:?}", other),
            }
        })
        .collect();
    assert!(names[0].starts_with("consumer_"));
    assert_eq!(names[0].chars().count(), "consumer_".len() + 36);
    assert_ne!(names[0], names[1]);
}

#[test]
fn failed_claim_ends_the_cycle_with_its_error() {
    let (state, action) = step(
        claiming(),
        CycleEvent::Claimed(Err(ProcessTrackerError::ProcessFetchingFailed)),
    );
    assert_eq!(state, Cycle::Finished);
    assert_eq!(action, CycleAction::Done(Err(ProcessTrackerError::ProcessFetchingFailed)));
}

#[test]
fn every_task_with_a_workflow_is_run_once() {
    let (selected, run, result) = carry_out(
        vec![started("a"), started("b"), started("c")],
        vec![Ok(Some(1)), Ok(Some(2)), Ok(Some(3))],
    );
    assert_eq!(selected, vec!["a", "b", "c"]);
    assert_eq!(run, executions(&[("a", 1), ("b", 2), ("c", 3)]));
    assert_eq!(result, Ok(()));
}

#[test]
fn task_without_a_workflow_fails_alone() {
    let (selected, run, result) = carry_out(
        vec![started("a"), started("b"), started("c")],
        vec![Ok(Some(1)), Ok(None), Ok(Some(3))],
    );
    assert_eq!(selected, vec!["a", "b", "c"]);
    assert_eq!(run, executions(&[("a", 1), ("c", 3)]));
    assert_eq!(result, Err(ProcessTrackerError::UnexpectedFlow));
}

#[test]
fn failing_selector_fails_its_task_alone_and_the_first_failure_is_reported() {
    let (selected, run, result) = carry_out(
        vec![started("a"), started("b"), started("c"), started("d")],
        vec![Err(ProcessTrackerError::NotImplemented), Ok(Some(2)), Ok(None), Ok(Some(4))],
    );
    assert_eq!(selected, vec!["a", "b", "c", "d"]);
    assert_eq!(run, executions(&[("b", 2), ("d", 4)]));
    assert_eq!(result, Err(ProcessTrackerError::NotImplemented));
}

#[test]
fn cycle_steps_through_selecting_and_starting() {
    let (state, action) = step(
        claiming(),
        CycleEvent::Claimed(Ok(vec![started("a"), started("b")])),
    );
    assert_eq!(
        state,
        Cycle::Selecting { current: started("a"), rest: vec![started("b")], failures: Vec::new() }
    );
    assert_eq!(action, CycleAction::Select { task: started("a") });
    let (state, action) = step(state, CycleEvent::Selected(Ok(Some(7))));
    assert_eq!(state, Cycle::Starting { rest: vec![started("b")], failures: Vec::new() });
    assert_eq!(action, CycleAction::Run { task: started("a"), workflow: 7 });
    let (state, action) = step(state, CycleEvent::Started);
    assert_eq!(action, CycleAction::Select { task: started("b") });
    let (state, action) = step(state, CycleEvent::Selected(Ok(None)));
    assert_eq!(state, Cycle::Joining { failures: vec![ProcessTrackerError::UnexpectedFlow] });
    assert_eq!(action, CycleAction::Join);
}

#[test]
fn cycle_event_out_of_turn_is_an_unexpected_flow() {
    let out_of_turn = [
        (claiming(), CycleEvent::Joined),
        (claiming(), CycleEvent::Selected(Ok(Some(1u8)))),
        (Cycle::Joining { failures: Vec::new() }, CycleEvent::Started),
        (Cycle::Starting { rest: Vec::new(), failures: Vec::new() }, CycleEvent::Joined),
        (Cycle::Finished, CycleEvent::Joined),
        (
            Cycle::Selecting { current: started("a"), rest: Vec::new(), failures: Vec::new() },
            CycleEvent::GroupCreated(true),
        ),
    ];
    for (state, event) in out_of_turn {
        assert_eq!(
            step(state, event),
            (Cycle::Finished, CycleAction::Done(Err(ProcessTrackerError::UnexpectedFlow)))
        );
    }
}

#[test]
fn consumer_names_are_prefixed_and_differ() {
    assert_eq!(consumer_name("abc"), "consumer_abc");
    let first = new_consumer_name();
    let second = new_consumer_name();
    assert!(first.starts_with("consumer_"));
    assert_eq!(first.chars().count(), "consumer_".len() + 36);
    for (i, c) in first["consumer_".len()..].chars().enumerate() {
        if [8, 13, 18, 23].contains(&i) {
            assert_eq!(c, '-');
        } else {
            assert!(c.is_ascii_digit() || ('a'..='f').contains(&c));
        }
    }
    assert_ne!(first, second);
    assert_ne!(first, "consumer_");
}

#[test]
fn startup_delay_stays_within_the_loop_interval() {
    for _ in 0..200 {
        assert!(startup_delay(&settings(5)) <= 5);
    }
    assert_eq!(startup_delay(&settings(0)), 0);
    let drawn: Vec<u64> = (0..64).map(|_| startup_delay(&settings(1_000_000))).collect();
    assert!(drawn.iter().any(|d| *d != 1_000_000));
    assert!(drawn.iter().any(|d| *d != drawn[0]));
}

#[test]
fn polling_loop_spawns_a_cycle_on_every_tick() {
    let (state, action) = ConsumerLoop::start(true).unwrap();
    assert_eq!((state, action), (ConsumerLoop::Polling, LoopAction::CheckSignal));
    let (state, action) = start_consumer(state, LoopEvent::Signal(SignalState::Empty));
    assert_eq!((state, action), (ConsumerLoop::AwaitingTick, LoopAction::AwaitTick));
    let (state, action) = start_consumer(state, LoopEvent::Tick { disabled: false });
    assert_eq!((state, action), (ConsumerLoop::Polling, LoopAction::SpawnCycle));
}

#[test]
fn consumer_does_not_start_without_a_signal_handler() {
    assert_eq!(ConsumerLoop::start(false), Err(ProcessTrackerError::ConfigurationError));
}

#[test]
fn disabled_consumer_skips_the_cycle() {
    let (state, action) =
        start_consumer(ConsumerLoop::AwaitingTick, LoopEvent::Tick { disabled: true });
    assert_eq!((state, action), (ConsumerLoop::Polling, LoopAction::CheckSignal));
}

#[test]
fn shutdown_waits_for_three_cycles_in_flight() {
    let (state, action) =
        start_consumer(ConsumerLoop::Polling, LoopEvent::Signal(SignalState::Received));
    assert_eq!(
        (state, action),
        (ConsumerLoop::AwaitingShutdownTick, LoopAction::AwaitShutdownTick)
    );
    let (state, action) = start_consumer(state, LoopEvent::ShutdownTick { active_tasks: 3 });
    assert_eq!((state, action), (ConsumerLoop::Draining, LoopAction::CheckSignal));
    let (state, action) = start_consumer(state, LoopEvent::Signal(SignalState::Disconnected));
    assert_eq!(
        (state, action),
        (ConsumerLoop::AwaitingShutdownTick, LoopAction::AwaitShutdownTick)
    );
    let (state, action) = start_consumer(state, LoopEvent::ShutdownTick { active_tasks: 1 });
    assert_eq!((state, action), (ConsumerLoop::Draining, LoopAction::CheckSignal));
    let (state, _) = start_consumer(state, LoopEvent::Signal(SignalState::Empty));
    assert_eq!(state, ConsumerLoop::AwaitingShutdownTick);
    let (state, action) = start_consumer(state, LoopEvent::ShutdownTick { active_tasks: 0 });
    assert_eq!((state, action), (ConsumerLoop::Stopped, LoopAction::Terminate));
}

#[test]
fn no_cycle_is_spawned_once_shutdown_began() {
    let events = [
        LoopEvent::Tick { disabled: false },
        LoopEvent::Signal(SignalState::Empty),
        LoopEvent::Tick { disabled: false },
        LoopEvent::ShutdownTick { active_tasks: 2 },
        LoopEvent::Tick { disabled: false },
        LoopEvent::Signal(SignalState::Empty),
        LoopEvent::Tick { disabled: false },
    ];
    let (mut state, _) =
        start_consumer(ConsumerLoop::Polling, LoopEvent::Signal(SignalState::Disconnected));
    for event in events {
        let (next, action) = start_consumer(state, event);
        assert_ne!(action, LoopAction::SpawnCycle);
        assert_ne!(next, ConsumerLoop::Polling);
        assert_ne!(next, ConsumerLoop::AwaitingTick);
        state = next;
    }
    assert_ne!(state, ConsumerLoop::Stopped);
}

#[test]
fn stopped_loop_stays_stopped() {
    let (state, action) =
        start_consumer(ConsumerLoop::Stopped, LoopEvent::Tick { disabled: false });
    assert_eq!((state, action), (ConsumerLoop::Stopped, LoopAction::Terminate));
}

#[test]
fn event_out_of_turn_repeats_the_request() {
    assert_eq!(
        start_consumer(ConsumerLoop::Polling, LoopEvent::Tick { disabled: false }),
        (ConsumerLoop::Polling, LoopAction::CheckSignal)
    );
    assert_eq!(
        start_consumer(ConsumerLoop::AwaitingTick, LoopEvent::ShutdownTick { active_tasks: 0 }),
        (ConsumerLoop::AwaitingTick, LoopAction::AwaitTick)
    );
}

#[test]
fn consumer_fails_when_the_signal_task_did_not_end() {
    assert_eq!(consumer_result(true), Ok(()));
    assert_eq!(consumer_result(false), Err(ProcessTrackerError::UnexpectedFlow));
}

#[test]
fn successful_workflow_is_finalized_by_its_success_handler() {
    let process = task("t1", "Pending");
    let (state, action) = Executor::start(process.clone());
    assert_eq!(action, ExecutorAction::Execute { process: process.clone() });
    let (state, action) = run_executor(state, ExecutorEvent::Executed(Ok(())));
    assert_eq!(state, Executor::Succeeding);
    assert_eq!(action, ExecutorAction::HandleSuccess { process });
    let (state, action) = run_executor(state, ExecutorEvent::SuccessHandled);
    assert_eq!((state, action), (Executor::Finished, ExecutorAction::Complete));
}

#[test]
fn failed_workflow_goes_to_its_error_handler() {
    let process = task("t1", "Pending");
    let (state, _) = Executor::start(process.clone());
    let (state, action) =
        run_executor(state, ExecutorEvent::Executed(Err(ProcessTrackerError::NotImplemented)));
    assert_eq!(
        action,
        ExecutorAction::HandleError {
            process: process.clone(),
            error: ProcessTrackerError::NotImplemented
        }
    );
    let (state, action) = run_executor(state, ExecutorEvent::ErrorHandled(Ok(())));
    assert_eq!((state, action), (Executor::Finished, ExecutorAction::Complete));
}

#[test]
fn failed_error_handler_finishes_the_task_as_a_global_failure() {
    let process = task("t1", "Pending");
    let (state, _) = Executor::start(process.clone());
    let (state, _) =
        run_executor(state, ExecutorEvent::Executed(Err(ProcessTrackerError::NotImplemented)));
    let (state, action) = run_executor(
        state,
        ExecutorEvent::ErrorHandled(Err(ProcessTrackerError::ProcessUpdateFailed)),
    );
    assert_eq!(state, Executor::Forcing);
    assert_eq!(
        action,
        ExecutorAction::FinishWithStatus { process, business_status: "GLOBAL_FAILURE" }
    );
    for recorded in [true, false] {
        let (state, action) =
            run_executor(Executor::Forcing, ExecutorEvent::Finalized { recorded });
        assert_eq!((state, action), (Executor::Finished, ExecutorAction::Complete));
    }
    let (state, action) = run_executor(state, ExecutorEvent::Finalized { recorded: false });
    assert_eq!((state, action), (Executor::Finished, ExecutorAction::Complete));
}

#[test]
fn finished_execution_does_nothing_more() {
    for event in [
        ExecutorEvent::Executed(Ok(())),
        ExecutorEvent::SuccessHandled,
        ExecutorEvent::ErrorHandled(Ok(())),
        ExecutorEvent::Finalized { recorded: true },
    ] {
        assert_eq!(
            run_executor(Executor::Finished, event),
            (Executor::Finished, ExecutorAction::Nothing)
        );
    }
}

#[test]
fn event_out_of_turn_leaves_the_execution_where_it_is() {
    let process = task("t1", "Pending");
    let (state, _) = Executor::start(process.clone());
    let (state, action) = run_executor(state, ExecutorEvent::SuccessHandled);
    assert_eq!(state, Executor::Executing { process });
    assert_eq!(action, ExecutorAction::Nothing);
}

#[test]
fn default_error_handler_finishes_the_task_with_a_global_error() {
    let request = consumer_error_handler(task("t9", "Pending"));
    assert_eq!(request.task_ids, vec!["t9"]);
    assert_eq!(
        request.update,
        ProcessTrackerUpdate::StatusUpdate {
            status: ProcessTrackerStatus::Finish,
            business_status: Some("GLOBAL_ERROR".to_string()),
        }
    );
    assert_eq!(error_handler_result(Ok(1)), Ok(()));
    assert_eq!(
        error_handler_result(Err(StorageError::KVError)),
        Err(ProcessTrackerError::ProcessUpdateFailed)
    );
}

#[test]
fn global_failure_finishes_the_task_alone() {
    let request = finish_with_status(task("t7", "Pending"), "GLOBAL_FAILURE");
    assert_eq!(request.task_ids, vec!["t7"]);
    assert_eq!(
        request.update,
        ProcessTrackerUpdate::StatusUpdate {
            status: ProcessTrackerStatus::Finish,
            business_status: Some("GLOBAL_FAILURE".to_string()),
        }
    );
}
