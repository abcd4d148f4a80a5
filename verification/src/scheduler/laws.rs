//! What holds of the scheduler whatever happens outside.

use crate::enums::ProcessTrackerStatus;
use crate::errors::ProcessTrackerError;
use crate::scheduler::consumer::{
    accepted_tasks, delivered_tasks, result_of, started_tasks, ConsumerLoop, Cycle, CycleAction,
    CycleEventView, CycleView, Executor, ExecutorAction, ExecutorEvent, LoopAction, LoopEvent,
    SchedulerSettings, SignalState, ValidBusinessStatus,
};
use crate::scheduler::process_tracker::{ProcessTracker, ProcessTrackerBatch};
use crate::search::{all, Criterion};
use vstd::prelude::*;

verus! {

/// Where the consumer loop stands after a sequence of events.
pub open spec fn loop_after(state: ConsumerLoop, events: Seq<LoopEvent>) -> ConsumerLoop
    decreases events.len(),
{
    if events.len() == 0 {
        state
    } else {
        loop_after(state, events.drop_last()).stepped(events.last()).0
    }
}

/// What the consumer loop does in answer to the event at position `i` of a
/// sequence of events.
pub open spec fn loop_action(state: ConsumerLoop, events: Seq<LoopEvent>, i: int) -> LoopAction
    recommends
        0 <= i < events.len(),
{
    loop_after(state, events.take(i)).stepped(events[i]).1
}

/// Graceful shutdown, first part. A termination signal, or the loss of the
/// side that sends it, puts the polling loop into shutdown.
pub proof fn law_termination_signal_starts_shutdown(signal: SignalState)
    requires
        signal != SignalState::Empty,
    ensures
        ConsumerLoop::Polling.stepped(LoopEvent::Signal(signal)).0.shutting_down(),
        ConsumerLoop::Polling.stepped(LoopEvent::Signal(signal)).1 == LoopAction::AwaitShutdownTick,
{
}

/// Graceful shutdown, second part. Once the loop is shutting down it stays
/// so whatever happens, and never starts a polling cycle again: no new
/// batch is claimed.
pub proof fn law_no_cycle_after_termination_signal(state: ConsumerLoop, events: Seq<LoopEvent>)
    requires
        state.shutting_down(),
    ensures
        loop_after(state, events).shutting_down(),
        forall|i: int|
            0 <= i < events.len() ==> #[trigger] loop_action(state, events, i)
                != LoopAction::SpawnCycle,
    decreases events.len(),
{
    if events.len() > 0 {
        law_no_cycle_after_termination_signal(state, events.drop_last());
        assert forall|i: int| 0 <= i < events.len() implies #[trigger] loop_action(
            state,
            events,
            i,
        ) != LoopAction::SpawnCycle by {
            law_no_cycle_after_termination_signal(state, events.take(i));
        }
    }
}

/// Graceful shutdown, third part. The loop ends only on a tick of the
/// shutdown interval at which no cycle is in flight; while cycles are in
/// flight it goes on waiting.
pub proof fn law_loop_ends_only_when_nothing_is_in_flight(state: ConsumerLoop, event: LoopEvent)
    requires
        state != ConsumerLoop::Stopped,
    ensures
        state.stepped(event).0 == ConsumerLoop::Stopped <==> state
            == ConsumerLoop::AwaitingShutdownTick && event == (LoopEvent::ShutdownTick {
            active_tasks: 0,
        }),
        state.stepped(event).1 == LoopAction::Terminate <==> state.stepped(event).0
            == ConsumerLoop::Stopped,
{
}

/// No two tasks of a list have the same identifier.
pub open spec fn distinct_ids(tasks: Seq<ProcessTracker>) -> bool {
    forall|i: int, j: int|
        0 <= i < j < tasks.len() ==> (#[trigger] tasks[i]).id@ != (#[trigger] tasks[j]).id@
}

proof fn lemma_all_members<T, C: Criterion<T>>(s: Seq<T>, c: C)
    ensures
        forall|x: T| #[trigger] all(s, c).contains(x) ==> s.contains(x),
    decreases s.len(),
{
    if s.len() > 0 {
        lemma_all_members(s.drop_last(), c);
        assert forall|x: T| #[trigger] all(s, c).contains(x) implies s.contains(x) by {
            let k = choose|k: int| 0 <= k < all(s, c).len() && all(s, c)[k] == x;
            if c.accepts(s.last()) && k == all(s.drop_last(), c).len() {
                assert(s[s.len() - 1] == x);
            } else {
                assert(all(s.drop_last(), c)[k] == x);
                assert(all(s.drop_last(), c).contains(x));
                let m = choose|m: int| 0 <= m < s.drop_last().len() && s.drop_last()[m] == x;
                assert(s[m] == x);
            }
        }
    }
}

proof fn lemma_all_keeps_distinct_ids(tasks: Seq<ProcessTracker>)
    requires
        distinct_ids(tasks),
    ensures
        distinct_ids(all(tasks, ValidBusinessStatus)),
    decreases tasks.len(),
{
    if tasks.len() > 0 {
        let front = tasks.drop_last();
        assert(distinct_ids(front)) by {
            assert forall|i: int, j: int| 0 <= i < j < front.len() implies (#[trigger] front[i]).id@
                != (#[trigger] front[j]).id@ by {
                assert(front[i] == tasks[i]);
                assert(front[j] == tasks[j]);
            }
        }
        lemma_all_keeps_distinct_ids(front);
        lemma_all_members(front, ValidBusinessStatus);
        let kept = all(front, ValidBusinessStatus);
        let result = all(tasks, ValidBusinessStatus);
        assert forall|i: int, j: int| 0 <= i < j < result.len() implies (#[trigger] result[i]).id@
            != (#[trigger] result[j]).id@ by {
            if j < kept.len() {
                assert(result[i] == kept[i]);
                assert(result[j] == kept[j]);
            } else {
                assert(result[j] == tasks.last());
                assert(result[i] == kept[i]);
                assert(kept.contains(kept[i]));
                let m = choose|m: int| 0 <= m < front.len() && front[m] == kept[i];
                assert(tasks[m] == kept[i]);
                assert(tasks[tasks.len() - 1] == tasks.last());
            }
        }
    }
}

proof fn lemma_accepted_are_delivered(batches: Seq<ProcessTrackerBatch>)
    ensures
        forall|x: ProcessTracker| #[trigger]
            accepted_tasks(batches).contains(x) ==> delivered_tasks(batches).contains(x),
    decreases batches.len(),
{
    if batches.len() > 0 {
        lemma_accepted_are_delivered(batches.drop_last());
        lemma_all_members(batches.last().trackers@, ValidBusinessStatus);
        let a = accepted_tasks(batches.drop_last());
        let b = all(batches.last().trackers@, ValidBusinessStatus);
        let da = delivered_tasks(batches.drop_last());
        let db = batches.last().trackers@;
        assert forall|x: ProcessTracker| #[trigger]
            accepted_tasks(batches).contains(x) implies delivered_tasks(batches).contains(x) by {
            let k = choose|k: int| 0 <= k < (a + b).len() && (a + b)[k] == x;
            if k < a.len() {
                assert(a[k] == x);
                assert(a.contains(x));
                let m = choose|m: int| 0 <= m < da.len() && da[m] == x;
                assert((da + db)[m] == x);
            } else {
                assert(b[k - a.len()] == x);
                assert(b.contains(x));
                let m = choose|m: int| 0 <= m < db.len() && db[m] == x;
                assert((da + db)[da.len() + m] == x);
            }
        }
    }
}

/// Task exclusivity, at the claim. Where the task queue delivers every task
/// once, so that no two delivered tasks have the same identifier, no two
/// accepted tasks have the same identifier: no task is handed to two
/// executions of one cycle.
pub proof fn law_accepted_tasks_are_distinct(batches: Seq<ProcessTrackerBatch>)
    requires
        distinct_ids(delivered_tasks(batches)),
    ensures
        distinct_ids(accepted_tasks(batches)),
    decreases batches.len(),
{
    if batches.len() > 0 {
        let da = delivered_tasks(batches.drop_last());
        let db = batches.last().trackers@;
        let a = accepted_tasks(batches.drop_last());
        let b = all(db, ValidBusinessStatus);
        assert(distinct_ids(da)) by {
            assert forall|i: int, j: int| 0 <= i < j < da.len() implies (#[trigger] da[i]).id@ != (
            #[trigger] da[j]).id@ by {
                assert((da + db)[i] == da[i]);
                assert((da + db)[j] == da[j]);
            }
        }
        assert(distinct_ids(db)) by {
            assert forall|i: int, j: int| 0 <= i < j < db.len() implies (#[trigger] db[i]).id@ != (
            #[trigger] db[j]).id@ by {
                assert((da + db)[da.len() + i] == db[i]);
                assert((da + db)[da.len() + j] == db[j]);
            }
        }
        law_accepted_tasks_are_distinct(batches.drop_last());
        lemma_all_keeps_distinct_ids(db);
        lemma_accepted_are_delivered(batches.drop_last());
        lemma_all_members(db, ValidBusinessStatus);
        let result = accepted_tasks(batches);
        assert forall|i: int, j: int| 0 <= i < j < result.len() implies (#[trigger] result[i]).id@
            != (#[trigger] result[j]).id@ by {
            if j < a.len() {
                assert(result[i] == a[i]);
                assert(result[j] == a[j]);
            } else if i >= a.len() {
                assert(result[i] == b[i - a.len()]);
                assert(result[j] == b[j - a.len()]);
            } else {
                assert(result[i] == a[i]);
                assert(result[j] == b[j - a.len()]);
                assert(a.contains(a[i]));
                assert(b.contains(b[j - a.len()]));
                let m = choose|m: int| 0 <= m < da.len() && da[m] == a[i];
                let n = choose|n: int| 0 <= n < db.len() && db[n] == b[j - a.len()];
                assert((da + db)[m] == da[m]);
                assert((da + db)[da.len() + n] == db[n]);
            }
        }
    }
}

/// Task exclusivity, at the start. Every task handed to execution is marked
/// as started, and is otherwise the task that was accepted.
pub proof fn law_executed_tasks_are_started(tasks: Seq<ProcessTracker>, i: int)
    requires
        0 <= i < tasks.len(),
    ensures
        started_tasks(tasks).len() == tasks.len(),
        started_tasks(tasks)[i].status == ProcessTrackerStatus::ProcessStarted,
        started_tasks(tasks)[i].id == tasks[i].id,
        started_tasks(tasks)[i] == tasks[i].started(),
{
}

impl Executor {
    /// Whether an event settles the task in this state: the workflow
    /// succeeded, so that its success handler finalizes the task; or the
    /// error handler dealt with the failure; or the error handler failed, so
    /// that the task is finished as a global failure.
    pub open spec fn settles(self, event: ExecutorEvent) -> bool {
        match (self, event) {
            (Executor::Executing { .. }, ExecutorEvent::Executed(Ok(_))) => true,
            (Executor::Recovering { .. }, ExecutorEvent::ErrorHandled(_)) => true,
            _ => false,
        }
    }

    /// Whether the task has been settled when the execution stands here.
    pub open spec fn settled(self) -> bool {
        self is Succeeding || self is Forcing || self is Finished
    }
}

/// Where the execution of a task stands after a sequence of events.
pub open spec fn executor_after(state: Executor, events: Seq<ExecutorEvent>) -> Executor
    decreases events.len(),
{
    if events.len() == 0 {
        state
    } else {
        executor_after(state, events.drop_last()).stepped(events.last()).0
    }
}

/// How many of a sequence of events settled the task.
pub open spec fn settlements(state: Executor, events: Seq<ExecutorEvent>) -> nat
    decreases events.len(),
{
    if events.len() == 0 {
        0
    } else {
        let before = settlements(state, events.drop_last());
        if executor_after(state, events.drop_last()).settles(events.last()) {
            before + 1
        } else {
            before
        }
    }
}

/// Task exclusivity, at the end. Whatever happens to a task that is being
/// executed, the task is settled at most once; and when the execution is
/// over it has been settled exactly once: by the success handler, by the
/// error handler, or as a global failure.
pub proof fn law_task_is_settled_exactly_once(process: ProcessTracker, events: Seq<ExecutorEvent>)
    ensures
        ({
            let start = Executor::begun(process).0;
            let end = executor_after(start, events);
            &&& settlements(start, events) <= 1
            &&& end.settled() <==> settlements(start, events) == 1
            &&& end is Finished ==> settlements(start, events) == 1
        }),
    decreases events.len(),
{
    if events.len() > 0 {
        law_task_is_settled_exactly_once(process, events.drop_last());
    }
}

/// Once the execution of a task is over, nothing more is done with the
/// task, whatever is reported.
pub proof fn law_finished_execution_does_nothing(event: ExecutorEvent)
    ensures
        Executor::Finished.stepped(event) == (Executor::Finished, ExecutorAction::Nothing),
{
}

/// The creation of the consumer group does not decide the cycle. Whether
/// or not the group could be created, the cycle goes on to claim tasks, on
/// the stream and for the group of the settings, under the consumer's name;
/// the outcome of the creation is not the cycle's result.
pub proof fn law_claim_follows_group_creation<W>(
    settings: SchedulerSettings,
    consumer_name: String,
    created: bool,
)
    ensures
        Cycle::begun::<W>(settings, consumer_name).0.stepped::<W>(
            CycleEventView::GroupCreated(created),
        ) == (
            CycleView::Claiming,
            CycleAction::<W>::Claim {
                stream_name: settings.stream,
                group_name: settings.consumer.consumer_group,
                consumer_name,
            },
        ),
{
}

/// What the workflow selector said for each task of a batch, in the order of
/// the tasks: its workflow, nothing if it knew none, or its error.
pub type Selections<W> = Seq<Result<Option<W>, ProcessTrackerError>>;

/// The tasks of a batch for which the selector gave a workflow, each with
/// that workflow, in the order of the tasks.
pub open spec fn with_workflow<W>(tasks: Seq<ProcessTracker>, selections: Selections<W>) -> Seq<
    (ProcessTracker, W),
>
    decreases tasks.len(),
{
    if tasks.len() == 0 || selections.len() == 0 {
        Seq::empty()
    } else {
        let later = with_workflow(tasks.drop_first(), selections.drop_first());
        match selections[0] {
            Ok(Some(workflow)) => seq![(tasks[0], workflow)] + later,
            _ => later,
        }
    }
}

/// The errors of the tasks of a batch that could not be handed to a
/// workflow, in the order of the tasks: an unexpected flow where the
/// selector knew no workflow, and the selector's error where it failed.
pub open spec fn failures_of<W>(selections: Selections<W>) -> Seq<ProcessTrackerError>
    decreases selections.len(),
{
    if selections.len() == 0 {
        Seq::empty()
    } else {
        let later = failures_of(selections.drop_first());
        match selections[0] {
            Ok(Some(_)) => later,
            Ok(None) => seq![ProcessTrackerError::UnexpectedFlow] + later,
            Err(e) => seq![e] + later,
        }
    }
}

/// The course of a cycle from a state in which the selector is asked, when
/// every action is carried out and answered in turn: the selector answers
/// with the selections, one after the other, and every execution that the
/// cycle asks for is started. Gives the executions that the cycle asked
/// for, each a task with its workflow, in the order in which it asked for
/// them, and the state the cycle is in after the last selection.
pub open spec fn course<W>(state: CycleView, selections: Selections<W>) -> (
    Seq<(ProcessTracker, W)>,
    CycleView,
)
    decreases selections.len(),
{
    if selections.len() == 0 {
        (Seq::empty(), state)
    } else {
        let (selected, action) = state.stepped(CycleEventView::Selected(selections[0]));
        match action {
            CycleAction::Run { task, workflow } => {
                let started = selected.stepped(CycleEventView::<W>::Started).0;
                let (run, end) = course(started, selections.drop_first());
                (seq![(task, workflow)] + run, end)
            },
            _ => course(selected, selections.drop_first()),
        }
    }
}

proof fn lemma_course<W>(
    current: ProcessTracker,
    rest: Seq<ProcessTracker>,
    failures: Seq<ProcessTrackerError>,
    selections: Selections<W>,
)
    requires
        selections.len() == rest.len() + 1,
    ensures
        course(CycleView::Selecting { current, rest, failures }, selections) == (
            with_workflow(seq![current] + rest, selections),
            CycleView::Joining { failures: failures + failures_of(selections) },
        ),
    decreases selections.len(),
{
    let tasks = seq![current] + rest;
    let state = CycleView::Selecting { current, rest, failures };
    let later = selections.drop_first();
    assert(tasks.drop_first() =~= rest);
    assert(tasks[0] == current);
    let recorded = match selections[0] {
        Ok(Some(_)) => failures,
        Ok(None) => failures.push(ProcessTrackerError::UnexpectedFlow),
        Err(e) => failures.push(e),
    };
    assert(failures + failures_of(selections) =~= recorded + failures_of(later));
    // Where the cycle stands once the task is dealt with.
    let (selected, action) = state.stepped(CycleEventView::Selected(selections[0]));
    let resumed = if selections[0] matches Ok(Some(_)) {
        selected.stepped(CycleEventView::<W>::Started).0
    } else {
        selected
    };
    assert(resumed == CycleView::next::<W>(rest, recorded).0);
    assert(course(state, selections) == match selections[0] {
        Ok(Some(workflow)) => (
            seq![(current, workflow)] + course(resumed, later).0,
            course(resumed, later).1,
        ),
        _ => course(resumed, later),
    });
    if rest.len() == 0 {
        assert(later =~= Seq::empty());
        assert(recorded + failures_of(later) =~= recorded);
        assert(course(resumed, later) == (Seq::<(ProcessTracker, W)>::empty(), resumed));
        assert(with_workflow(rest, later) =~= Seq::empty());
    } else {
        assert(seq![rest[0]] + rest.drop_first() =~= rest);
        lemma_course(rest[0], rest.drop_first(), recorded, later);
        assert(course(resumed, later) == (
            with_workflow(rest, later),
            CycleView::Joining { failures: recorded + failures_of(later) },
        ));
    }
    assert(with_workflow(tasks, selections) == match selections[0] {
        Ok(Some(workflow)) => seq![(current, workflow)] + with_workflow(rest, later),
        _ => with_workflow(rest, later),
    });
}

/// Every claimed task with a workflow is run, once, and no other. When
/// every action of a cycle is carried out and answered in turn, then for
/// every batch that was claimed and whatever the selector says for each of
/// its tasks: the executions that the cycle asks for are exactly those of
/// the tasks for which the selector gave a workflow, each on that workflow,
/// in the order of the tasks, each once; a task without a workflow, or for
/// which the selector failed, stops none of the tasks after it; after the
/// last task the cycle waits for the executions, and then ends with the
/// first error among the tasks, or with success if there is none.
pub proof fn law_cycle_runs_the_tasks_with_a_workflow<W>(
    tasks: Seq<ProcessTracker>,
    selections: Selections<W>,
)
    requires
        selections.len() == tasks.len(),
    ensures
        ({
            let claimed = CycleView::Claiming.stepped(CycleEventView::<W>::Claimed(Ok(tasks))).0;
            let (run, end) = course(claimed, selections);
            &&& run == with_workflow(tasks, selections)
            &&& end == CycleView::Joining { failures: failures_of(selections) }
            &&& end.stepped(CycleEventView::<W>::Joined) == (
                CycleView::Finished,
                CycleAction::<W>::Done(result_of(failures_of(selections))),
            )
        }),
{
    if tasks.len() > 0 {
        lemma_course(tasks[0], tasks.drop_first(), Seq::empty(), selections);
        assert(seq![tasks[0]] + tasks.drop_first() =~= tasks);
        assert(Seq::<ProcessTrackerError>::empty() + failures_of(selections) =~= failures_of(
            selections,
        ));
    } else {
        assert(selections =~= Seq::empty());
    }
}

/// A cycle succeeds only after it has waited for its executions. The only
/// step that ends a cycle with success is the one taken when every
/// execution that was started has ended, and no task of the batch failed to
/// get a workflow.
pub proof fn law_cycle_succeeds_only_after_joining<W>(state: CycleView, event: CycleEventView<W>)
    ensures
        state.stepped(event).1 == CycleAction::<W>::Done(Ok(())) <==> state == (CycleView::Joining {
            failures: Seq::empty(),
        }) && event == CycleEventView::<W>::Joined,
{
    if state.stepped(event).1 == CycleAction::<W>::Done(Ok(())) {
        match state {
            CycleView::Joining { failures } => {
                assert(failures =~= Seq::empty());
            },
            _ => {},
        }
    }
}

/// An execution is asked for only for the task that the selector was asked
/// about, and only on the workflow that the selector gave for it.
pub proof fn law_only_selected_tasks_are_run<W>(
    state: CycleView,
    event: CycleEventView<W>,
    task: ProcessTracker,
    workflow: W,
)
    requires
        state.stepped(event).1 == (CycleAction::Run { task, workflow }),
    ensures
        state matches CycleView::Selecting { current, .. } && current == task,
        event == CycleEventView::Selected(Ok(Some(workflow))),
{
}

/// The tasks of a list of executions.
pub open spec fn tasks_of<W>(run: Seq<(ProcessTracker, W)>) -> Seq<ProcessTracker> {
    run.map_values(|execution: (ProcessTracker, W)| execution.0)
}

proof fn lemma_with_workflow_members<W>(tasks: Seq<ProcessTracker>, selections: Selections<W>)
    ensures
        forall|k: int|
            0 <= k < with_workflow(tasks, selections).len() ==> tasks.contains(
                (#[trigger] with_workflow(tasks, selections)[k]).0,
            ),
    decreases tasks.len(),
{
    if tasks.len() > 0 && selections.len() > 0 {
        lemma_with_workflow_members(tasks.drop_first(), selections.drop_first());
        let behind = tasks.drop_first();
        let later = with_workflow(behind, selections.drop_first());
        let run = with_workflow(tasks, selections);
        assert forall|k: int| 0 <= k < run.len() implies tasks.contains((#[trigger] run[k]).0) by {
            let shifted = if selections[0] matches Ok(Some(_)) {
                k - 1
            } else {
                k
            };
            if shifted < 0 {
                assert(tasks[0] == run[k].0);
            } else {
                assert(run[k] == later[shifted]);
                assert(behind.contains(later[shifted].0));
                let m = choose|m: int| 0 <= m < behind.len() && behind[m] == later[shifted].0;
                assert(tasks[m + 1] == behind[m]);
            }
        }
    }
}

/// Task exclusivity, at the dispatch. Where no two tasks of a claimed batch
/// have the same identifier, no two of the executions that a cycle asks for
/// have tasks with the same identifier: no task is handed to two
/// executions.
pub proof fn law_no_task_is_run_twice<W>(tasks: Seq<ProcessTracker>, selections: Selections<W>)
    requires
        distinct_ids(tasks),
    ensures
        distinct_ids(tasks_of(with_workflow(tasks, selections))),
    decreases tasks.len(),
{
    let run = with_workflow(tasks, selections);
    if tasks.len() > 0 && selections.len() > 0 {
        let behind = tasks.drop_first();
        assert(distinct_ids(behind)) by {
            assert forall|i: int, j: int| 0 <= i < j < behind.len() implies (
            #[trigger] behind[i]).id@ != (#[trigger] behind[j]).id@ by {
                assert(behind[i] == tasks[i + 1]);
                assert(behind[j] == tasks[j + 1]);
            }
        }
        law_no_task_is_run_twice(behind, selections.drop_first());
        lemma_with_workflow_members(behind, selections.drop_first());
        let later = with_workflow(behind, selections.drop_first());
        assert forall|i: int, j: int| 0 <= i < j < tasks_of(run).len() implies (
        #[trigger] tasks_of(run)[i]).id@ != (#[trigger] tasks_of(run)[j]).id@ by {
            if selections[0] matches Ok(Some(_)) {
                assert(run[j] == later[j - 1]);
                if i == 0 {
                    assert(run[0].0 == tasks[0]);
                    assert(behind.contains(later[j - 1].0));
                    let m = choose|m: int| 0 <= m < behind.len() && behind[m] == later[j - 1].0;
                    assert(tasks[m + 1] == behind[m]);
                } else {
                    assert(run[i] == later[i - 1]);
                    assert(tasks_of(later)[i - 1] == later[i - 1].0);
                    assert(tasks_of(later)[j - 1] == later[j - 1].0);
                }
            } else {
                assert(tasks_of(later)[i] == later[i].0);
                assert(tasks_of(later)[j] == later[j].0);
            }
        }
    }
}

} // verus!
