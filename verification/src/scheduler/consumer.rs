//! The consumer side of the scheduler.
//!
//! A consumer wakes at a fixed interval and runs one polling cycle: it
//! claims a batch of tasks from the task queue under a name of its own,
//! accepts those whose business status allows it, marks them as started in
//! the durable store, and hands each to the workflow that its name selects.
//! On a termination signal it claims nothing more and stops once no cycle
//! is in flight.
//!
//! Waiting, the queue, the durable store and the workflows are outside;
//! what is here are the decisions between them.

use crate::enums::ProcessTrackerStatus;
use crate::errors::{ProcessTrackerError, StorageError};
use crate::scheduler::process_tracker::{
    status_names, ProcessTracker, ProcessTrackerBatch, ProcessTrackerUpdate,
    ProcessTrackerUpdateView,
};
use crate::search::{all, Criterion};
use crate::text::{prefixed, with_prefix};
use vstd::prelude::*;
use vstd::string::StringExecFns;

verus! {

/// The business statuses a claimed task may carry to be accepted.
pub open spec fn valid_business_status_names() -> Seq<Seq<char>> {
    seq!["Pending"@]
}

/// The allow-list of business statuses: a claimed task is executed only if
/// its business status is on it.
pub fn valid_business_statuses() -> (r: Vec<&'static str>)
    ensures
        status_names(r@) == valid_business_status_names(),
{
    let r = vec!["Pending"];
    assert(status_names(r@) =~= valid_business_status_names());
    r
}

/// Settings of the consumer loop.
#[derive(Debug, PartialEq)]
pub struct ConsumerSettings {
    /// Whether polling cycles are switched off.
    pub disabled: bool,
    pub consumer_group: String,
}

/// Settings of the scheduler.
#[derive(Debug, PartialEq)]
pub struct SchedulerSettings {
    pub stream: String,
    pub consumer: ConsumerSettings,
    /// Milliseconds between two polling cycles.
    pub loop_interval: u64,
    /// Milliseconds between two looks at the cycles in flight while the
    /// consumer shuts down.
    pub graceful_shutdown_interval: u64,
}

/// Draws a number from `0..=upper` with `rand::Rng::gen_range` on the
/// thread's generator. All that is claimed is the range.
#[verifier::external_body]
fn random_up_to(upper: u64) -> (r: u64)
    ensures
        r <= upper,
{
    rand::Rng::gen_range(&mut rand::thread_rng(), 0..=upper)
}

/// The time a consumer waits before its first cycle, in milliseconds: a
/// random part of the loop interval, so that consumers started together do
/// not poll together.
pub fn startup_delay(settings: &SchedulerSettings) -> (r: u64)
    ensures
        r <= settings.loop_interval,
{
    random_up_to(settings.loop_interval)
}

/// Whether a text has the hyphenated form of a universally unique
/// identifier: 36 characters, hyphens after the 8th, 13th, 18th and 23rd,
/// and lower-case hexadecimal digits everywhere else.
pub open spec fn is_hyphenated_identifier(text: Seq<char>) -> bool {
    &&& text.len() == 36
    &&& forall|i: int|
        0 <= i < 36 ==> if i == 8 || i == 13 || i == 18 || i == 23 {
            #[trigger] text[i] == '-'
        } else {
            '0' <= text[i] <= '9' || 'a' <= text[i] <= 'f'
        }
}

/// Makes a random identifier with `uuid::Uuid::new_v4` and writes it with
/// its `Display`, which is the hyphenated form in lower case. Which
/// identifier comes out is left open.
#[verifier::external_body]
fn random_identifier() -> (r: String)
    ensures
        is_hyphenated_identifier(r@),
{
    uuid::Uuid::new_v4().to_string()
}

/// The name of the consumer that `identifier` tells apart from the others.
pub open spec fn consumer_name_of(identifier: Seq<char>) -> Seq<char> {
    prefixed("consumer_"@, identifier)
}

/// Builds the name of the consumer that `identifier` tells apart from the
/// others.
pub fn consumer_name(identifier: &str) -> (r: String)
    ensures
        r@ == consumer_name_of(identifier@),
{
    with_prefix("consumer_", identifier)
}

/// Whether a text is the name of a consumer with a random identifier of
/// its own.
pub open spec fn is_fresh_consumer_name(name: Seq<char>) -> bool {
    exists|identifier: Seq<char>|
        is_hyphenated_identifier(identifier) && name == #[trigger] consumer_name_of(identifier)
}

/// A name for the consumer of one polling cycle, with a random identifier
/// of its own.
pub fn new_consumer_name() -> (r: String)
    ensures
        is_fresh_consumer_name(r@),
{
    let identifier = random_identifier();
    consumer_name(identifier.as_str())
}

/// What the shutdown channel shows when the loop looks at it.
#[derive(Clone, Copy, Debug, PartialEq, Eq, Structural)]
pub enum SignalState {
    /// No termination signal so far.
    Empty,
    /// A termination signal arrived.
    Received,
    /// The sending side is gone.
    Disconnected,
}

/// Where the consumer loop stands.
#[derive(Clone, Copy, Debug, PartialEq, Eq, Structural)]
pub enum ConsumerLoop {
    /// About to look at the shutdown channel.
    Polling,
    /// Waiting for the next tick of the loop interval.
    AwaitingTick,
    /// Shutting down: about to look at the cycles in flight again.
    Draining,
    /// Shutting down: waiting for the next tick of the shutdown interval.
    AwaitingShutdownTick,
    /// The loop has ended.
    Stopped,
}

/// What happened outside the loop.
#[derive(Clone, Copy, Debug, PartialEq, Eq, Structural)]
pub enum LoopEvent {
    /// The shutdown channel was looked at.
    Signal(SignalState),
    /// The loop interval ticked; `disabled` is the setting at that moment.
    Tick { disabled: bool },
    /// The shutdown interval ticked; `active_tasks` is the number of cycles
    /// in flight at that moment.
    ShutdownTick { active_tasks: u64 },
}

/// What the loop does next.
#[derive(Clone, Copy, Debug, PartialEq, Eq, Structural)]
pub enum LoopAction {
    /// Look at the shutdown channel.
    CheckSignal,
    /// Wait for the loop interval to tick.
    AwaitTick,
    /// Start a polling cycle, then look at the shutdown channel.
    SpawnCycle,
    /// Close the shutdown channel and wait for the shutdown interval to
    /// tick.
    AwaitShutdownTick,
    /// End the loop.
    Terminate,
}

impl ConsumerLoop {
    /// Whether a termination signal was seen.
    pub open spec fn shutting_down(self) -> bool {
        self == ConsumerLoop::Draining || self == ConsumerLoop::AwaitingShutdownTick || self
            == ConsumerLoop::Stopped
    }

    /// What the loop asks for in a state: what it repeats when an event
    /// arrives that the state is not waiting for.
    pub open spec fn awaited(self) -> LoopAction {
        match self {
            ConsumerLoop::Polling => LoopAction::CheckSignal,
            ConsumerLoop::AwaitingTick => LoopAction::AwaitTick,
            ConsumerLoop::Draining => LoopAction::CheckSignal,
            ConsumerLoop::AwaitingShutdownTick => LoopAction::AwaitShutdownTick,
            ConsumerLoop::Stopped => LoopAction::Terminate,
        }
    }

    /// The next state and the next action.
    pub open spec fn stepped(self, event: LoopEvent) -> (ConsumerLoop, LoopAction) {
        match (self, event) {
            (ConsumerLoop::Polling, LoopEvent::Signal(SignalState::Empty)) => (
                ConsumerLoop::AwaitingTick,
                LoopAction::AwaitTick,
            ),
            (ConsumerLoop::Polling, LoopEvent::Signal(_)) => (
                ConsumerLoop::AwaitingShutdownTick,
                LoopAction::AwaitShutdownTick,
            ),
            (ConsumerLoop::AwaitingTick, LoopEvent::Tick { disabled }) => (
                ConsumerLoop::Polling,
                if disabled {
                    LoopAction::CheckSignal
                } else {
                    LoopAction::SpawnCycle
                },
            ),
            (ConsumerLoop::Draining, LoopEvent::Signal(_)) => (
                ConsumerLoop::AwaitingShutdownTick,
                LoopAction::AwaitShutdownTick,
            ),
            (ConsumerLoop::AwaitingShutdownTick, LoopEvent::ShutdownTick { active_tasks }) => {
                if active_tasks == 0 {
                    (ConsumerLoop::Stopped, LoopAction::Terminate)
                } else {
                    (ConsumerLoop::Draining, LoopAction::CheckSignal)
                }
            },
            _ => (self, self.awaited()),
        }
    }

    /// The loop as it starts, and its first action. The loop cannot start
    /// unless the handler of termination signals is in place: without it
    /// the consumer could never be shut down gracefully.
    pub fn start(signal_handler_installed: bool) -> (r: Result<
        (ConsumerLoop, LoopAction),
        ProcessTrackerError,
    >)
        ensures
            r == if signal_handler_installed {
                Ok::<(ConsumerLoop, LoopAction), ProcessTrackerError>(
                    (ConsumerLoop::Polling, LoopAction::CheckSignal),
                )
            } else {
                Err::<(ConsumerLoop, LoopAction), ProcessTrackerError>(
                    ProcessTrackerError::ConfigurationError,
                )
            },
    {
        if signal_handler_installed {
            Ok((ConsumerLoop::Polling, LoopAction::CheckSignal))
        } else {
            Err(ProcessTrackerError::ConfigurationError)
        }
    }
}

/// One step of the consumer loop: from where the loop stands and what
/// happened, where it stands next and what it does next.
pub fn start_consumer(state: ConsumerLoop, event: LoopEvent) -> (r: (ConsumerLoop, LoopAction))
    ensures
        r == state.stepped(event),
{
    match (state, event) {
        (ConsumerLoop::Polling, LoopEvent::Signal(SignalState::Empty)) => (
            ConsumerLoop::AwaitingTick,
            LoopAction::AwaitTick,
        ),
        (ConsumerLoop::Polling, LoopEvent::Signal(_)) => (
            ConsumerLoop::AwaitingShutdownTick,
            LoopAction::AwaitShutdownTick,
        ),
        (ConsumerLoop::AwaitingTick, LoopEvent::Tick { disabled }) => (
            ConsumerLoop::Polling,
            if disabled {
                LoopAction::CheckSignal
            } else {
                LoopAction::SpawnCycle
            },
        ),
        (ConsumerLoop::Draining, LoopEvent::Signal(_)) => (
            ConsumerLoop::AwaitingShutdownTick,
            LoopAction::AwaitShutdownTick,
        ),
        (ConsumerLoop::AwaitingShutdownTick, LoopEvent::ShutdownTick { active_tasks }) => {
            if active_tasks == 0 {
                (ConsumerLoop::Stopped, LoopAction::Terminate)
            } else {
                (ConsumerLoop::Draining, LoopAction::CheckSignal)
            }
        },
        (ConsumerLoop::Polling, _) => (state, LoopAction::CheckSignal),
        (ConsumerLoop::AwaitingTick, _) => (state, LoopAction::AwaitTick),
        (ConsumerLoop::Draining, _) => (state, LoopAction::CheckSignal),
        (ConsumerLoop::AwaitingShutdownTick, _) => (state, LoopAction::AwaitShutdownTick),
        (ConsumerLoop::Stopped, _) => (state, LoopAction::Terminate),
    }
}

/// The result of the consumer once its loop has ended: the task that
/// listened for termination signals must have ended too.
pub fn consumer_result(signal_task_joined: bool) -> (r: Result<(), ProcessTrackerError>)
    ensures
        r == if signal_task_joined {
            Ok::<(), ProcessTrackerError>(())
        } else {
            Err::<(), ProcessTrackerError>(ProcessTrackerError::UnexpectedFlow)
        },
{
    if signal_task_joined {
        Ok(())
    } else {
        Err(ProcessTrackerError::UnexpectedFlow)
    }
}

/// The tasks that may be executed: those with a valid business status.
pub struct ValidBusinessStatus;

impl Criterion<ProcessTracker> for ValidBusinessStatus {
    open spec fn accepts(&self, task: ProcessTracker) -> bool {
        valid_business_status_names().contains(task.business_status@)
    }
}

/// All tasks of a list of batches, in the order of their delivery.
pub open spec fn delivered_tasks(batches: Seq<ProcessTrackerBatch>) -> Seq<ProcessTracker>
    decreases batches.len(),
{
    if batches.len() == 0 {
        Seq::empty()
    } else {
        delivered_tasks(batches.drop_last()) + batches.last().trackers@
    }
}

/// The tasks of a list of batches that are accepted, in the order of their
/// delivery.
pub open spec fn accepted_tasks(batches: Seq<ProcessTrackerBatch>) -> Seq<ProcessTracker>
    decreases batches.len(),
{
    if batches.len() == 0 {
        Seq::empty()
    } else {
        accepted_tasks(batches.drop_last()) + all(batches.last().trackers@, ValidBusinessStatus)
    }
}

/// The identifiers of a list of tasks.
pub open spec fn ids_of(tasks: Seq<ProcessTracker>) -> Seq<Seq<char>> {
    tasks.map_values(|task: ProcessTracker| task.id@)
}

/// The texts of a list of strings.
pub open spec fn texts(strings: Seq<String>) -> Seq<Seq<char>> {
    strings.map_values(|s: String| s@)
}

/// The tasks as they are once all are marked as started.
pub open spec fn started_tasks(tasks: Seq<ProcessTracker>) -> Seq<ProcessTracker> {
    tasks.map_values(|task: ProcessTracker| task.started())
}

/// An update of the status of tasks, by their identifiers.
#[derive(Debug, PartialEq)]
pub struct StatusUpdateRequest {
    pub task_ids: Vec<String>,
    pub update: ProcessTrackerUpdate,
}

/// The tasks a cycle accepted, and the update that marks them as started.
/// Nothing of a claim is executed before the durable store has made the
/// update.
#[derive(Debug, PartialEq)]
pub struct Claim {
    pub tasks: Vec<ProcessTracker>,
    pub request: StatusUpdateRequest,
}

fn accept_valid(trackers: &Vec<ProcessTracker>, out: &mut Vec<ProcessTracker>)
    ensures
        final(out)@ == old(out)@ + all(trackers@, ValidBusinessStatus),
{
    let valid = valid_business_statuses();
    let ghost before = out@;
    let mut i: usize = 0;
    assert(trackers@.take(0) =~= Seq::empty());
    assert(out@ =~= before + all(trackers@.take(0), ValidBusinessStatus));
    while i < trackers.len()
        invariant
            i <= trackers.len(),
            status_names(valid@) == valid_business_status_names(),
            out@ == before + all(trackers@.take(i as int), ValidBusinessStatus),
        decreases trackers.len() - i,
    {
        let ghost so_far = all(trackers@.take(i as int), ValidBusinessStatus);
        proof {
            assert(trackers@.take(i + 1).drop_last() =~= trackers@.take(i as int));
            assert(trackers@.take(i + 1).last() == trackers@[i as int]);
        }
        if trackers[i].is_valid_business_status(&valid) {
            out.push(trackers[i].clone());
            assert(out@ =~= before + so_far.push(trackers@[i as int]));
        }
        i += 1;
    }
    assert(trackers@.take(trackers.len() as int) =~= trackers@);
}

/// Decides what becomes of the batches that the task queue delivered to a
/// consumer: which tasks are accepted, and the update that marks exactly
/// those as started.
pub fn fetch_consumer_tasks(batches: Vec<ProcessTrackerBatch>) -> (r: Claim)
    ensures
        r.tasks@ == accepted_tasks(batches@),
        texts(r.request.task_ids@) == ids_of(r.tasks@),
        r.request.update@ == (ProcessTrackerUpdateView::StatusUpdate {
            status: ProcessTrackerStatus::ProcessStarted,
            business_status: None,
        }),
{
    let mut tasks: Vec<ProcessTracker> = Vec::new();
    let mut b: usize = 0;
    assert(batches@.take(0) =~= Seq::empty());
    while b < batches.len()
        invariant
            b <= batches.len(),
            tasks@ == accepted_tasks(batches@.take(b as int)),
        decreases batches.len() - b,
    {
        proof {
            assert(batches@.take(b + 1).drop_last() =~= batches@.take(b as int));
            assert(batches@.take(b + 1).last() == batches@[b as int]);
        }
        accept_valid(&batches[b].trackers, &mut tasks);
        b += 1;
    }
    assert(batches@.take(batches.len() as int) =~= batches@);
    let mut task_ids: Vec<String> = Vec::new();
    let mut i: usize = 0;
    while i < tasks.len()
        invariant
            i <= tasks.len(),
            texts(task_ids@) == ids_of(tasks@.take(i as int)),
        decreases tasks.len() - i,
    {
        let ghost earlier = task_ids@;
        task_ids.push(tasks[i].id.clone());
        assert(tasks@.take(i + 1) =~= tasks@.take(i as int).push(tasks@[i as int]));
        assert(texts(task_ids@) =~= texts(earlier).push(tasks@[i as int].id@));
        assert(ids_of(tasks@.take(i + 1)) =~= ids_of(tasks@.take(i as int)).push(
            tasks@[i as int].id@,
        ));
        i += 1;
    }
    assert(tasks@.take(tasks.len() as int) =~= tasks@);
    Claim {
        tasks,
        request: StatusUpdateRequest {
            task_ids,
            update: ProcessTrackerUpdate::StatusUpdate {
                status: ProcessTrackerStatus::ProcessStarted,
                business_status: None,
            },
        },
    }
}

impl Claim {
    /// The tasks to execute, once the durable store has answered the update:
    /// all of the claim, marked as started, if the update was made; none,
    /// with an error, if it failed.
    pub fn confirm(self, marked: Result<usize, StorageError>) -> (r: Result<
        Vec<ProcessTracker>,
        ProcessTrackerError,
    >)
        ensures
            match r {
                Ok(tasks) => marked is Ok && tasks@ == started_tasks(self.tasks@),
                Err(e) => marked is Err && e == ProcessTrackerError::ProcessFetchingFailed,
            },
    {
        match marked {
            Err(_) => Err(ProcessTrackerError::ProcessFetchingFailed),
            Ok(_) => {
                let mut started: Vec<ProcessTracker> = Vec::new();
                let mut i: usize = 0;
                while i < self.tasks.len()
                    invariant
                        i <= self.tasks.len(),
                        started@ == started_tasks(self.tasks@.take(i as int)),
                    decreases self.tasks.len() - i,
                {
                    let mut task = self.tasks[i].clone();
                    task.status = ProcessTrackerStatus::ProcessStarted;
                    started.push(task);
                    assert(self.tasks@.take(i + 1) =~= self.tasks@.take(i as int).push(
                        self.tasks@[i as int],
                    ));
                    assert(started@ =~= started_tasks(self.tasks@.take(i + 1)));
                    i += 1;
                }
                assert(self.tasks@.take(self.tasks.len() as int) =~= self.tasks@);
                Ok(started)
            },
        }
    }
}

/// The result of a polling cycle, from the errors of the tasks that could
/// not be handed to a workflow, in the order of the tasks: the first one,
/// if there is one.
pub open spec fn result_of(failures: Seq<ProcessTrackerError>) -> Result<(), ProcessTrackerError> {
    if failures.len() == 0 {
        Ok(())
    } else {
        Err(failures[0])
    }
}

/// The result of a polling cycle from the errors of its tasks.
pub fn cycle_result(failures: &Vec<ProcessTrackerError>) -> (r: Result<(), ProcessTrackerError>)
    ensures
        r == result_of(failures@),
{
    if failures.len() == 0 {
        Ok(())
    } else {
        Err(failures[0])
    }
}

/// Where a polling cycle stands: which event it is waiting for.
#[derive(Debug, PartialEq)]
pub enum Cycle {
    /// The consumer group is being created on the stream.
    CreatingGroup { stream_name: String, group_name: String, consumer_name: String },
    /// Tasks are being claimed for the consumer.
    Claiming,
    /// The workflow selector is being asked for `current`; `rest` are the
    /// tasks after it, and `failures` the errors of the tasks before it.
    Selecting {
        current: ProcessTracker,
        rest: Vec<ProcessTracker>,
        failures: Vec<ProcessTrackerError>,
    },
    /// The execution of a task is being started; `rest` are the tasks after
    /// it.
    Starting { rest: Vec<ProcessTracker>, failures: Vec<ProcessTrackerError> },
    /// The executions that were started are being waited for.
    Joining { failures: Vec<ProcessTrackerError> },
    /// The cycle is over.
    Finished,
}

/// A polling cycle, with its lists as sequences.
pub enum CycleView {
    CreatingGroup { stream_name: String, group_name: String, consumer_name: String },
    Claiming,
    Selecting {
        current: ProcessTracker,
        rest: Seq<ProcessTracker>,
        failures: Seq<ProcessTrackerError>,
    },
    Starting { rest: Seq<ProcessTracker>, failures: Seq<ProcessTrackerError> },
    Joining { failures: Seq<ProcessTrackerError> },
    Finished,
}

impl View for Cycle {
    type V = CycleView;

    open spec fn view(&self) -> CycleView {
        match *self {
            Cycle::CreatingGroup {
                stream_name,
                group_name,
                consumer_name,
            } => CycleView::CreatingGroup { stream_name, group_name, consumer_name },
            Cycle::Claiming => CycleView::Claiming,
            Cycle::Selecting { current, rest, failures } => CycleView::Selecting {
                current,
                rest: rest@,
                failures: failures@,
            },
            Cycle::Starting { rest, failures } => CycleView::Starting {
                rest: rest@,
                failures: failures@,
            },
            Cycle::Joining { failures } => CycleView::Joining { failures: failures@ },
            Cycle::Finished => CycleView::Finished,
        }
    }
}

/// What happened outside the cycle. `W` is what the workflow selector
/// gives for a task: the workflow that carries the task out.
#[derive(Debug, PartialEq)]
pub enum CycleEvent<W> {
    /// The creation of the consumer group was tried; `true` if it was
    /// created, `false` if not, as when it exists already.
    GroupCreated(bool),
    /// Tasks were claimed and marked as started, or the claim failed.
    Claimed(Result<Vec<ProcessTracker>, ProcessTrackerError>),
    /// The workflow selector was asked: its workflow for the task, nothing
    /// if it knows none, or its error.
    Selected(Result<Option<W>, ProcessTrackerError>),
    /// The execution of the task was started.
    Started,
    /// Every execution that was started has ended.
    Joined,
}

/// An event, with its list as a sequence.
pub enum CycleEventView<W> {
    GroupCreated(bool),
    Claimed(Result<Seq<ProcessTracker>, ProcessTrackerError>),
    Selected(Result<Option<W>, ProcessTrackerError>),
    Started,
    Joined,
}

impl<W> View for CycleEvent<W> {
    type V = CycleEventView<W>;

    open spec fn view(&self) -> CycleEventView<W> {
        match *self {
            CycleEvent::GroupCreated(created) => CycleEventView::GroupCreated(created),
            CycleEvent::Claimed(Ok(tasks)) => CycleEventView::Claimed(Ok(tasks@)),
            CycleEvent::Claimed(Err(e)) => CycleEventView::Claimed(Err(e)),
            CycleEvent::Selected(selection) => CycleEventView::Selected(selection),
            CycleEvent::Started => CycleEventView::Started,
            CycleEvent::Joined => CycleEventView::Joined,
        }
    }
}

/// What the cycle does next.
#[derive(Debug, PartialEq)]
#[allow(inconsistent_fields)]
pub enum CycleAction<W> {
    /// Create the consumer group on the stream, after what the stream holds
    /// already.
    CreateGroup { stream_name: String, group_name: String },
    /// Claim the tasks that the stream delivers to the consumer, and mark
    /// the accepted ones as started.
    Claim { stream_name: String, group_name: String, consumer_name: String },
    /// Ask the workflow selector for the workflow of the task.
    Select { task: ProcessTracker },
    /// Start the execution of the task on the workflow that the selector
    /// gave for it.
    Run { task: ProcessTracker, workflow: W },
    /// Wait until every execution that was started has ended.
    Join,
    /// End the cycle with this result.
    Done(Result<(), ProcessTrackerError>),
}

impl CycleView {
    /// What follows once a task is dealt with: the selector is asked for the
    /// first of the tasks that remain; after the last task, the executions
    /// are waited for.
    pub open spec fn next<W>(rest: Seq<ProcessTracker>, failures: Seq<ProcessTrackerError>) -> (
        CycleView,
        CycleAction<W>,
    ) {
        if rest.len() == 0 {
            (CycleView::Joining { failures }, CycleAction::Join)
        } else {
            (
                CycleView::Selecting { current: rest[0], rest: rest.drop_first(), failures },
                CycleAction::Select { task: rest[0] },
            )
        }
    }

    /// The next state and the next action.
    ///
    /// Whether or not the consumer group could be created, the claim is
    /// made. A failed claim ends the cycle with its error. The selector is
    /// asked for each claimed task in turn: a task for which it gives a
    /// workflow is run on that workflow; one for which it knows none is
    /// recorded as an unexpected flow, and one for which it fails with its
    /// error; either way the cycle goes on with the next task. After the
    /// last task the executions are waited for, and then the cycle ends with
    /// the first error recorded, if there is one. An event that the state is
    /// not waiting for ends the cycle as an unexpected flow.
    pub open spec fn stepped<W>(self, event: CycleEventView<W>) -> (CycleView, CycleAction<W>) {
        match (self, event) {
            (
                CycleView::CreatingGroup { stream_name, group_name, consumer_name },
                CycleEventView::GroupCreated(_),
            ) => (
                CycleView::Claiming,
                CycleAction::Claim { stream_name, group_name, consumer_name },
            ),
            (CycleView::Claiming, CycleEventView::Claimed(Ok(tasks))) => Self::next(
                tasks,
                Seq::empty(),
            ),
            (CycleView::Claiming, CycleEventView::Claimed(Err(e))) => (
                CycleView::Finished,
                CycleAction::Done(Err(e)),
            ),
            (
                CycleView::Selecting { current, rest, failures },
                CycleEventView::Selected(Ok(Some(workflow))),
            ) => (
                CycleView::Starting { rest, failures },
                CycleAction::Run { task: current, workflow },
            ),
            (
                CycleView::Selecting { rest, failures, .. },
                CycleEventView::Selected(Ok(None)),
            ) => Self::next(rest, failures.push(ProcessTrackerError::UnexpectedFlow)),
            (
                CycleView::Selecting { rest, failures, .. },
                CycleEventView::Selected(Err(e)),
            ) => Self::next(rest, failures.push(e)),
            (CycleView::Starting { rest, failures }, CycleEventView::Started) => Self::next(
                rest,
                failures,
            ),
            (CycleView::Joining { failures }, CycleEventView::Joined) => (
                CycleView::Finished,
                CycleAction::Done(result_of(failures)),
            ),
            _ => (CycleView::Finished, CycleAction::Done(Err(ProcessTrackerError::UnexpectedFlow))),
        }
    }
}

impl Cycle {
    /// The cycle of the consumer `consumer_name` as it starts, and its first
    /// action: the consumer group of the settings is created on the stream
    /// of the settings.
    pub open spec fn begun<W>(settings: SchedulerSettings, consumer_name: String) -> (
        CycleView,
        CycleAction<W>,
    ) {
        (
            CycleView::CreatingGroup {
                stream_name: settings.stream,
                group_name: settings.consumer.consumer_group,
                consumer_name,
            },
            CycleAction::CreateGroup {
                stream_name: settings.stream,
                group_name: settings.consumer.consumer_group,
            },
        )
    }

    /// Starts the cycle of the consumer `consumer_name`.
    pub fn start_named<W>(settings: &SchedulerSettings, consumer_name: String) -> (r: (
        Cycle,
        CycleAction<W>,
    ))
        ensures
            r.0@ == Cycle::begun::<W>(*settings, consumer_name).0,
            r.1 == Cycle::begun::<W>(*settings, consumer_name).1,
    {
        (
            Cycle::CreatingGroup {
                stream_name: settings.stream.clone(),
                group_name: settings.consumer.consumer_group.clone(),
                consumer_name,
            },
            CycleAction::CreateGroup {
                stream_name: settings.stream.clone(),
                group_name: settings.consumer.consumer_group.clone(),
            },
        )
    }

    /// Starts a cycle under a consumer name with a random identifier of its
    /// own. Whatever the identifier, the cycle starts as that of a consumer
    /// of some fresh name.
    pub fn start<W>(settings: &SchedulerSettings) -> (r: (Cycle, CycleAction<W>))
        ensures
            exists|consumer_name: String|
                {
                    &&& is_fresh_consumer_name(consumer_name@)
                    &&& r.0@ == (#[trigger] Cycle::begun::<W>(*settings, consumer_name)).0
                    &&& r.1 == Cycle::begun::<W>(*settings, consumer_name).1
                },
    {
        let consumer_name = new_consumer_name();
        Cycle::start_named(settings, consumer_name)
    }

    fn proceed<W>(rest: Vec<ProcessTracker>, failures: Vec<ProcessTrackerError>) -> (r: (
        Cycle,
        CycleAction<W>,
    ))
        ensures
            r.0@ == CycleView::next::<W>(rest@, failures@).0,
            r.1 == CycleView::next::<W>(rest@, failures@).1,
    {
        let mut rest = rest;
        if rest.len() == 0 {
            (Cycle::Joining { failures }, CycleAction::Join)
        } else {
            let ghost all = rest@;
            let current = rest.remove(0);
            assert(rest@ =~= all.drop_first());
            let task = current.clone();
            (Cycle::Selecting { current, rest, failures }, CycleAction::Select { task })
        }
    }
}

/// One step of a polling cycle: from where the cycle stands and what
/// happened, where it stands next and what it does next.
pub fn consumer_operations<W>(state: Cycle, event: CycleEvent<W>) -> (r: (Cycle, CycleAction<W>))
    ensures
        r.0@ == state@.stepped(event@).0,
        r.1 == state@.stepped(event@).1,
{
    match (state, event) {
        (
            Cycle::CreatingGroup { stream_name, group_name, consumer_name },
            CycleEvent::GroupCreated(_),
        ) => (Cycle::Claiming, CycleAction::Claim { stream_name, group_name, consumer_name }),
        (Cycle::Claiming, CycleEvent::Claimed(Ok(tasks))) => Cycle::proceed(tasks, Vec::new()),
        (Cycle::Claiming, CycleEvent::Claimed(Err(e))) => (
            Cycle::Finished,
            CycleAction::Done(Err(e)),
        ),
        (
            Cycle::Selecting { current, rest, failures },
            CycleEvent::Selected(Ok(Some(workflow))),
        ) => (Cycle::Starting { rest, failures }, CycleAction::Run { task: current, workflow }),
        (Cycle::Selecting { rest, failures, .. }, CycleEvent::Selected(Ok(None))) => {
            let mut failures = failures;
            failures.push(ProcessTrackerError::UnexpectedFlow);
            Cycle::proceed(rest, failures)
        },
        (Cycle::Selecting { rest, failures, .. }, CycleEvent::Selected(Err(e))) => {
            let mut failures = failures;
            failures.push(e);
            Cycle::proceed(rest, failures)
        },
        (Cycle::Starting { rest, failures }, CycleEvent::Started) => Cycle::proceed(
            rest,
            failures,
        ),
        (Cycle::Joining { failures }, CycleEvent::Joined) => (
            Cycle::Finished,
            CycleAction::Done(cycle_result(&failures)),
        ),
        _ => (Cycle::Finished, CycleAction::Done(Err(ProcessTrackerError::UnexpectedFlow))),
    }
}

/// Where the execution of one task stands.
#[derive(Debug, PartialEq)]
pub enum Executor {
    /// The workflow is carrying the task out.
    Executing { process: ProcessTracker },
    /// The workflow succeeded; its success handler is finalizing the task.
    Succeeding,
    /// The workflow failed; its error handler is dealing with the task.
    Recovering { process: ProcessTracker },
    /// The error handler failed too; the task is being finished as a
    /// global failure.
    Forcing,
    /// The task is done with.
    Finished,
}

/// What happened to the task outside.
#[derive(Clone, Copy, Debug, PartialEq, Eq)]
pub enum ExecutorEvent {
    /// The workflow ran.
    Executed(Result<(), ProcessTrackerError>),
    /// The success handler ran.
    SuccessHandled,
    /// The error handler ran.
    ErrorHandled(Result<(), ProcessTrackerError>),
    /// The task was finished as a global failure, or the attempt failed.
    Finalized { recorded: bool },
}

/// What is done with the task next.
#[derive(Debug, PartialEq)]
pub enum ExecutorAction {
    /// Run the workflow on the task.
    Execute { process: ProcessTracker },
    /// Run the success handler on the task.
    HandleSuccess { process: ProcessTracker },
    /// Run the error handler on the task and the error.
    HandleError { process: ProcessTracker, error: ProcessTrackerError },
    /// Finish the task with a business status.
    FinishWithStatus { process: ProcessTracker, business_status: &'static str },
    /// Count the task as processed.
    Complete,
    /// Nothing: the task was done with before.
    Nothing,
}

/// The business status of a task whose workflow and error handler both
/// failed.
pub open spec fn global_failure() -> &'static str {
    "GLOBAL_FAILURE"
}

impl Executor {
    /// The execution of `process` as it starts, and its first action.
    pub open spec fn begun(process: ProcessTracker) -> (Executor, ExecutorAction) {
        (Executor::Executing { process }, ExecutorAction::Execute { process })
    }

    /// The next state and the next action. An event that the state is not
    /// waiting for changes nothing.
    pub open spec fn stepped(self, event: ExecutorEvent) -> (Executor, ExecutorAction) {
        match (self, event) {
            (Executor::Executing { process }, ExecutorEvent::Executed(Ok(_))) => (
                Executor::Succeeding,
                ExecutorAction::HandleSuccess { process },
            ),
            (Executor::Executing { process }, ExecutorEvent::Executed(Err(error))) => (
                Executor::Recovering { process },
                ExecutorAction::HandleError { process, error },
            ),
            (Executor::Succeeding, ExecutorEvent::SuccessHandled) => (
                Executor::Finished,
                ExecutorAction::Complete,
            ),
            (Executor::Recovering { .. }, ExecutorEvent::ErrorHandled(Ok(_))) => (
                Executor::Finished,
                ExecutorAction::Complete,
            ),
            (Executor::Recovering { process }, ExecutorEvent::ErrorHandled(Err(_))) => (
                Executor::Forcing,
                ExecutorAction::FinishWithStatus { process, business_status: global_failure() },
            ),
            (Executor::Forcing, ExecutorEvent::Finalized { .. }) => (
                Executor::Finished,
                ExecutorAction::Complete,
            ),
            _ => (self, ExecutorAction::Nothing),
        }
    }

    /// Starts the execution of `process`: the workflow is run on a copy of it.
    pub fn start(process: ProcessTracker) -> (r: (Executor, ExecutorAction))
        ensures
            r == Executor::begun(process),
    {
        let handed = process.clone();
        (Executor::Executing { process }, ExecutorAction::Execute { process: handed })
    }
}

/// One step of the execution of a task: from where the execution stands and
/// what happened, where it stands next and what is done next.
pub fn run_executor(state: Executor, event: ExecutorEvent) -> (r: (Executor, ExecutorAction))
    ensures
        r == state.stepped(event),
{
    match (state, event) {
        (Executor::Executing { process }, ExecutorEvent::Executed(Ok(_))) => (
            Executor::Succeeding,
            ExecutorAction::HandleSuccess { process },
        ),
        (Executor::Executing { process }, ExecutorEvent::Executed(Err(error))) => {
            let handed = process.clone();
            (
                Executor::Recovering { process },
                ExecutorAction::HandleError { process: handed, error },
            )
        },
        (Executor::Succeeding, ExecutorEvent::SuccessHandled) => (
            Executor::Finished,
            ExecutorAction::Complete,
        ),
        (Executor::Recovering { .. }, ExecutorEvent::ErrorHandled(Ok(_))) => (
            Executor::Finished,
            ExecutorAction::Complete,
        ),
        (Executor::Recovering { process }, ExecutorEvent::ErrorHandled(Err(_))) => (
            Executor::Forcing,
            ExecutorAction::FinishWithStatus { process, business_status: "GLOBAL_FAILURE" },
        ),
        (Executor::Forcing, ExecutorEvent::Finalized { .. }) => (
            Executor::Finished,
            ExecutorAction::Complete,
        ),
        (state, _) => (state, ExecutorAction::Nothing),
    }
}

/// The update that finishes a task with a business status: the task alone
/// is updated, its status becomes `Finish`, and its business status the one
/// given.
pub fn finish_with_status(process: ProcessTracker, business_status: &str) -> (r:
    StatusUpdateRequest)
    ensures
        r.task_ids@.len() == 1,
        r.task_ids@[0] == process.id,
        r.update@ == (ProcessTrackerUpdateView::StatusUpdate {
            status: ProcessTrackerStatus::Finish,
            business_status: Some(business_status@),
        }),
{
    let mut task_ids: Vec<String> = Vec::new();
    task_ids.push(process.id);
    StatusUpdateRequest {
        task_ids,
        update: ProcessTrackerUpdate::StatusUpdate {
            status: ProcessTrackerStatus::Finish,
            business_status: Some(String::from_str(business_status)),
        },
    }
}

/// The update by which the default error handler of workflows finishes a
/// task: the task is finished, with the business status of a global error.
pub fn consumer_error_handler(process: ProcessTracker) -> (r: StatusUpdateRequest)
    ensures
        r.task_ids@.len() == 1,
        r.task_ids@[0] == process.id,
        r.update@ == (ProcessTrackerUpdateView::StatusUpdate {
            status: ProcessTrackerStatus::Finish,
            business_status: Some("GLOBAL_ERROR"@),
        }),
{
    finish_with_status(process, "GLOBAL_ERROR")
}

/// The result of the default error handler, from what the durable store
/// answered to its update.
pub fn error_handler_result(updated: Result<usize, StorageError>) -> (r: Result<
    (),
    ProcessTrackerError,
>)
    ensures
        r == if updated is Ok {
            Ok::<(), ProcessTrackerError>(())
        } else {
            Err::<(), ProcessTrackerError>(ProcessTrackerError::ProcessUpdateFailed)
        },
{
    match updated {
        Ok(_) => Ok(()),
        Err(_) => Err(ProcessTrackerError::ProcessUpdateFailed),
    }
}

} // verus!
