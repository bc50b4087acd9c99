//! The decisions of the synchronisation scheduler: the cron schedule of a
//! task, and the steps that reschedule a task or start the scheduler from
//! the stored task.

use vstd::prelude::*;
use vstd::string::*;
use crate::text::{int_decimal, push_decimal};
use crate::sync_data_task::SyncDataTask;

verus! {

/// The number of pages each feed fetches on a scheduled run.
pub const SCHEDULED_PAGE_LIMIT: i32 = 1;

/// The cron schedule, with a seconds field, that runs every
/// `interval_minutes` minutes: every `interval_minutes / 60` hours, on the
/// hour, from an hour on; every `interval_minutes` minutes below that.
pub open spec fn cron_syntax_for(interval_minutes: i32) -> Seq<char> {
    if interval_minutes >= 60 {
        "0 0 */"@ + int_decimal(interval_minutes / 60) + " * * *"@
    } else {
        "0 */"@ + int_decimal(interval_minutes as int) + " * * * *"@
    }
}

/// From an hour on, a task runs every whole number of hours on the hour;
/// below an hour, every `interval_minutes` minutes.
pub proof fn lemma_cron_forms(interval_minutes: i32)
    ensures
        interval_minutes >= 60 ==> cron_syntax_for(interval_minutes) == "0 0 */"@ + int_decimal(
            interval_minutes / 60,
        ) + " * * *"@,
        interval_minutes < 60 ==> cron_syntax_for(interval_minutes) == "0 */"@ + int_decimal(
            interval_minutes as int,
        ) + " * * * *"@,
{
}

/// The cron schedule of a task that runs every `interval_minutes` minutes.
pub fn cron_syntax(interval_minutes: i32) -> (r: String)
    ensures
        r@ == cron_syntax_for(interval_minutes),
        interval_minutes >= 60 ==> r@ == "0 0 */"@ + int_decimal(interval_minutes / 60) + " * * *"@,
        interval_minutes < 60 ==> r@ == "0 */"@ + int_decimal(interval_minutes as int) + " * * * *"@,
{
    if interval_minutes >= 60 {
        let hours = interval_minutes / 60;
        let mut s = "0 0 */".to_owned();
        push_decimal(&mut s, hours);
        s.append(" * * *");
        assert(s@ =~= cron_syntax_for(interval_minutes));
        s
    } else {
        let mut s = "0 */".to_owned();
        push_decimal(&mut s, interval_minutes);
        s.append(" * * * *");
        assert(s@ =~= cron_syntax_for(interval_minutes));
        s
    }
}

/// What the uuid crate reads, as a 128-bit number, from a job id text:
/// `None` where the text is no UUID.
pub uninterp spec fn uuid_value(s: Seq<char>) -> Option<u128>;

/// uuid's `Uuid::parse_str`, with the UUID taken as its 128-bit number.
#[verifier::external_body]
fn parse_uuid(s: &str) -> (r: Option<u128>)
    ensures
        r == uuid_value(s@),
{
    match uuid::Uuid::parse_str(s) {
        Ok(id) => Some(id.as_u128()),
        Err(_) => None,
    }
}

/// The scheduler job that a task's stored job id names, if the id is a UUID.
pub fn job_to_remove(task: &SyncDataTask) -> (r: Option<u128>)
    ensures
        r == removal_target(*task),
{
    match &task.job_id {
        Some(id) => parse_uuid(id.as_str()),
        None => None,
    }
}

/// The job to remove before a task is rescheduled: the one its stored job
/// id names, when that id is a UUID.
pub open spec fn removal_target(task: SyncDataTask) -> Option<u128> {
    match task.job_id {
        Some(id) => uuid_value(id@),
        None => None,
    }
}

/// Which of the two runs a machine performs.
#[derive(Clone, Copy, Debug, PartialEq, Eq, Structural)]
pub enum SyncMode {
    /// Reschedule the stored task after it changed.
    Update,
    /// Schedule the stored task and start the scheduler.
    Init,
}

/// Where a run stands: which action it waits on.
#[derive(Clone, Copy, Debug, PartialEq, Eq, Structural)]
pub enum SyncPhase {
    Beginning,
    Loading,
    Removing,
    Creating,
    Adding,
    Recording,
    Starting,
    Committing,
    Done,
}

/// Why a run failed.
#[derive(Clone, Copy, Debug, PartialEq, Eq, Structural)]
pub enum SchedulerError {
    /// The transaction could not be begun.
    BeginTransaction,
    /// The store failed.
    Database,
    /// There is no stored task to reschedule.
    TaskNotFound,
    /// No job could be made of the task's schedule.
    CreateJob,
    /// The scheduler refused the job.
    AddJob,
    /// The scheduler could not be started.
    StartScheduler,
    /// The transaction could not be committed.
    Commit,
}

/// What came of the last action.
#[derive(Debug)]
pub enum SyncEvent {
    TransactionBegun,
    /// The first stored task, if there is one.
    TaskLoaded(Option<SyncDataTask>),
    JobRemoved,
    JobCreated,
    /// The scheduler took the job under this id.
    JobAdded(String),
    JobRecorded,
    SchedulerStarted,
    Committed,
    /// The last action failed.
    Failed,
}

/// What to do next.
#[derive(Debug, PartialEq, Eq)]
pub enum SyncAction {
    BeginTransaction,
    LoadFirstTask,
    /// Remove this job from the scheduler; a failure is only reported.
    RemoveJob(u128),
    /// Make a job that runs on this cron schedule.
    CreateJob(String),
    /// Hand the job just made to the scheduler.
    AddJob,
    /// Store the id of the task's new job.
    RecordJob { task_id: i64, job_id: String },
    StartScheduler,
    Commit,
    /// Stop, with this outcome; without a commit the transaction is dropped.
    Finish(Result<(), SchedulerError>),
}

/// A run of the scheduler against the store. A run holds no task id: the
/// task it acts on is the first stored one.
#[derive(Debug)]
pub struct SyncMachine {
    pub mode: SyncMode,
    pub phase: SyncPhase,
    /// The task loaded, once it is.
    pub task: Option<SyncDataTask>,
}

/// The error of an action that failed in `phase`; a failed removal is not
/// one.
pub open spec fn failure_of(phase: SyncPhase) -> SchedulerError {
    match phase {
        SyncPhase::Beginning => SchedulerError::BeginTransaction,
        SyncPhase::Creating => SchedulerError::CreateJob,
        SyncPhase::Adding => SchedulerError::AddJob,
        SyncPhase::Starting => SchedulerError::StartScheduler,
        SyncPhase::Committing => SchedulerError::Commit,
        _ => SchedulerError::Database,
    }
}

/// Where a run goes once the task is known and its old job dealt with: an
/// enabled task gets a job; otherwise an update commits, and a start starts
/// the scheduler.
pub open spec fn phase_after_task(mode: SyncMode, task: SyncDataTask) -> SyncPhase {
    if task.status {
        SyncPhase::Creating
    } else {
        match mode {
            SyncMode::Update => SyncPhase::Committing,
            SyncMode::Init => SyncPhase::Starting,
        }
    }
}

/// Where a run goes once the new job's id is stored, or once it is known
/// that the task gets none.
pub open spec fn phase_after_recording(mode: SyncMode) -> SyncPhase {
    match mode {
        SyncMode::Update => SyncPhase::Committing,
        SyncMode::Init => SyncPhase::Starting,
    }
}

/// Whether `e` can answer the action that a machine in `m.phase` asked for.
pub open spec fn sync_expects(m: SyncMachine, e: SyncEvent) -> bool {
    match m.phase {
        SyncPhase::Beginning => e is TransactionBegun || e is Failed,
        SyncPhase::Loading => e is TaskLoaded || e is Failed,
        SyncPhase::Removing => e is JobRemoved || e is Failed,
        SyncPhase::Creating => e is JobCreated || e is Failed,
        SyncPhase::Adding => e is JobAdded || e is Failed,
        SyncPhase::Recording => e is JobRecorded || e is Failed,
        SyncPhase::Starting => e is SchedulerStarted || e is Failed,
        SyncPhase::Committing => e is Committed || e is Failed,
        SyncPhase::Done => false,
    }
}

/// The phase a machine enters on an event it expects.
pub open spec fn next_phase(m: SyncMachine, e: SyncEvent) -> SyncPhase {
    match e {
        SyncEvent::Failed => if m.phase is Removing {
            phase_after_task(m.mode, m.task->0)
        } else {
            SyncPhase::Done
        },
        SyncEvent::TransactionBegun => SyncPhase::Loading,
        SyncEvent::TaskLoaded(None) => match m.mode {
            SyncMode::Update => SyncPhase::Done,
            SyncMode::Init => SyncPhase::Starting,
        },
        SyncEvent::TaskLoaded(Some(t)) =>
            if m.mode is Update && removal_target(t) is Some {
                SyncPhase::Removing
            } else {
                phase_after_task(m.mode, t)
            },
        SyncEvent::JobRemoved => phase_after_task(m.mode, m.task->0),
        SyncEvent::JobCreated => SyncPhase::Adding,
        SyncEvent::JobAdded(_) => SyncPhase::Recording,
        SyncEvent::JobRecorded => phase_after_recording(m.mode),
        SyncEvent::SchedulerStarted => SyncPhase::Committing,
        SyncEvent::Committed => SyncPhase::Done,
    }
}

/// The outcome of a run that ends on event `e` in `m.phase`.
pub open spec fn outcome(m: SyncMachine, e: SyncEvent) -> Result<(), SchedulerError> {
    match e {
        SyncEvent::Failed => Err(failure_of(m.phase)),
        SyncEvent::TaskLoaded(None) => Err(SchedulerError::TaskNotFound),
        _ => Ok(()),
    }
}

/// The shape every run keeps: no task before it is loaded; past loading, the
/// task is known (but when a start found none); a job is being made only for
/// an enabled task; an old job is removed only on an update.
pub open spec fn sync_wf(m: SyncMachine) -> bool {
    &&& (m.phase is Removing || m.phase is Creating || m.phase is Adding || m.phase is Recording)
        ==> m.task is Some
    &&& (m.phase is Creating || m.phase is Adding || m.phase is Recording) ==> m.task->0.status
    &&& m.phase is Removing ==> m.mode is Update && removal_target(m.task->0) is Some
    &&& (m.phase is Beginning || m.phase is Loading) ==> m.task is None
}

/// The action that a machine entering `next` asks for, given the event that
/// brought it there.
pub open spec fn action_fits(old_m: SyncMachine, e: SyncEvent, new_m: SyncMachine, a: SyncAction) -> bool {
    match new_m.phase {
        SyncPhase::Beginning => a is BeginTransaction,
        SyncPhase::Loading => a is LoadFirstTask,
        SyncPhase::Removing => a == SyncAction::RemoveJob(removal_target(new_m.task->0)->0),
        SyncPhase::Creating => a matches SyncAction::CreateJob(c)
            && c@ == cron_syntax_for(new_m.task->0.interval_minutes),
        SyncPhase::Adding => a is AddJob,
        SyncPhase::Recording => {
            &&& a matches SyncAction::RecordJob { task_id, job_id } && task_id == new_m.task->0.id
            &&& e matches SyncEvent::JobAdded(j) && a->job_id@ == j@
        },
        SyncPhase::Starting => a is StartScheduler,
        SyncPhase::Committing => a is Commit,
        SyncPhase::Done => a == SyncAction::Finish(outcome(old_m, e)),
    }
}

impl SyncMachine {
    /// Starts a run: first the transaction is begun.
    pub fn start(mode: SyncMode) -> (r: (SyncMachine, SyncAction))
        ensures
            r.0.mode == mode,
            r.0.phase is Beginning,
            r.0.task is None,
            sync_wf(r.0),
            r.1 is BeginTransaction,
    {
        (SyncMachine { mode, phase: SyncPhase::Beginning, task: None }, SyncAction::BeginTransaction)
    }

    /// Starts the rescheduling that follows a change of task `task_id`. No
    /// task id enters the run: the task acted on is the first stored one,
    /// whichever id the change was for, so the run is the same for every id.
    pub fn start_update(task_id: i64) -> (r: (SyncMachine, SyncAction))
        ensures
            r.0.mode is Update,
            r.0.phase is Beginning,
            r.0.task is None,
            sync_wf(r.0),
            r.1 is BeginTransaction,
    {
        SyncMachine::start(SyncMode::Update)
    }

    /// Whether `event` can answer the action last asked for.
    pub fn accepts(&self, event: &SyncEvent) -> (r: bool)
        ensures
            r == sync_expects(*self, *event),
    {
        match self.phase {
            SyncPhase::Beginning => matches!(event, SyncEvent::TransactionBegun | SyncEvent::Failed),
            SyncPhase::Loading => matches!(event, SyncEvent::TaskLoaded(_) | SyncEvent::Failed),
            SyncPhase::Removing => matches!(event, SyncEvent::JobRemoved | SyncEvent::Failed),
            SyncPhase::Creating => matches!(event, SyncEvent::JobCreated | SyncEvent::Failed),
            SyncPhase::Adding => matches!(event, SyncEvent::JobAdded(_) | SyncEvent::Failed),
            SyncPhase::Recording => matches!(event, SyncEvent::JobRecorded | SyncEvent::Failed),
            SyncPhase::Starting => matches!(event, SyncEvent::SchedulerStarted | SyncEvent::Failed),
            SyncPhase::Committing => matches!(event, SyncEvent::Committed | SyncEvent::Failed),
            SyncPhase::Done => false,
        }
    }

    /// The step a run takes once its task and the task's old job are dealt
    /// with.
    fn after_task(&mut self) -> (action: SyncAction)
        requires
            old(self).task is Some,
        ensures
            final(self).mode == old(self).mode,
            final(self).task == old(self).task,
            final(self).phase == phase_after_task(old(self).mode, old(self).task->0),
            final(self).phase is Creating ==> (action matches SyncAction::CreateJob(c)
                && c@ == cron_syntax_for(final(self).task->0.interval_minutes)),
            final(self).phase is Committing ==> action is Commit,
            final(self).phase is Starting ==> action is StartScheduler,
    {
        let (status, interval) = match &self.task {
            Some(t) => (t.status, t.interval_minutes),
            None => (false, 0),
        };
        if status {
            self.phase = SyncPhase::Creating;
            SyncAction::CreateJob(cron_syntax(interval))
        } else {
            match self.mode {
                SyncMode::Update => {
                    self.phase = SyncPhase::Committing;
                    SyncAction::Commit
                },
                SyncMode::Init => {
                    self.phase = SyncPhase::Starting;
                    SyncAction::StartScheduler
                },
            }
        }
    }

    /// Ends the run with `result`.
    fn finish(&mut self, result: Result<(), SchedulerError>) -> (action: SyncAction)
        ensures
            final(self).mode == old(self).mode,
            final(self).task == old(self).task,
            final(self).phase is Done,
            action == SyncAction::Finish(result),
    {
        self.phase = SyncPhase::Done;
        SyncAction::Finish(result)
    }

    /// Takes in what came of the last action and says what to do next.
    pub fn step(&mut self, event: SyncEvent) -> (action: SyncAction)
        requires
            sync_expects(*old(self), event),
            sync_wf(*old(self)),
        ensures
            sync_wf(*final(self)),
            final(self).mode == old(self).mode,
            final(self).phase == next_phase(*old(self), event),
            event matches SyncEvent::TaskLoaded(t) ==> final(self).task == t,
            !(event is TaskLoaded) ==> final(self).task == old(self).task,
            action_fits(*old(self), event, *final(self), action),
    {
        match event {
            SyncEvent::Failed => {
                match self.phase {
                    SyncPhase::Beginning => self.finish(Err(SchedulerError::BeginTransaction)),
                    SyncPhase::Removing => self.after_task(),
                    SyncPhase::Creating => self.finish(Err(SchedulerError::CreateJob)),
                    SyncPhase::Adding => self.finish(Err(SchedulerError::AddJob)),
                    SyncPhase::Starting => self.finish(Err(SchedulerError::StartScheduler)),
                    SyncPhase::Committing => self.finish(Err(SchedulerError::Commit)),
                    _ => self.finish(Err(SchedulerError::Database)),
                }
            },
            SyncEvent::TransactionBegun => {
                self.phase = SyncPhase::Loading;
                SyncAction::LoadFirstTask
            },
            SyncEvent::TaskLoaded(None) => {
                match self.mode {
                    SyncMode::Update => self.finish(Err(SchedulerError::TaskNotFound)),
                    SyncMode::Init => {
                        self.phase = SyncPhase::Starting;
                        SyncAction::StartScheduler
                    },
                }
            },
            SyncEvent::TaskLoaded(Some(task)) => {
                let removal = match self.mode {
                    SyncMode::Update => job_to_remove(&task),
                    SyncMode::Init => None,
                };
                self.task = Some(task);
                match removal {
                    Some(job) => {
                        self.phase = SyncPhase::Removing;
                        SyncAction::RemoveJob(job)
                    },
                    None => self.after_task(),
                }
            },
            SyncEvent::JobRemoved => self.after_task(),
            SyncEvent::JobCreated => {
                self.phase = SyncPhase::Adding;
                SyncAction::AddJob
            },
            SyncEvent::JobAdded(job_id) => {
                let task_id = match &self.task {
                    Some(t) => t.id,
                    None => 0,
                };
                self.phase = SyncPhase::Recording;
                SyncAction::RecordJob { task_id, job_id }
            },
            SyncEvent::JobRecorded => {
                match self.mode {
                    SyncMode::Update => {
                        self.phase = SyncPhase::Committing;
                        SyncAction::Commit
                    },
                    SyncMode::Init => {
                        self.phase = SyncPhase::Starting;
                        SyncAction::StartScheduler
                    },
                }
            },
            SyncEvent::SchedulerStarted => {
                self.phase = SyncPhase::Committing;
                SyncAction::Commit
            },
            SyncEvent::Committed => self.finish(Ok(())),
        }
    }
}

/// A start never fails for want of a task, and an update always does.
pub proof fn lemma_missing_task(m: SyncMachine)
    requires
        m.phase is Loading,
    ensures
        m.mode is Update ==> next_phase(m, SyncEvent::TaskLoaded(None)) is Done
            && outcome(m, SyncEvent::TaskLoaded(None)) == Err::<(), SchedulerError>(SchedulerError::TaskNotFound),
        m.mode is Init ==> next_phase(m, SyncEvent::TaskLoaded(None)) is Starting,
{
}

/// A start commits only once the scheduler has started.
pub proof fn lemma_start_commits_after_scheduler(m: SyncMachine, e: SyncEvent)
    requires
        m.mode is Init,
        sync_wf(m),
        sync_expects(m, e),
        next_phase(m, e) is Committing,
    ensures
        m.phase is Starting,
        e is SchedulerStarted,
{
}

/// An update never starts the scheduler, and a start never removes a job.
pub proof fn lemma_modes_keep_apart(m: SyncMachine, e: SyncEvent)
    requires
        sync_wf(m),
        sync_expects(m, e),
    ensures
        m.mode is Update ==> !(next_phase(m, e) is Starting),
        m.mode is Init ==> !(next_phase(m, e) is Removing),
{
}

/// A failed removal of the old job does not stop an update: it goes on as
/// after a removal.
pub proof fn lemma_failed_removal_continues(m: SyncMachine)
    requires
        m.phase is Removing,
    ensures
        next_phase(m, SyncEvent::Failed) == next_phase(m, SyncEvent::JobRemoved),
        !(next_phase(m, SyncEvent::Failed) is Done),
{
}

/// Every other failure ends the run with the error of the step that failed,
/// and nothing is committed after it.
pub proof fn lemma_failure_ends_run(m: SyncMachine)
    requires
        !(m.phase is Removing),
        !(m.phase is Done),
    ensures
        next_phase(m, SyncEvent::Failed) is Done,
        outcome(m, SyncEvent::Failed) == Err::<(), SchedulerError>(failure_of(m.phase)),
{
}

} // verus!
