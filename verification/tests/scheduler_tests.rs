use vulnfeed::scheduler::{
    cron_syntax, job_to_remove, SchedulerError, SyncAction, SyncEvent, SyncMachine, SyncMode, SyncPhase,
    SCHEDULED_PAGE_LIMIT,
};
use vulnfeed::sync_data_task::{SyncDataTask, UtcTimestamp};

const JOB: &str = "67e55044-10b1-426f-9247-bb680e5fe0c8";

fn task(status: bool, interval_minutes: i32, job_id: Option<&str>) -> SyncDataTask {
    let at = UtcTimestamp { secs: 1_700_000_000, nanos: 0 };
    SyncDataTask {
        id: 7,
        name: "nightly".to_string(),
        interval_minutes,
        status,
        job_id: job_id.map(|s| s.to_string()),
        created_at: at,
        updated_at: at,
    }
}

#[test]
fn cron_schedule_by_minutes_or_hours() {
    assert_eq!(cron_syntax(30), "0 */30 * * * *");
    assert_eq!(cron_syntax(1), "0 */1 * * * *");
    assert_eq!(cron_syntax(59), "0 */59 * * * *");
    assert_eq!(cron_syntax(60), "0 0 */1 * * *");
    assert_eq!(cron_syntax(90), "0 0 */1 * * *");
    assert_eq!(cron_syntax(720), "0 0 */12 * * *");
    assert_eq!(cron_syntax(0), "0 */0 * * * *");
    assert_eq!(cron_syntax(-15), "0 */-15 * * * *");
    assert_eq!(SCHEDULED_PAGE_LIMIT, 1);
}

#[test]
fn only_a_uuid_job_id_is_removed() {
    assert_eq!(job_to_remove(&task(true, 5, Some(JOB))), Some(0x67e5504410b1426f9247bb680e5fe0c8));
    assert_eq!(job_to_remove(&task(true, 5, Some("not-a-uuid"))), None);
    assert_eq!(job_to_remove(&task(true, 5, None)), None);
}

fn feed(m: &mut SyncMachine, e: SyncEvent) -> SyncAction {
    assert!(m.accepts(&e));
    m.step(e)
}

#[test]
fn update_replaces_the_job_of_an_enabled_task() {
    let (mut m, a) = SyncMachine::start(SyncMode::Update);
    assert_eq!(a, SyncAction::BeginTransaction);
    assert_eq!(feed(&mut m, SyncEvent::TransactionBegun), SyncAction::LoadFirstTask);
    assert_eq!(
        feed(&mut m, SyncEvent::TaskLoaded(Some(task(true, 120, Some(JOB))))),
        SyncAction::RemoveJob(0x67e5504410b1426f9247bb680e5fe0c8)
    );
    assert_eq!(feed(&mut m, SyncEvent::JobRemoved), SyncAction::CreateJob("0 0 */2 * * *".to_string()));
    assert_eq!(feed(&mut m, SyncEvent::JobCreated), SyncAction::AddJob);
    assert_eq!(
        feed(&mut m, SyncEvent::JobAdded("new-id".to_string())),
        SyncAction::RecordJob { task_id: 7, job_id: "new-id".to_string() }
    );
    assert_eq!(feed(&mut m, SyncEvent::JobRecorded), SyncAction::Commit);
    assert_eq!(feed(&mut m, SyncEvent::Committed), SyncAction::Finish(Ok(())));
    assert_eq!(m.phase, SyncPhase::Done);
}

#[test]
fn update_goes_on_when_removal_fails() {
    let (mut m, _) = SyncMachine::start(SyncMode::Update);
    feed(&mut m, SyncEvent::TransactionBegun);
    feed(&mut m, SyncEvent::TaskLoaded(Some(task(false, 10, Some(JOB)))));
    assert_eq!(feed(&mut m, SyncEvent::Failed), SyncAction::Commit);
    assert_eq!(feed(&mut m, SyncEvent::Committed), SyncAction::Finish(Ok(())));
}

#[test]
fn update_of_a_disabled_task_only_commits() {
    let (mut m, _) = SyncMachine::start(SyncMode::Update);
    feed(&mut m, SyncEvent::TransactionBegun);
    assert_eq!(feed(&mut m, SyncEvent::TaskLoaded(Some(task(false, 10, None)))), SyncAction::Commit);
    // a job id that is no UUID is not removed
    let (mut m, _) = SyncMachine::start(SyncMode::Update);
    feed(&mut m, SyncEvent::TransactionBegun);
    assert_eq!(
        feed(&mut m, SyncEvent::TaskLoaded(Some(task(true, 15, Some("bad"))))),
        SyncAction::CreateJob("0 */15 * * * *".to_string())
    );
}

#[test]
fn update_without_task_fails() {
    let (mut m, _) = SyncMachine::start(SyncMode::Update);
    feed(&mut m, SyncEvent::TransactionBegun);
    assert_eq!(
        feed(&mut m, SyncEvent::TaskLoaded(None)),
        SyncAction::Finish(Err(SchedulerError::TaskNotFound))
    );
}

#[test]
fn init_schedules_then_starts_then_commits() {
    let (mut m, _) = SyncMachine::start(SyncMode::Init);
    feed(&mut m, SyncEvent::TransactionBegun);
    // a start never removes the old job
    assert_eq!(
        feed(&mut m, SyncEvent::TaskLoaded(Some(task(true, 30, Some(JOB))))),
        SyncAction::CreateJob("0 */30 * * * *".to_string())
    );
    feed(&mut m, SyncEvent::JobCreated);
    feed(&mut m, SyncEvent::JobAdded("id".to_string()));
    assert_eq!(feed(&mut m, SyncEvent::JobRecorded), SyncAction::StartScheduler);
    assert_eq!(feed(&mut m, SyncEvent::SchedulerStarted), SyncAction::Commit);
    assert_eq!(feed(&mut m, SyncEvent::Committed), SyncAction::Finish(Ok(())));
}

#[test]
fn init_without_task_or_with_disabled_task_starts_the_scheduler() {
    let (mut m, _) = SyncMachine::start(SyncMode::Init);
    feed(&mut m, SyncEvent::TransactionBegun);
    assert_eq!(feed(&mut m, SyncEvent::TaskLoaded(None)), SyncAction::StartScheduler);
    let (mut m, _) = SyncMachine::start(SyncMode::Init);
    feed(&mut m, SyncEvent::TransactionBegun);
    assert_eq!(feed(&mut m, SyncEvent::TaskLoaded(Some(task(false, 30, None)))), SyncAction::StartScheduler);
}

#[test]
fn failures_end_the_run_with_their_error() {
    let cases = [
        (vec![], SchedulerError::BeginTransaction),
        (vec![SyncEvent::TransactionBegun], SchedulerError::Database),
        (vec![SyncEvent::TransactionBegun, SyncEvent::TaskLoaded(Some(task(true, 5, None)))], SchedulerError::CreateJob),
        (
            vec![SyncEvent::TransactionBegun, SyncEvent::TaskLoaded(Some(task(true, 5, None))), SyncEvent::JobCreated],
            SchedulerError::AddJob,
        ),
        (
            vec![
                SyncEvent::TransactionBegun,
                SyncEvent::TaskLoaded(Some(task(true, 5, None))),
                SyncEvent::JobCreated,
                SyncEvent::JobAdded("j".to_string()),
            ],
            SchedulerError::Database,
        ),
        (
            vec![SyncEvent::TransactionBegun, SyncEvent::TaskLoaded(Some(task(false, 5, None)))],
            SchedulerError::Commit,
        ),
    ];
    for (events, error) in cases {
        let (mut m, _) = SyncMachine::start(SyncMode::Update);
        for e in events {
            feed(&mut m, e);
        }
        assert_eq!(feed(&mut m, SyncEvent::Failed), SyncAction::Finish(Err(error)));
        assert!(!m.accepts(&SyncEvent::Committed));
    }
    let (mut m, _) = SyncMachine::start(SyncMode::Init);
    feed(&mut m, SyncEvent::TransactionBegun);
    feed(&mut m, SyncEvent::TaskLoaded(None));
    assert_eq!(feed(&mut m, SyncEvent::Failed), SyncAction::Finish(Err(SchedulerError::StartScheduler)));
}

#[test]
fn unexpected_events_are_not_accepted() {
    let (m, _) = SyncMachine::start(SyncMode::Update);
    assert!(!m.accepts(&SyncEvent::Committed));
    assert!(!m.accepts(&SyncEvent::TaskLoaded(None)));
    assert!(m.accepts(&SyncEvent::Failed));
}

#[test]
fn update_start_does_not_depend_on_the_task_id() {
    let (a, act_a) = SyncMachine::start_update(1);
    let (b, act_b) = SyncMachine::start_update(999);
    assert_eq!(act_a, act_b);
    assert_eq!((a.mode, a.phase), (b.mode, b.phase));
    assert!(a.task.is_none() && b.task.is_none());
    assert_eq!(a.mode, SyncMode::Update);
}
