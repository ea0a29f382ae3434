use compaction_manager::backend::Backend;
use compaction_manager::batch::{compacted_id, BatchEvent, BatchRequest, CompactionBatch};
use compaction_manager::collection::CollectionUuid;
use compaction_manager::error::{CompactionError, ErrorCodes};
use compaction_manager::handler::{
    CompactionRound, RoundEvent, RoundRequest, ScheduledMessage, SchedulerCommand,
};
use compaction_manager::interval::Interval;
use compaction_manager::job::{CompactionJob, CompactionResponse, JobError};
use compaction_manager::manager::CompactionManager;
use compaction_manager::message::{
    Member, Memberlist, OneOffCompactionMessage, ScheduledCompactionMessage,
};

struct InMemory;

#[derive(Clone)]
struct LogRecord {
    collection_id: CollectionUuid,
    id: String,
    embedding: Vec<f32>,
}

#[derive(Clone)]
struct Collection {
    collection_id: CollectionUuid,
    name: String,
    tenant: String,
    database: String,
}

#[derive(Clone)]
struct InMemorySysDb {
    collections: Vec<Collection>,
    last_compaction_times: Vec<(String, i64)>,
}

/// Picks the collections that have records, those of the tenants whose last
/// compaction is longest ago first.
struct InMemoryScheduler {
    my_member_id: String,
    max_concurrent_jobs: usize,
    memberlist: Vec<String>,
}

impl InMemoryScheduler {
    fn jobs(&self, log: &Vec<LogRecord>, sysdb: &InMemorySysDb) -> Vec<CompactionJob<InMemory>> {
        if !self.memberlist.contains(&self.my_member_id) {
            return Vec::new();
        }
        let mut picked: Vec<(i64, &Collection)> = sysdb
            .collections
            .iter()
            .filter(|c| log.iter().any(|r| r.collection_id == c.collection_id))
            .map(|c| {
                let time = sysdb.last_compaction_times.iter().find(|t| t.0 == c.tenant);
                (time.unwrap().1, c)
            })
            .collect();
        picked.sort_by_key(|p| p.0);
        picked
            .iter()
            .take(self.max_concurrent_jobs)
            .map(|p| job(p.1.collection_id.0, &p.1.tenant))
            .collect()
    }
}

impl Backend for InMemory {
    type System = &'static str;
    type Dispatcher = (usize, usize, usize);
    type Scheduler = InMemoryScheduler;
    type Log = Vec<LogRecord>;
    type SysDb = InMemorySysDb;
    type Storage = String;
    type BlockfileProvider = &'static str;
    type HnswIndexProvider = &'static str;
    type AssignmentPolicy = ();
    type LogConfig = ();
    type SysDbConfig = ();
    type StorageConfig = ();
    type AssignmentPolicyConfig = ();
    type BlockfileProviderConfig = ();
    type HnswProviderConfig = ();
    type JobDetails = String;
    type ResultChannel = ();
    type ConfigError = String;
    type OrchestratorError = String;
}

fn job(number: u128, tenant: &str) -> CompactionJob<InMemory> {
    CompactionJob { collection_id: CollectionUuid(number), details: tenant.to_string() }
}

fn response(number: u128) -> CompactionResponse<InMemory> {
    CompactionResponse { compaction_job: job(number, "") }
}

fn manager() -> CompactionManager<InMemory> {
    let my_member = Member {
        member_id: "member_1".to_string(),
        member_ip: "10.0.0.1".to_string(),
        member_node_name: "node_1".to_string(),
    };
    let collection_uuid_1 =
        CollectionUuid::from_str("00000000-0000-0000-0000-000000000001").unwrap();
    let collection_uuid_2 =
        CollectionUuid::from_str("00000000-0000-0000-0000-000000000002").unwrap();
    let log = vec![
        LogRecord {
            collection_id: collection_uuid_1,
            id: "embedding_id_1".to_string(),
            embedding: vec![1.0, 2.0, 3.0],
        },
        LogRecord {
            collection_id: collection_uuid_2,
            id: "embedding_id_2".to_string(),
            embedding: vec![4.0, 5.0, 6.0],
        },
    ];
    let sysdb = InMemorySysDb {
        collections: vec![
            Collection {
                collection_id: collection_uuid_1,
                name: "collection_1".to_string(),
                tenant: "tenant_1".to_string(),
                database: "database_1".to_string(),
            },
            Collection {
                collection_id: collection_uuid_2,
                name: "collection_2".to_string(),
                tenant: "tenant_2".to_string(),
                database: "database_2".to_string(),
            },
        ],
        last_compaction_times: vec![("tenant_1".to_string(), 2), ("tenant_2".to_string(), 1)],
    };
    let max_concurrent_jobs = 10;
    let scheduler = InMemoryScheduler {
        my_member_id: my_member.member_id.clone(),
        max_concurrent_jobs,
        memberlist: vec![my_member.member_id.clone()],
    };
    let compaction_manager_queue_size = 1000;
    let compaction_interval = Interval::from_secs(1);
    let min_compaction_size = 0;
    let max_compaction_size = 1000;
    let max_partition_size = 1000;
    CompactionManager::new(
        scheduler,
        log,
        sysdb,
        "storage".to_string(),
        "blockfiles",
        "indices",
        compaction_manager_queue_size,
        compaction_interval,
        min_compaction_size,
        max_compaction_size,
        max_partition_size,
    )
}

fn ready_manager() -> CompactionManager<InMemory> {
    let mut manager = manager();
    manager.set_dispatcher((10, 10, 10));
    manager.set_system("system");
    manager
}

/// Runs a batch in which every orchestrator succeeds; the runs end in the jobs' order
/// or the other way round.
fn compact_batch(manager: &CompactionManager<InMemory>, backwards: bool) -> Vec<CollectionUuid> {
    let (mut batch, mut request) = CompactionBatch::begin::<InMemory>();
    let jobs = manager.scheduler.jobs(&manager.log, &manager.sysdb);
    let mut running: Vec<CollectionUuid> = Vec::new();
    loop {
        let event = match request {
            BatchRequest::RunScheduler => BatchEvent::Scheduled(&jobs),
            BatchRequest::RunJobs(runs) => {
                for run in &runs {
                    assert!(run.log.iter().any(|r| r.collection_id == run.collection_id));
                    running.push(run.compaction_job.collection_id);
                }
                if !backwards {
                    running.reverse();
                }
                BatchEvent::JobFinished(Ok(response(running.pop().unwrap().0)))
            }
            BatchRequest::AwaitJob => {
                BatchEvent::JobFinished(Ok(response(running.pop().unwrap().0)))
            }
            BatchRequest::Done => break,
        };
        (batch, request) = manager.compact_batch(batch, event);
    }
    match batch {
        CompactionBatch::Finished { compacted } => compacted,
        _ => panic!("the batch is not finished"),
    }
}

#[test]
fn test_compaction_manager() {
    let collection_uuid_1 =
        CollectionUuid::from_str("00000000-0000-0000-0000-000000000001").unwrap();
    let collection_uuid_2 =
        CollectionUuid::from_str("00000000-0000-0000-0000-000000000002").unwrap();
    let mut manager = manager();
    manager.set_dispatcher((10, 10, 10));
    manager.set_system("system");
    for backwards in [false, true] {
        let compacted = compact_batch(&manager, backwards);
        assert!(
            (compacted == vec![collection_uuid_1, collection_uuid_2])
                || (compacted == vec![collection_uuid_2, collection_uuid_1])
        );
    }
}

#[test]
fn a_new_manager_keeps_what_it_was_given() {
    let manager = manager();
    assert!(manager.system.is_none());
    assert!(manager.dispatcher.is_none());
    assert_eq!(manager.scheduler.my_member_id, "member_1");
    assert_eq!(manager.log[0].id, "embedding_id_1");
    assert_eq!(manager.log[1].embedding, vec![4.0, 5.0, 6.0]);
    assert_eq!(manager.sysdb.collections[1].name, "collection_2");
    assert_eq!(manager.sysdb.collections[0].database, "database_1");
    assert_eq!(manager.storage, "storage");
    assert_eq!(manager.blockfile_provider, "blockfiles");
    assert_eq!(manager.hnsw_index_provider, "indices");
    assert_eq!(manager.queue_size(), 1000);
    assert_eq!(manager.compaction_interval, Interval::new(1, 0));
    assert_eq!(manager.min_compaction_size, 0);
    assert_eq!(manager.max_compaction_size, 1000);
    assert_eq!(manager.max_partition_size, 1000);
}

#[test]
fn names_and_texts() {
    assert_eq!(CompactionManager::<InMemory>::get_name(), "Compaction manager");
    assert_eq!(manager().debug_text(), "CompactionManager");
    assert_eq!(CompactionError::FailedToCompact.code(), ErrorCodes::Internal);
    assert_eq!(CompactionError::FailedToCompact.message(), "Failed to compact");
}

#[test]
fn a_job_is_refused_without_dispatcher_or_system() {
    let some_job = job(5, "tenant");
    let mut manager = manager();
    assert_eq!(manager.compact(&some_job).err(), Some(CompactionError::FailedToCompact));
    manager.set_system("system");
    assert_eq!(manager.compact(&some_job).err(), Some(CompactionError::FailedToCompact));
    manager.system = None;
    manager.set_dispatcher((1, 2, 3));
    assert_eq!(manager.compact(&some_job).err(), Some(CompactionError::FailedToCompact));
    manager.set_system("system");
    assert!(manager.compact(&some_job).is_ok());
}

#[test]
fn a_run_is_given_the_managers_services() {
    let mut manager = ready_manager();
    manager.set_dispatcher((1, 2, 3));
    manager.max_compaction_size = 20;
    manager.max_partition_size = 30;
    let some_job = job(5, "tenant");
    let run = manager.compact(&some_job).ok().unwrap();
    assert_eq!(run.collection_id, CollectionUuid(5));
    assert_eq!(run.compaction_job.details, "tenant");
    assert_eq!(run.log.len(), 2);
    assert_eq!(run.sysdb.collections.len(), 2);
    assert_eq!(*run.blockfile_provider, "blockfiles");
    assert_eq!(*run.hnsw_index_provider, "indices");
    assert_eq!(*run.dispatcher, (1, 2, 3));
    assert!(run.result_channel.is_none());
    assert_eq!(run.max_compaction_size, 20);
    assert_eq!(run.max_partition_size, 30);
    assert_eq!(*run.system, "system");
}

#[test]
fn a_run_is_answered_with_what_it_came_to() {
    let done = CompactionManager::<InMemory>::finish_compact(Ok(response(5)));
    assert_eq!(compacted_id(&done), Some(CollectionUuid(5)));
    let failed = CompactionManager::<InMemory>::finish_compact(Err("no space".to_string()));
    assert_eq!(compacted_id(&failed), None);
    assert!(matches!(failed, Err(JobError::Orchestrator(e)) if e == "no space"));
    let refused = Err(JobError::<InMemory>::Refused(CompactionError::FailedToCompact));
    assert_eq!(compacted_id(&refused), None);
}

#[test]
fn dispatcher_and_system_can_be_set_in_any_order_and_again() {
    let mut first = manager();
    first.set_dispatcher((1, 1, 1));
    first.set_dispatcher((2, 2, 2));
    first.set_system("a");
    first.set_system("b");
    let mut second = manager();
    second.set_system("b");
    second.set_dispatcher((2, 2, 2));
    assert_eq!(first.dispatcher, Some((2, 2, 2)));
    assert_eq!(first.system, Some("b"));
    assert_eq!(first.dispatcher, second.dispatcher);
    assert_eq!(first.system, second.system);
    assert_eq!(first.start(), second.start());
}

#[test]
fn a_batch_without_jobs_is_finished_at_once() {
    let manager = ready_manager();
    let jobs = Vec::new();
    let (batch, request) = CompactionBatch::begin::<InMemory>();
    assert!(matches!(request, BatchRequest::RunScheduler));
    let (batch, request) = manager.compact_batch(batch, BatchEvent::Scheduled(&jobs));
    assert!(matches!(request, BatchRequest::Done));
    assert!(matches!(batch, CompactionBatch::Finished { compacted } if compacted.is_empty()));
}

#[test]
fn a_batch_without_dispatcher_or_system_compacts_nothing() {
    let mut manager = manager();
    manager.set_dispatcher((10, 10, 10));
    assert_eq!(compact_batch(&manager, false), Vec::new());
    manager.dispatcher = None;
    manager.set_system("system");
    assert_eq!(compact_batch(&manager, false), Vec::new());
}

#[test]
fn a_batch_returns_what_was_compacted_in_the_order_of_completion() {
    let manager = ready_manager();
    let jobs = vec![job(1, "a"), job(2, "b"), job(3, "c"), job(4, "d")];
    let (batch, _) = CompactionBatch::begin::<InMemory>();
    let (batch, request) = manager.compact_batch(batch, BatchEvent::Scheduled(&jobs));
    let BatchRequest::RunJobs(runs) = request else { panic!("no runs") };
    let ids: Vec<u128> = runs.iter().map(|run| run.collection_id.0).collect();
    assert_eq!(ids, vec![1, 2, 3, 4]);
    let (batch, request) = manager.compact_batch(batch, BatchEvent::JobFinished(Ok(response(3))));
    assert!(matches!(request, BatchRequest::AwaitJob));
    let failure = Err("no space".to_string());
    let (batch, request) = manager.compact_batch(batch, BatchEvent::JobFinished(failure));
    assert!(matches!(request, BatchRequest::AwaitJob));
    let (batch, request) = manager.compact_batch(batch, BatchEvent::JobFinished(Ok(response(1))));
    assert!(matches!(request, BatchRequest::AwaitJob));
    let (batch, request) = manager.compact_batch(batch, BatchEvent::JobFinished(Ok(response(4))));
    assert!(matches!(request, BatchRequest::Done));
    let CompactionBatch::Finished { compacted } = batch else { panic!("not finished") };
    assert_eq!(compacted, vec![CollectionUuid(3), CollectionUuid(1), CollectionUuid(4)]);
}

#[test]
fn a_collection_is_named_by_the_response() {
    let manager = ready_manager();
    let jobs = vec![job(1, "a")];
    let (batch, _) = CompactionBatch::begin::<InMemory>();
    let (batch, _) = manager.compact_batch(batch, BatchEvent::Scheduled(&jobs));
    let (batch, _) = manager.compact_batch(batch, BatchEvent::JobFinished(Ok(response(9))));
    let CompactionBatch::Finished { compacted } = batch else { panic!("not finished") };
    assert_eq!(compacted, vec![CollectionUuid(9)]);
}

#[test]
fn starting_schedules_the_first_round() {
    let mut manager = manager();
    manager.compaction_interval = Interval::new(2, 500_000_000);
    assert_eq!(
        manager.start(),
        ScheduledMessage {
            message: ScheduledCompactionMessage,
            interval: Interval::new(2, 500_000_000),
        }
    );
}

#[test]
fn a_round_compacts_then_purges_then_schedules_the_next() {
    let manager = ready_manager();
    let jobs = vec![job(1, "a"), job(2, "b")];
    let (round, request) = manager.handle_scheduled_compaction(ScheduledCompactionMessage);
    assert!(matches!(request, RoundRequest::Batch(BatchRequest::RunScheduler)));
    let (round, request) =
        manager.continue_round(round, RoundEvent::Batch(BatchEvent::Scheduled(&jobs)));
    assert!(matches!(request, RoundRequest::Batch(BatchRequest::RunJobs(runs)) if runs.len() == 2));
    let (round, request) = manager
        .continue_round(round, RoundEvent::Batch(BatchEvent::JobFinished(Ok(response(2)))));
    assert!(matches!(request, RoundRequest::Batch(BatchRequest::AwaitJob)));
    let failure = Err("no space".to_string());
    let (round, request) =
        manager.continue_round(round, RoundEvent::Batch(BatchEvent::JobFinished(failure)));
    let RoundRequest::PurgeById(ids) = request else { panic!("no purge") };
    assert_eq!(ids, vec![CollectionUuid(2)]);
    assert!(matches!(round, CompactionRound::Purging));
    let (round, request) = manager.continue_round(round, RoundEvent::Purged);
    assert!(matches!(request, RoundRequest::Schedule(message) if message == manager.start()));
    assert!(matches!(round, CompactionRound::Over));
}

#[test]
fn a_round_that_is_refused_still_schedules_the_next() {
    let manager = manager();
    let jobs = vec![job(1, "a")];
    let (round, _) = manager.handle_scheduled_compaction(ScheduledCompactionMessage);
    let (round, request) =
        manager.continue_round(round, RoundEvent::Batch(BatchEvent::Scheduled(&jobs)));
    assert!(matches!(request, RoundRequest::PurgeById(ids) if ids.is_empty()));
    let (_, request) = manager.continue_round(round, RoundEvent::Purged);
    assert!(matches!(request, RoundRequest::Schedule(message) if message == manager.start()));
}

#[test]
fn oneoff_collections_and_members_reach_the_scheduler() {
    let manager = manager();
    let ids = vec![CollectionUuid(3), CollectionUuid(1), CollectionUuid(3)];
    let message = OneOffCompactionMessage { collection_ids: ids.clone() };
    match manager.handle_oneoff_compaction(message) {
        SchedulerCommand::AddOneoffCollections(told) => assert_eq!(told, ids),
        SchedulerCommand::SetMemberlist(_) => panic!("wrong command"),
    }
    let member = Member {
        member_id: "member_1".to_string(),
        member_ip: "10.0.0.1".to_string(),
        member_node_name: "node_1".to_string(),
    };
    match manager.handle_memberlist(Memberlist { members: vec![member] }) {
        SchedulerCommand::SetMemberlist(members) => {
            assert_eq!(members.len(), 1);
            assert_eq!(members[0].member_id, "member_1");
            assert_eq!(members[0].member_ip, "10.0.0.1");
            assert_eq!(members[0].member_node_name, "node_1");
        }
        SchedulerCommand::AddOneoffCollections(_) => panic!("wrong command"),
    }
}

#[test]
fn intervals_are_kept_to_the_nanosecond() {
    let interval = Interval::new(3, 999_999_999);
    assert_eq!(interval.as_secs(), 3);
    assert_eq!(interval.subsec_nanos(), 999_999_999);
    assert_eq!(Interval::from_secs(u64::MAX).as_secs(), u64::MAX);
    assert_eq!(Interval::from_secs(u64::MAX).subsec_nanos(), 0);
}
