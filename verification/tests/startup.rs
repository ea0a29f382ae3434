use compaction_manager::backend::Backend;
use compaction_manager::collection::InvalidDisabledCollection;
use compaction_manager::config::{CompactionServiceConfig, CompactorConfig};
use compaction_manager::interval::Interval;
use compaction_manager::manager::CompactionManager;
use compaction_manager::startup::{
    SchedulerParts, SchedulerPolicy, Startup, StartupEvent, StartupRequest, StartupStep,
};

struct Named;

impl Backend for Named {
    type System = ();
    type Dispatcher = ();
    type Scheduler = SchedulerParts<Named>;
    type Log = String;
    type SysDb = String;
    type Storage = String;
    type BlockfileProvider = String;
    type HnswIndexProvider = String;
    type AssignmentPolicy = String;
    type LogConfig = String;
    type SysDbConfig = String;
    type StorageConfig = String;
    type AssignmentPolicyConfig = String;
    type BlockfileProviderConfig = String;
    type HnswProviderConfig = String;
    type JobDetails = ();
    type ResultChannel = ();
    type ConfigError = String;
    type OrchestratorError = ();
}

fn config(disabled: &[&str]) -> CompactionServiceConfig<Named> {
    CompactionServiceConfig {
        my_member_id: "member_1".to_string(),
        log: "log".to_string(),
        sysdb: "sysdb".to_string(),
        storage: "storage".to_string(),
        assignment_policy: "policy".to_string(),
        blockfile_provider: "blockfiles".to_string(),
        hnsw_provider: "indices".to_string(),
        compactor: CompactorConfig {
            compaction_manager_queue_size: 1000,
            max_concurrent_jobs: 10,
            compaction_interval_sec: 60,
            min_compaction_size: 5,
            max_compaction_size: 6,
            max_partition_size: 7,
            disabled_collections: disabled.iter().map(|text| text.to_string()).collect(),
        },
    }
}

enum End {
    Ready(CompactionManager<Named>),
    Failed(String),
    Invalid(InvalidDisabledCollection),
}

/// Sets a manager up from services that come up under their configuration's name,
/// but for one that fails; tells which services were asked for.
fn set_up(config: &CompactionServiceConfig<Named>, failing: &str) -> (End, Vec<String>) {
    let mut asked: Vec<String> = Vec::new();
    let (mut startup, mut request) = Startup::begin(config);
    let mut open = |name: &String| -> Result<String, String> {
        asked.push(name.clone());
        if name == failing {
            Err(format!("{} is down", name))
        } else {
            Ok(name.clone())
        }
    };
    let end = loop {
        let event = match request {
            StartupRequest::Log(name) => StartupEvent::Log(open(name)),
            StartupRequest::SysDb(name) => StartupEvent::SysDb(open(name)),
            StartupRequest::Storage(name) => StartupEvent::Storage(open(name)),
            StartupRequest::AssignmentPolicy(name) => StartupEvent::AssignmentPolicy(open(name)),
            StartupRequest::Scheduler(parts) => StartupEvent::Scheduler(parts),
            StartupRequest::BlockfileProvider(name, storage) => {
                assert_eq!(storage, "storage");
                StartupEvent::BlockfileProvider(open(name))
            }
            StartupRequest::HnswIndexProvider(name, storage) => {
                assert_eq!(storage, "storage");
                StartupEvent::HnswIndexProvider(open(name))
            }
        };
        match CompactionManager::checked_try_from_config(startup, config, event) {
            Ok(StartupStep::Continue(next, next_request)) => {
                startup = next;
                request = next_request;
            }
            Ok(StartupStep::Ready(manager)) => break End::Ready(manager),
            Ok(StartupStep::Failed(error)) => break End::Failed(error),
            Err(invalid) => break End::Invalid(invalid),
        }
    };
    (end, asked)
}

const ORDER: [&str; 6] = ["log", "sysdb", "storage", "policy", "blockfiles", "indices"];

#[test]
fn a_manager_comes_out_of_the_configuration() {
    let config = config(&[
        "00000000-0000-0000-0000-000000000001",
        "00000000-0000-0000-0000-000000000002",
        "00000000-0000-0000-0000-000000000001",
    ]);
    let (end, asked) = set_up(&config, "");
    assert_eq!(asked, ORDER);
    let End::Ready(manager) = end else { panic!("no manager") };
    assert!(manager.system.is_none());
    assert!(manager.dispatcher.is_none());
    assert_eq!(manager.log, "log");
    assert_eq!(manager.sysdb, "sysdb");
    assert_eq!(manager.storage, "storage");
    assert_eq!(manager.blockfile_provider, "blockfiles");
    assert_eq!(manager.hnsw_index_provider, "indices");
    assert_eq!(manager.queue_size(), 1000);
    assert_eq!(manager.compaction_interval, Interval::from_secs(60));
    assert_eq!(manager.min_compaction_size, 5);
    assert_eq!(manager.max_compaction_size, 6);
    assert_eq!(manager.max_partition_size, 7);
    let scheduler = manager.scheduler;
    assert_eq!(scheduler.my_member_id, "member_1");
    assert_eq!(scheduler.log, "log");
    assert_eq!(scheduler.sysdb, "sysdb");
    assert_eq!(scheduler.policy, SchedulerPolicy::LasCompactionTime);
    assert_eq!(scheduler.max_concurrent_jobs, 10);
    assert_eq!(scheduler.min_compaction_size, 5);
    assert_eq!(scheduler.assignment_policy, "policy");
    assert_eq!(scheduler.disabled_collections.len(), 2);
    assert!(scheduler.disabled_collections.contains(&1));
    assert!(scheduler.disabled_collections.contains(&2));
}

#[test]
fn the_first_service_that_fails_ends_the_setup() {
    let config = config(&[]);
    for i in 0..ORDER.len() {
        let (end, asked) = set_up(&config, ORDER[i]);
        let End::Failed(error) = end else { panic!("no failure") };
        assert_eq!(error, format!("{} is down", ORDER[i]));
        assert_eq!(asked, ORDER[..i + 1]);
    }
}

#[test]
fn disabled_collections_are_read_once_the_storage_is_there() {
    let config = config(&["00000000-0000-0000-0000-000000000001", "one"]);
    let (end, asked) = set_up(&config, "");
    let End::Invalid(invalid) = end else { panic!("not noticed") };
    assert_eq!(invalid, InvalidDisabledCollection { index: 1 });
    assert_eq!(asked, ORDER[..3]);
    let (end, _) = set_up(&config, "storage");
    assert!(matches!(end, End::Failed(error) if error == "storage is down"));
}

#[test]
fn a_configuration_that_was_looked_at_needs_no_check() {
    let config = config(&["00000000-0000-0000-0000-000000000001"]);
    let startup = Startup::Storage { log: "log".to_string(), sysdb: "sysdb".to_string() };
    let event = StartupEvent::Storage(Ok("storage".to_string()));
    match CompactionManager::try_from_config(startup, &config, event) {
        StartupStep::Continue(
            Startup::AssignmentPolicy { disabled_collections, .. },
            StartupRequest::AssignmentPolicy(name),
        ) => {
            assert!(disabled_collections.contains(&1));
            assert_eq!(name, "policy");
        }
        _ => panic!("the setup does not go on"),
    }
}
