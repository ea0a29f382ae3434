//! How a manager is set up from the service's configuration.

use std::collections::HashSet;

use vstd::pervasive::unreached;
use vstd::prelude::*;

use crate::backend::Backend;
use crate::collection::{
    all_collection_ids, checked_disabled_collections, disabled_collections, first_invalid,
    named_collections, numbers, uuid_of_text, InvalidDisabledCollection,
};
use crate::config::CompactionServiceConfig;
use crate::interval::{Interval, NANOS_PER_SEC};
use crate::manager::CompactionManager;

verus! {

/// How the scheduler ranks the collections that it could pick.
#[derive(Clone, Copy, PartialEq, Eq, Structural, Debug)]
pub enum SchedulerPolicy {
    /// By the time of the last compaction.
    LasCompactionTime,
}

/// What the scheduler is made of.
pub struct SchedulerParts<B: Backend> {
    pub my_member_id: String,
    pub log: B::Log,
    pub sysdb: B::SysDb,
    pub policy: SchedulerPolicy,
    pub max_concurrent_jobs: usize,
    pub min_compaction_size: usize,
    pub assignment_policy: B::AssignmentPolicy,
    /// The numbers of the collections that are disabled.
    pub disabled_collections: HashSet<u128>,
}

/// How far the setup has come: the service that is being set up, with those that are
/// there already.
pub enum Startup<B: Backend> {
    Log,
    SysDb { log: B::Log },
    Storage { log: B::Log, sysdb: B::SysDb },
    AssignmentPolicy {
        log: B::Log,
        sysdb: B::SysDb,
        storage: B::Storage,
        disabled_collections: HashSet<u128>,
    },
    Scheduler { log: B::Log, sysdb: B::SysDb, storage: B::Storage },
    BlockfileProvider {
        log: B::Log,
        sysdb: B::SysDb,
        storage: B::Storage,
        scheduler: B::Scheduler,
    },
    HnswIndexProvider {
        log: B::Log,
        sysdb: B::SysDb,
        storage: B::Storage,
        scheduler: B::Scheduler,
        blockfile_provider: B::BlockfileProvider,
    },
}

/// The service that has been set up, or why it could not be.
pub enum StartupEvent<B: Backend> {
    Log(Result<B::Log, B::ConfigError>),
    SysDb(Result<B::SysDb, B::ConfigError>),
    Storage(Result<B::Storage, B::ConfigError>),
    AssignmentPolicy(Result<B::AssignmentPolicy, B::ConfigError>),
    Scheduler(B::Scheduler),
    BlockfileProvider(Result<B::BlockfileProvider, B::ConfigError>),
    HnswIndexProvider(Result<B::HnswIndexProvider, B::ConfigError>),
}

/// The service that is to be set up next, and what from.
pub enum StartupRequest<'a, B: Backend> {
    Log(&'a B::LogConfig),
    SysDb(&'a B::SysDbConfig),
    Storage(&'a B::StorageConfig),
    AssignmentPolicy(&'a B::AssignmentPolicyConfig),
    Scheduler(SchedulerParts<B>),
    BlockfileProvider(&'a B::BlockfileProviderConfig, B::Storage),
    HnswIndexProvider(&'a B::HnswProviderConfig, B::Storage),
}

/// What an event leads to.
pub enum StartupStep<'a, B: Backend> {
    /// The setup goes on.
    Continue(Startup<B>, StartupRequest<'a, B>),
    /// The manager is set up.
    Ready(CompactionManager<B>),
    /// The setup is given up.
    Failed(B::ConfigError),
}

impl<B: Backend> StartupEvent<B> {
    /// Why the service could not be set up, if it could not.
    pub open spec fn error(self) -> Option<B::ConfigError> {
        match self {
            StartupEvent::Log(Err(e)) => Some(e),
            StartupEvent::SysDb(Err(e)) => Some(e),
            StartupEvent::Storage(Err(e)) => Some(e),
            StartupEvent::AssignmentPolicy(Err(e)) => Some(e),
            StartupEvent::BlockfileProvider(Err(e)) => Some(e),
            StartupEvent::HnswIndexProvider(Err(e)) => Some(e),
            _ => None,
        }
    }
}

impl<B: Backend> Startup<B> {
    /// The event tells of the service that is being set up.
    pub open spec fn expects(self, event: StartupEvent<B>) -> bool {
        match event {
            StartupEvent::Log(_) => self is Log,
            StartupEvent::SysDb(_) => self is SysDb,
            StartupEvent::Storage(_) => self is Storage,
            StartupEvent::AssignmentPolicy(_) => self is AssignmentPolicy,
            StartupEvent::Scheduler(_) => self is Scheduler,
            StartupEvent::BlockfileProvider(_) => self is BlockfileProvider,
            StartupEvent::HnswIndexProvider(_) => self is HnswIndexProvider,
        }
    }

    /// Whether the event is the one after which the disabled collections are read.
    pub open spec fn reads_disabled_collections(event: StartupEvent<B>) -> bool {
        event matches StartupEvent::Storage(storage) && storage is Ok
    }

    /// What the setup comes to after an event that it waits for.
    pub open spec fn leads_to(
        self,
        config: CompactionServiceConfig<B>,
        event: StartupEvent<B>,
        step: StartupStep<B>,
    ) -> bool {
        if event.error() is Some {
            step == StartupStep::<B>::Failed(event.error()->0)
        } else {
            match (self, event) {
                (Startup::Log, StartupEvent::Log(Ok(log))) => {
                    &&& step matches StartupStep::Continue(next, request)
                    &&& next == Startup::<B>::SysDb { log }
                    &&& request matches StartupRequest::SysDb(sysdb_config)
                    &&& *sysdb_config == config.sysdb
                },
                (Startup::SysDb { log }, StartupEvent::SysDb(Ok(sysdb))) => {
                    &&& step matches StartupStep::Continue(next, request)
                    &&& next == Startup::<B>::Storage { log, sysdb }
                    &&& request matches StartupRequest::Storage(storage_config)
                    &&& *storage_config == config.storage
                },
                (Startup::Storage { log, sysdb }, StartupEvent::Storage(Ok(storage))) => {
                    &&& step matches StartupStep::Continue(next, request)
                    &&& next matches Startup::AssignmentPolicy {
                        log: next_log,
                        sysdb: next_sysdb,
                        storage: next_storage,
                        disabled_collections,
                    }
                    &&& next_log == log && next_sysdb == sysdb && next_storage == storage
                    &&& disabled_collections@ == numbers(
                        named_collections(config.compactor.disabled_collections@),
                    )
                    &&& request matches StartupRequest::AssignmentPolicy(policy_config)
                    &&& *policy_config == config.assignment_policy
                },
                (
                    Startup::AssignmentPolicy { log, sysdb, storage, disabled_collections },
                    StartupEvent::AssignmentPolicy(Ok(assignment_policy)),
                ) => {
                    &&& step matches StartupStep::Continue(next, request)
                    &&& next == Startup::<B>::Scheduler { log, sysdb, storage }
                    &&& request matches StartupRequest::Scheduler(parts)
                    &&& parts.my_member_id@ == config.my_member_id@
                    &&& cloned(log, parts.log)
                    &&& cloned(sysdb, parts.sysdb)
                    &&& parts.policy == SchedulerPolicy::LasCompactionTime
                    &&& parts.max_concurrent_jobs == config.compactor.max_concurrent_jobs
                    &&& parts.min_compaction_size == config.compactor.min_compaction_size
                    &&& parts.assignment_policy == assignment_policy
                    &&& parts.disabled_collections == disabled_collections
                },
                (Startup::Scheduler { log, sysdb, storage }, StartupEvent::Scheduler(scheduler)) => {
                    &&& step matches StartupStep::Continue(next, request)
                    &&& next == Startup::<B>::BlockfileProvider { log, sysdb, storage, scheduler }
                    &&& request matches StartupRequest::BlockfileProvider(
                        provider_config,
                        provider_storage,
                    )
                    &&& *provider_config == config.blockfile_provider
                    &&& cloned(storage, provider_storage)
                },
                (
                    Startup::BlockfileProvider { log, sysdb, storage, scheduler },
                    StartupEvent::BlockfileProvider(Ok(blockfile_provider)),
                ) => {
                    &&& step matches StartupStep::Continue(next, request)
                    &&& next == Startup::<B>::HnswIndexProvider {
                        log,
                        sysdb,
                        storage,
                        scheduler,
                        blockfile_provider,
                    }
                    &&& request matches StartupRequest::HnswIndexProvider(
                        provider_config,
                        provider_storage,
                    )
                    &&& *provider_config == config.hnsw_provider
                    &&& cloned(storage, provider_storage)
                },
                (
                    Startup::HnswIndexProvider {
                        log,
                        sysdb,
                        storage,
                        scheduler,
                        blockfile_provider,
                    },
                    StartupEvent::HnswIndexProvider(Ok(hnsw_index_provider)),
                ) => {
                    &&& step matches StartupStep::Ready(manager)
                    &&& manager.system is None
                    &&& manager.scheduler == scheduler
                    &&& manager.log == log
                    &&& manager.sysdb == sysdb
                    &&& manager.storage == storage
                    &&& manager.blockfile_provider == blockfile_provider
                    &&& manager.hnsw_index_provider == hnsw_index_provider
                    &&& manager.dispatcher is None
                    &&& manager.compaction_manager_queue_size
                        == config.compactor.compaction_manager_queue_size
                    &&& manager.compaction_interval@
                        == config.compactor.compaction_interval_sec * NANOS_PER_SEC
                    &&& manager.min_compaction_size == config.compactor.min_compaction_size
                    &&& manager.max_compaction_size == config.compactor.max_compaction_size
                    &&& manager.max_partition_size == config.compactor.max_partition_size
                },
                _ => false,
            }
        }
    }

    /// Begins the setup: the log comes first.
    pub fn begin<'a>(config: &'a CompactionServiceConfig<B>) -> (res: (
        Startup<B>,
        StartupRequest<'a, B>,
    ))
        ensures
            res.0 is Log,
            res.1 matches StartupRequest::Log(log_config) && *log_config == config.log,
    {
        (Startup::Log, StartupRequest::Log(&config.log))
    }

}

impl<B: Backend> CompactionManager<B> {
    /// Carries the setup of a manager on after an event that it waits for.
    pub fn try_from_config<'a>(
        startup: Startup<B>,
        config: &'a CompactionServiceConfig<B>,
        event: StartupEvent<B>,
    ) -> (step: StartupStep<'a, B>)
        requires
            startup.expects(event),
            Startup::reads_disabled_collections(event) ==> all_collection_ids(
                config.compactor.disabled_collections@,
            ),
        ensures
            startup.leads_to(*config, event, step),
    {
        match (startup, event) {
            (Startup::Log, StartupEvent::Log(result)) => match result {
                Ok(log) => StartupStep::Continue(
                    Startup::SysDb { log },
                    StartupRequest::SysDb(&config.sysdb),
                ),
                Err(e) => StartupStep::Failed(e),
            },
            (Startup::SysDb { log }, StartupEvent::SysDb(result)) => match result {
                Ok(sysdb) => StartupStep::Continue(
                    Startup::Storage { log, sysdb },
                    StartupRequest::Storage(&config.storage),
                ),
                Err(e) => StartupStep::Failed(e),
            },
            (Startup::Storage { log, sysdb }, StartupEvent::Storage(result)) => match result {
                Ok(storage) => {
                    let disabled_collections = disabled_collections(
                        &config.compactor.disabled_collections,
                    );
                    StartupStep::Continue(
                        Startup::AssignmentPolicy { log, sysdb, storage, disabled_collections },
                        StartupRequest::AssignmentPolicy(&config.assignment_policy),
                    )
                },
                Err(e) => StartupStep::Failed(e),
            },
            (
                Startup::AssignmentPolicy { log, sysdb, storage, disabled_collections },
                StartupEvent::AssignmentPolicy(result),
            ) => match result {
                Ok(assignment_policy) => {
                    let parts = SchedulerParts {
                        my_member_id: config.my_member_id.clone(),
                        log: log.clone(),
                        sysdb: sysdb.clone(),
                        policy: SchedulerPolicy::LasCompactionTime,
                        max_concurrent_jobs: config.compactor.max_concurrent_jobs,
                        min_compaction_size: config.compactor.min_compaction_size,
                        assignment_policy,
                        disabled_collections,
                    };
                    StartupStep::Continue(
                        Startup::Scheduler { log, sysdb, storage },
                        StartupRequest::Scheduler(parts),
                    )
                },
                Err(e) => StartupStep::Failed(e),
            },
            (Startup::Scheduler { log, sysdb, storage }, StartupEvent::Scheduler(scheduler)) => {
                let provider_storage = storage.clone();
                StartupStep::Continue(
                    Startup::BlockfileProvider { log, sysdb, storage, scheduler },
                    StartupRequest::BlockfileProvider(&config.blockfile_provider, provider_storage),
                )
            },
            (
                Startup::BlockfileProvider { log, sysdb, storage, scheduler },
                StartupEvent::BlockfileProvider(result),
            ) => match result {
                Ok(blockfile_provider) => {
                    let provider_storage = storage.clone();
                    StartupStep::Continue(
                        Startup::HnswIndexProvider {
                            log,
                            sysdb,
                            storage,
                            scheduler,
                            blockfile_provider,
                        },
                        StartupRequest::HnswIndexProvider(&config.hnsw_provider, provider_storage),
                    )
                },
                Err(e) => StartupStep::Failed(e),
            },
            (
                Startup::HnswIndexProvider { log, sysdb, storage, scheduler, blockfile_provider },
                StartupEvent::HnswIndexProvider(result),
            ) => match result {
                Ok(hnsw_index_provider) => StartupStep::Ready(
                    CompactionManager::new(
                        scheduler,
                        log,
                        sysdb,
                        storage,
                        blockfile_provider,
                        hnsw_index_provider,
                        config.compactor.compaction_manager_queue_size,
                        Interval::from_secs(config.compactor.compaction_interval_sec),
                        config.compactor.min_compaction_size,
                        config.compactor.max_compaction_size,
                        config.compactor.max_partition_size,
                    ),
                ),
                Err(e) => StartupStep::Failed(e),
            },
            (_, _) => unreached(),
        }
    }

    /// Like `try_from_config`, for a configuration whose disabled collections have not
    /// been looked at: tells of the first that is no collection's identifier when the
    /// setup comes to read them.
    pub fn checked_try_from_config<'a>(
        startup: Startup<B>,
        config: &'a CompactionServiceConfig<B>,
        event: StartupEvent<B>,
    ) -> (res: Result<StartupStep<'a, B>, InvalidDisabledCollection>)
        requires
            startup.expects(event),
        ensures
            res is Ok <==> (Startup::reads_disabled_collections(event) ==> all_collection_ids(
                config.compactor.disabled_collections@,
            )),
            res is Err <==> {
                &&& event matches StartupEvent::Storage(Ok(_))
                &&& exists|i: int|
                    0 <= i < config.compactor.disabled_collections@.len() && uuid_of_text(
                        #[trigger] config.compactor.disabled_collections@[i]@,
                    ) is None
            },
            res matches Ok(step) ==> startup.leads_to(*config, event, step),
            res matches Err(e) ==> first_invalid(config.compactor.disabled_collections@, e),
            res matches Err(e) ==> {
                &&& e.index < config.compactor.disabled_collections@.len()
                &&& uuid_of_text(config.compactor.disabled_collections@[e.index as int]@) is None
                &&& forall|i: int|
                    0 <= i < e.index ==> uuid_of_text(
                        #[trigger] config.compactor.disabled_collections@[i]@,
                    ) is Some
            },
    {
        if let StartupEvent::Storage(Ok(_)) = &event {
            if let Err(e) = checked_disabled_collections(&config.compactor.disabled_collections) {
                return Err(e);
            }
        }
        Ok(Self::try_from_config(startup, config, event))
    }
}

} // verus!
