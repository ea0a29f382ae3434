//! The compaction manager and the jobs that it runs.

use vstd::prelude::*;

use crate::backend::Backend;
use crate::error::CompactionError;
use crate::interval::Interval;
use crate::job::{CompactionJob, CompactionResponse, JobError, JobOutcome, OrchestratorRun};

verus! {

pub struct CompactionManager<B: Backend> {
    pub system: Option<B::System>,
    pub scheduler: B::Scheduler,
    pub log: B::Log,
    pub sysdb: B::SysDb,
    pub storage: B::Storage,
    pub blockfile_provider: B::BlockfileProvider,
    pub hnsw_index_provider: B::HnswIndexProvider,
    pub dispatcher: Option<B::Dispatcher>,
    pub compaction_manager_queue_size: usize,
    pub compaction_interval: Interval,
    pub min_compaction_size: usize,
    pub max_compaction_size: usize,
    pub max_partition_size: usize,
}

impl<B: Backend> CompactionManager<B> {
    /// The manager has what it takes to run jobs: a dispatcher and a system.
    pub open spec fn can_run_jobs(self) -> bool {
        self.dispatcher is Some && self.system is Some
    }

    /// The manager with another dispatcher.
    pub open spec fn with_dispatcher(self, dispatcher: B::Dispatcher) -> Self {
        CompactionManager { dispatcher: Some(dispatcher), ..self }
    }

    /// The manager with another system.
    pub open spec fn with_system(self, system: B::System) -> Self {
        CompactionManager { system: Some(system), ..self }
    }

    /// A run compacts a job with the manager's own services and limits, and reports
    /// to no channel.
    pub open spec fn runs(self, compaction_job: CompactionJob<B>, run: OrchestratorRun<B>) -> bool {
        &&& self.dispatcher == Some(*run.dispatcher)
        &&& self.system == Some(*run.system)
        &&& *run.compaction_job == compaction_job
        &&& run.collection_id == compaction_job.collection_id
        &&& *run.log == self.log
        &&& *run.sysdb == self.sysdb
        &&& *run.blockfile_provider == self.blockfile_provider
        &&& *run.hnsw_index_provider == self.hnsw_index_provider
        &&& run.result_channel is None
        &&& run.max_compaction_size == self.max_compaction_size
        &&& run.max_partition_size == self.max_partition_size
    }

    /// What becomes of a job that was run, by how the run ended.
    pub open spec fn run_result(outcome: JobOutcome<B>) -> Result<
        CompactionResponse<B>,
        JobError<B>,
    > {
        match outcome {
            Ok(response) => Ok(response),
            Err(error) => Err(JobError::Orchestrator(error)),
        }
    }

    /// What becomes of a job whose run, if there is one, ends with `outcome`.
    pub open spec fn job_result(self, outcome: JobOutcome<B>) -> Result<
        CompactionResponse<B>,
        JobError<B>,
    > {
        if self.can_run_jobs() {
            Self::run_result(outcome)
        } else {
            Err(JobError::Refused(CompactionError::FailedToCompact))
        }
    }

    pub fn new(
        scheduler: B::Scheduler,
        log: B::Log,
        sysdb: B::SysDb,
        storage: B::Storage,
        blockfile_provider: B::BlockfileProvider,
        hnsw_index_provider: B::HnswIndexProvider,
        compaction_manager_queue_size: usize,
        compaction_interval: Interval,
        min_compaction_size: usize,
        max_compaction_size: usize,
        max_partition_size: usize,
    ) -> (manager: Self)
        ensures
            manager.system is None,
            manager.scheduler == scheduler,
            manager.log == log,
            manager.sysdb == sysdb,
            manager.storage == storage,
            manager.blockfile_provider == blockfile_provider,
            manager.hnsw_index_provider == hnsw_index_provider,
            manager.dispatcher is None,
            manager.compaction_manager_queue_size == compaction_manager_queue_size,
            manager.compaction_interval == compaction_interval,
            manager.min_compaction_size == min_compaction_size,
            manager.max_compaction_size == max_compaction_size,
            manager.max_partition_size == max_partition_size,
    {
        CompactionManager {
            system: None,
            scheduler,
            log,
            sysdb,
            storage,
            blockfile_provider,
            hnsw_index_provider,
            dispatcher: None,
            compaction_manager_queue_size,
            compaction_interval,
            min_compaction_size,
            max_compaction_size,
            max_partition_size,
        }
    }

    pub fn set_dispatcher(&mut self, dispatcher: B::Dispatcher)
        ensures
            *final(self) == old(self).with_dispatcher(dispatcher),
            final(self).dispatcher == Some(dispatcher),
            final(self).system == old(self).system,
            final(self).scheduler == old(self).scheduler,
            final(self).log == old(self).log,
            final(self).sysdb == old(self).sysdb,
            final(self).storage == old(self).storage,
            final(self).blockfile_provider == old(self).blockfile_provider,
            final(self).hnsw_index_provider == old(self).hnsw_index_provider,
            final(self).compaction_manager_queue_size == old(self).compaction_manager_queue_size,
            final(self).compaction_interval == old(self).compaction_interval,
            final(self).min_compaction_size == old(self).min_compaction_size,
            final(self).max_compaction_size == old(self).max_compaction_size,
            final(self).max_partition_size == old(self).max_partition_size,
    {
        self.dispatcher = Some(dispatcher);
    }

    pub fn set_system(&mut self, system: B::System)
        ensures
            *final(self) == old(self).with_system(system),
            final(self).system == Some(system),
            final(self).dispatcher == old(self).dispatcher,
            final(self).scheduler == old(self).scheduler,
            final(self).log == old(self).log,
            final(self).sysdb == old(self).sysdb,
            final(self).storage == old(self).storage,
            final(self).blockfile_provider == old(self).blockfile_provider,
            final(self).hnsw_index_provider == old(self).hnsw_index_provider,
            final(self).compaction_manager_queue_size == old(self).compaction_manager_queue_size,
            final(self).compaction_interval == old(self).compaction_interval,
            final(self).min_compaction_size == old(self).min_compaction_size,
            final(self).max_compaction_size == old(self).max_compaction_size,
            final(self).max_partition_size == old(self).max_partition_size,
    {
        self.system = Some(system);
    }

    /// The run that compacts a job, or the error that the job is refused with.
    ///
    /// What the run ends with goes to `finish_compact`.
    pub fn compact<'a>(&'a self, compaction_job: &'a CompactionJob<B>) -> (res: Result<
        OrchestratorRun<'a, B>,
        CompactionError,
    >)
        ensures
            res is Ok <==> self.can_run_jobs(),
            res is Ok <==> self.dispatcher is Some && self.system is Some,
            res matches Ok(run) ==> self.runs(*compaction_job, run),
            res matches Ok(run) ==> {
                &&& run.compaction_job == compaction_job
                &&& run.collection_id == compaction_job.collection_id
                &&& *run.log == self.log
                &&& *run.sysdb == self.sysdb
                &&& *run.blockfile_provider == self.blockfile_provider
                &&& *run.hnsw_index_provider == self.hnsw_index_provider
                &&& Some(*run.dispatcher) == self.dispatcher
                &&& run.result_channel is None
                &&& run.max_compaction_size == self.max_compaction_size
                &&& run.max_partition_size == self.max_partition_size
                &&& Some(*run.system) == self.system
            },
            res matches Err(error) ==> error == CompactionError::FailedToCompact,
    {
        let dispatcher = match &self.dispatcher {
            Some(dispatcher) => dispatcher,
            None => {
                return Err(CompactionError::FailedToCompact);
            },
        };
        match &self.system {
            Some(system) => Ok(
                OrchestratorRun {
                    compaction_job,
                    collection_id: compaction_job.collection_id,
                    log: &self.log,
                    sysdb: &self.sysdb,
                    blockfile_provider: &self.blockfile_provider,
                    hnsw_index_provider: &self.hnsw_index_provider,
                    dispatcher,
                    result_channel: None,
                    max_compaction_size: self.max_compaction_size,
                    max_partition_size: self.max_partition_size,
                    system,
                },
            ),
            None => Err(CompactionError::FailedToCompact),
        }
    }

    /// What becomes of a job that was run.
    pub fn finish_compact(outcome: JobOutcome<B>) -> (res: Result<
        CompactionResponse<B>,
        JobError<B>,
    >)
        ensures
            res == Self::run_result(outcome),
            outcome matches Ok(response) ==> res == Ok::<CompactionResponse<B>, JobError<B>>(
                response,
            ),
            outcome matches Err(error) ==> res == Err::<CompactionResponse<B>, JobError<B>>(
                JobError::Orchestrator(error),
            ),
    {
        match outcome {
            Ok(response) => Ok(response),
            Err(error) => Err(JobError::Orchestrator(error)),
        }
    }

    pub fn get_name() -> (name: &'static str)
        ensures
            name@ == "Compaction manager"@,
    {
        "Compaction manager"
    }

    pub fn queue_size(&self) -> (size: usize)
        ensures
            size == self.compaction_manager_queue_size,
    {
        self.compaction_manager_queue_size
    }

    /// How the manager is shown when debugging: by its type's name alone.
    pub fn debug_text(&self) -> (text: &'static str)
        ensures
            text@ == "CompactionManager"@,
    {
        "CompactionManager"
    }
}

} // verus!
