//! What a manager needs to run jobs, and how it answers without.

use vstd::prelude::*;

use crate::backend::Backend;
use crate::error::CompactionError;
use crate::job::{CompactionJob, CompactionResponse, JobError, JobOutcome, OrchestratorRun};
use crate::manager::CompactionManager;

verus! {

/// A run is made for a job by a manager if and only if it compacts that very job and its
/// collection, with the manager's services and limits, on the manager's system.
pub proof fn run_is_made_of_the_job_and_the_manager<'a, B: Backend>(
    manager: CompactionManager<B>,
    job: CompactionJob<B>,
    run: OrchestratorRun<'a, B>,
)
    ensures
        manager.runs(job, run) <==> {
            &&& *run.compaction_job == job
            &&& run.collection_id == job.collection_id
            &&& *run.log == manager.log
            &&& *run.sysdb == manager.sysdb
            &&& *run.blockfile_provider == manager.blockfile_provider
            &&& *run.hnsw_index_provider == manager.hnsw_index_provider
            &&& manager.dispatcher == Some(*run.dispatcher)
            &&& run.result_channel is None
            &&& run.max_compaction_size == manager.max_compaction_size
            &&& run.max_partition_size == manager.max_partition_size
            &&& manager.system == Some(*run.system)
        },
{
}

/// A run is for one job only: jobs whose runs are the same are the same.
pub proof fn run_tells_its_job<'a, B: Backend>(
    manager: CompactionManager<B>,
    first: CompactionJob<B>,
    second: CompactionJob<B>,
    run: OrchestratorRun<'a, B>,
)
    requires
        manager.runs(first, run),
        manager.runs(second, run),
    ensures
        first == second,
        run.collection_id == first.collection_id,
{
}

/// Giving a manager a dispatcher changes nothing but its dispatcher.
pub proof fn setting_the_dispatcher_keeps_the_rest<B: Backend>(
    manager: CompactionManager<B>,
    dispatcher: B::Dispatcher,
)
    ensures
        ({
            let after = manager.with_dispatcher(dispatcher);
            &&& after.dispatcher == Some(dispatcher)
            &&& after.system == manager.system
            &&& after.scheduler == manager.scheduler
            &&& after.log == manager.log
            &&& after.sysdb == manager.sysdb
            &&& after.storage == manager.storage
            &&& after.blockfile_provider == manager.blockfile_provider
            &&& after.hnsw_index_provider == manager.hnsw_index_provider
            &&& after.compaction_manager_queue_size == manager.compaction_manager_queue_size
            &&& after.compaction_interval == manager.compaction_interval
            &&& after.min_compaction_size == manager.min_compaction_size
            &&& after.max_compaction_size == manager.max_compaction_size
            &&& after.max_partition_size == manager.max_partition_size
        }),
{
}

/// Giving a manager a system changes nothing but its system.
pub proof fn setting_the_system_keeps_the_rest<B: Backend>(
    manager: CompactionManager<B>,
    system: B::System,
)
    ensures
        ({
            let after = manager.with_system(system);
            &&& after.system == Some(system)
            &&& after.dispatcher == manager.dispatcher
            &&& after.scheduler == manager.scheduler
            &&& after.log == manager.log
            &&& after.sysdb == manager.sysdb
            &&& after.storage == manager.storage
            &&& after.blockfile_provider == manager.blockfile_provider
            &&& after.hnsw_index_provider == manager.hnsw_index_provider
            &&& after.compaction_manager_queue_size == manager.compaction_manager_queue_size
            &&& after.compaction_interval == manager.compaction_interval
            &&& after.min_compaction_size == manager.min_compaction_size
            &&& after.max_compaction_size == manager.max_compaction_size
            &&& after.max_partition_size == manager.max_partition_size
        }),
{
}

/// A run that is made once dispatcher and system are set uses these two, and the services
/// and limits that the manager was made with.
pub proof fn runs_keep_what_the_manager_was_made_with<'a, B: Backend>(
    manager: CompactionManager<B>,
    dispatcher: B::Dispatcher,
    system: B::System,
    job: CompactionJob<B>,
    run: OrchestratorRun<'a, B>,
)
    requires
        manager.with_dispatcher(dispatcher).with_system(system).runs(job, run),
    ensures
        *run.dispatcher == dispatcher,
        *run.system == system,
        run.max_compaction_size == manager.max_compaction_size,
        run.max_partition_size == manager.max_partition_size,
        *run.log == manager.log,
        *run.sysdb == manager.sysdb,
        *run.blockfile_provider == manager.blockfile_provider,
        *run.hnsw_index_provider == manager.hnsw_index_provider,
        *run.compaction_job == job,
        run.collection_id == job.collection_id,
{
}

/// The order in which a manager is given its dispatcher and its system does not matter.
pub proof fn setting_dispatcher_and_system_commutes<B: Backend>(
    manager: CompactionManager<B>,
    dispatcher: B::Dispatcher,
    system: B::System,
)
    ensures
        manager.with_dispatcher(dispatcher).with_system(system) == manager.with_system(
            system,
        ).with_dispatcher(dispatcher),
{
}

/// A manager uses the dispatcher and the system that it was given last.
pub proof fn last_setting_counts<B: Backend>(
    manager: CompactionManager<B>,
    first_dispatcher: B::Dispatcher,
    dispatcher: B::Dispatcher,
    first_system: B::System,
    system: B::System,
)
    ensures
        manager.with_dispatcher(first_dispatcher).with_dispatcher(dispatcher)
            == manager.with_dispatcher(dispatcher),
        manager.with_system(first_system).with_system(system) == manager.with_system(system),
{
}

/// A manager without dispatcher and system runs jobs once it has been given both, and
/// not before.
pub proof fn jobs_are_run_once_both_are_set<B: Backend>(
    manager: CompactionManager<B>,
    dispatcher: B::Dispatcher,
    system: B::System,
)
    requires
        manager.dispatcher is None,
        manager.system is None,
    ensures
        !manager.can_run_jobs(),
        !manager.with_dispatcher(dispatcher).can_run_jobs(),
        !manager.with_system(system).can_run_jobs(),
        manager.with_dispatcher(dispatcher).with_system(system).can_run_jobs(),
{
}

/// A job is refused if and only if the dispatcher or the system is missing, and always
/// with the same error; a job that is run is answered with what its run came to.
pub proof fn refusal_depends_on_dispatcher_and_system_alone<B: Backend>(
    manager: CompactionManager<B>,
    outcome: JobOutcome<B>,
)
    ensures
        manager.job_result(outcome) == Err::<CompactionResponse<B>, JobError<B>>(
            JobError::Refused(CompactionError::FailedToCompact),
        ) <==> manager.dispatcher is None || manager.system is None,
        manager.can_run_jobs() <==> manager.dispatcher is Some && manager.system is Some,
        manager.dispatcher is Some && manager.system is Some ==> {
            &&& outcome matches Ok(response) ==> manager.job_result(outcome) == Ok::<
                CompactionResponse<B>,
                JobError<B>,
            >(response)
            &&& outcome matches Err(error) ==> manager.job_result(outcome) == Err::<
                CompactionResponse<B>,
                JobError<B>,
            >(JobError::Orchestrator(error))
            &&& manager.job_result(outcome) == CompactionManager::run_result(outcome)
        },
{
}

/// Giving a manager a dispatcher or a system leaves its schedule and its queue alone.
pub proof fn settings_keep_the_schedule<B: Backend>(
    manager: CompactionManager<B>,
    dispatcher: B::Dispatcher,
    system: B::System,
)
    ensures
        manager.next_round().interval == manager.compaction_interval,
        manager.with_dispatcher(dispatcher).next_round() == manager.next_round(),
        manager.with_system(system).next_round() == manager.next_round(),
        manager.with_dispatcher(dispatcher).compaction_manager_queue_size
            == manager.compaction_manager_queue_size,
        manager.with_system(system).compaction_manager_queue_size
            == manager.compaction_manager_queue_size,
{
}

} // verus!
