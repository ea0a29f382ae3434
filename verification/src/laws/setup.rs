//! What the setup of a manager goes through.

use vstd::prelude::*;

use crate::backend::Backend;
use crate::collection::{named_collections, numbers, uuid_of_text};
use crate::config::CompactionServiceConfig;
use crate::interval::NANOS_PER_SEC;
use crate::laws::collections::disabled_if_and_only_if_listed;
use crate::startup::{SchedulerPolicy, Startup, StartupEvent, StartupRequest, StartupStep};

verus! {

/// The state in which the setup meets the event at a position.
pub open spec fn startup_at<'a, B: Backend>(steps: Seq<StartupStep<'a, B>>, i: int) -> Startup<B> {
    if i == 0 {
        Startup::Log
    } else {
        steps[i - 1]->Continue_0
    }
}

/// `steps` is what the setup comes to, event by event, as long as it goes on.
pub open spec fn is_setup<'a, B: Backend>(
    config: CompactionServiceConfig<B>,
    events: Seq<StartupEvent<B>>,
    steps: Seq<StartupStep<'a, B>>,
) -> bool {
    &&& steps.len() == events.len()
    &&& forall|i: int|
        0 <= i < steps.len() ==> {
            &&& i > 0 ==> steps[i - 1] is Continue
            &&& startup_at(steps, i).expects(events[i])
            &&& startup_at(steps, i).leads_to(config, events[i], #[trigger] steps[i])
        }
}

/// The position of a service in the order of the setup.
pub open spec fn position<B: Backend>(startup: Startup<B>) -> int {
    match startup {
        Startup::Log => 0,
        Startup::SysDb { .. } => 1,
        Startup::Storage { .. } => 2,
        Startup::AssignmentPolicy { .. } => 3,
        Startup::Scheduler { .. } => 4,
        Startup::BlockfileProvider { .. } => 5,
        Startup::HnswIndexProvider { .. } => 6,
    }
}

/// A service that could not be set up, whichever it is, ends the setup with the error that
/// it gave, wherever the setup stands.
pub proof fn error_of_a_service_is_the_error_of_the_setup<'a, B: Backend>(
    config: CompactionServiceConfig<B>,
    startup: Startup<B>,
    event: StartupEvent<B>,
    step: StartupStep<'a, B>,
    error: B::ConfigError,
)
    requires
        startup.leads_to(config, event, step),
        event == StartupEvent::<B>::Log(Err(error)) || event == StartupEvent::<B>::SysDb(Err(error))
            || event == StartupEvent::<B>::Storage(Err(error)) || event == StartupEvent::<
            B,
        >::AssignmentPolicy(Err(error)) || event == StartupEvent::<B>::BlockfileProvider(Err(error))
            || event == StartupEvent::<B>::HnswIndexProvider(Err(error)),
    ensures
        step == StartupStep::<'a, B>::Failed(error),
        event.error() == Some(error),
{
}

/// A service that was set up gives no error, and the setup does not fail on it.
pub proof fn setup_goes_on_with_each_service<'a, B: Backend>(
    config: CompactionServiceConfig<B>,
    startup: Startup<B>,
    event: StartupEvent<B>,
    step: StartupStep<'a, B>,
)
    requires
        startup.expects(event),
        startup.leads_to(config, event, step),
        match event {
            StartupEvent::Log(result) => result is Ok,
            StartupEvent::SysDb(result) => result is Ok,
            StartupEvent::Storage(result) => result is Ok,
            StartupEvent::AssignmentPolicy(result) => result is Ok,
            StartupEvent::Scheduler(_) => true,
            StartupEvent::BlockfileProvider(result) => result is Ok,
            StartupEvent::HnswIndexProvider(result) => result is Ok,
        },
    ensures
        event.error() is None,
        !(step is Failed),
        step is Ready <==> event is HnswIndexProvider,
{
}

/// The setup waits for the service that it asked for and for no other.
pub proof fn setup_waits_for_the_service_in_turn<B: Backend>(
    startup: Startup<B>,
    event: StartupEvent<B>,
)
    ensures
        startup.expects(event) <==> match startup {
            Startup::Log => event is Log,
            Startup::SysDb { .. } => event is SysDb,
            Startup::Storage { .. } => event is Storage,
            Startup::AssignmentPolicy { .. } => event is AssignmentPolicy,
            Startup::Scheduler { .. } => event is Scheduler,
            Startup::BlockfileProvider { .. } => event is BlockfileProvider,
            Startup::HnswIndexProvider { .. } => event is HnswIndexProvider,
        },
        Startup::reads_disabled_collections(event) <==> (event matches StartupEvent::Storage(result)
            && result is Ok),
{
}

/// After the log comes the system database, and after it the storage; each is asked for
/// with its own configuration, and what is there already is kept.
pub proof fn sysdb_and_storage_follow_the_log<'a, B: Backend>(
    config: CompactionServiceConfig<B>,
    log: B::Log,
    sysdb: B::SysDb,
    after_log: StartupStep<'a, B>,
    after_sysdb: StartupStep<'a, B>,
)
    requires
        Startup::<B>::Log.leads_to(config, StartupEvent::Log(Ok(log)), after_log),
        (Startup::<B>::SysDb { log }).leads_to(config, StartupEvent::SysDb(Ok(sysdb)), after_sysdb),
    ensures
        after_log matches StartupStep::Continue(
            Startup::SysDb { log: kept },
            StartupRequest::SysDb(asked),
        ) && kept == log && *asked == config.sysdb,
        after_sysdb matches StartupStep::Continue(
            Startup::Storage { log: kept, sysdb: kept_sysdb },
            StartupRequest::Storage(asked),
        ) && kept == log && kept_sysdb == sysdb && *asked == config.storage,
{
}

/// Once the storage is there a collection is disabled if and only if an entry of the
/// configured list is its UUID, and the assignment policy is asked for.
pub proof fn assignment_policy_follows_the_storage<'a, B: Backend>(
    config: CompactionServiceConfig<B>,
    log: B::Log,
    sysdb: B::SysDb,
    storage: B::Storage,
    step: StartupStep<'a, B>,
    number: u128,
)
    requires
        (Startup::<B>::Storage { log, sysdb }).leads_to(
            config,
            StartupEvent::Storage(Ok(storage)),
            step,
        ),
        forall|i: int|
            0 <= i < config.compactor.disabled_collections@.len() ==> uuid_of_text(
                #[trigger] config.compactor.disabled_collections@[i]@,
            ) is Some,
    ensures
        step matches StartupStep::Continue(
            Startup::AssignmentPolicy {
                log: kept,
                sysdb: kept_sysdb,
                storage: kept_storage,
                disabled_collections,
            },
            StartupRequest::AssignmentPolicy(asked),
        ) && {
            &&& kept == log
            &&& kept_sysdb == sysdb
            &&& kept_storage == storage
            &&& *asked == config.assignment_policy
            &&& disabled_collections@.contains(number) <==> exists|i: int|
                0 <= i < config.compactor.disabled_collections@.len() && uuid_of_text(
                    #[trigger] config.compactor.disabled_collections@[i]@,
                ) == Some(number)
        },
{
    disabled_if_and_only_if_listed(config.compactor.disabled_collections@, number);
}

/// The scheduler is made of clones of the log and the system database, of the configured
/// member and limits, of the assignment policy, and of the disabled collections as they
/// were read.
pub proof fn scheduler_follows_the_assignment_policy<'a, B: Backend>(
    config: CompactionServiceConfig<B>,
    startup: Startup<B>,
    assignment_policy: B::AssignmentPolicy,
    step: StartupStep<'a, B>,
)
    requires
        startup is AssignmentPolicy,
        startup.leads_to(config, StartupEvent::AssignmentPolicy(Ok(assignment_policy)), step),
    ensures
        step matches StartupStep::Continue(
            Startup::Scheduler { log, sysdb, storage },
            StartupRequest::Scheduler(parts),
        ) && {
            &&& log == startup->AssignmentPolicy_log
            &&& sysdb == startup->AssignmentPolicy_sysdb
            &&& storage == startup->AssignmentPolicy_storage
            &&& parts.my_member_id@ == config.my_member_id@
            &&& cloned(log, parts.log)
            &&& cloned(sysdb, parts.sysdb)
            &&& parts.policy is LasCompactionTime
            &&& parts.max_concurrent_jobs == config.compactor.max_concurrent_jobs
            &&& parts.min_compaction_size == config.compactor.min_compaction_size
            &&& parts.assignment_policy == assignment_policy
            &&& parts.disabled_collections == startup->AssignmentPolicy_disabled_collections
        },
{
}

/// After the scheduler come the blockfile provider and the index provider; each is asked
/// for with its own configuration and a clone of the storage.
pub proof fn providers_follow_the_scheduler<'a, B: Backend>(
    config: CompactionServiceConfig<B>,
    log: B::Log,
    sysdb: B::SysDb,
    storage: B::Storage,
    scheduler: B::Scheduler,
    blockfile_provider: B::BlockfileProvider,
    after_scheduler: StartupStep<'a, B>,
    after_blockfile_provider: StartupStep<'a, B>,
)
    requires
        (Startup::<B>::Scheduler { log, sysdb, storage }).leads_to(
            config,
            StartupEvent::Scheduler(scheduler),
            after_scheduler,
        ),
        (Startup::<B>::BlockfileProvider { log, sysdb, storage, scheduler }).leads_to(
            config,
            StartupEvent::BlockfileProvider(Ok(blockfile_provider)),
            after_blockfile_provider,
        ),
    ensures
        after_scheduler matches StartupStep::Continue(
            Startup::BlockfileProvider {
                log: kept,
                sysdb: kept_sysdb,
                storage: kept_storage,
                scheduler: kept_scheduler,
            },
            StartupRequest::BlockfileProvider(asked, given),
        ) && {
            &&& kept == log
            &&& kept_sysdb == sysdb
            &&& kept_storage == storage
            &&& kept_scheduler == scheduler
            &&& *asked == config.blockfile_provider
            &&& cloned(storage, given)
        },
        after_blockfile_provider matches StartupStep::Continue(
            Startup::HnswIndexProvider {
                log: kept,
                sysdb: kept_sysdb,
                storage: kept_storage,
                scheduler: kept_scheduler,
                blockfile_provider: kept_provider,
            },
            StartupRequest::HnswIndexProvider(asked, given),
        ) && {
            &&& kept == log
            &&& kept_sysdb == sysdb
            &&& kept_storage == storage
            &&& kept_scheduler == scheduler
            &&& kept_provider == blockfile_provider
            &&& *asked == config.hnsw_provider
            &&& cloned(storage, given)
        },
{
}

/// The manager that comes out with the index provider holds every service that was set up
/// and the configured limits, and is given neither dispatcher nor system.
pub proof fn manager_follows_the_index_provider<'a, B: Backend>(
    config: CompactionServiceConfig<B>,
    log: B::Log,
    sysdb: B::SysDb,
    storage: B::Storage,
    scheduler: B::Scheduler,
    blockfile_provider: B::BlockfileProvider,
    hnsw_index_provider: B::HnswIndexProvider,
    step: StartupStep<'a, B>,
)
    requires
        (Startup::<B>::HnswIndexProvider {
            log,
            sysdb,
            storage,
            scheduler,
            blockfile_provider,
        }).leads_to(config, StartupEvent::HnswIndexProvider(Ok(hnsw_index_provider)), step),
    ensures
        step matches StartupStep::Ready(manager) && {
            &&& manager.log == log
            &&& manager.sysdb == sysdb
            &&& manager.storage == storage
            &&& manager.scheduler == scheduler
            &&& manager.blockfile_provider == blockfile_provider
            &&& manager.hnsw_index_provider == hnsw_index_provider
            &&& manager.dispatcher is None
            &&& manager.system is None
            &&& manager.compaction_manager_queue_size
                == config.compactor.compaction_manager_queue_size
            &&& manager.compaction_interval@ == config.compactor.compaction_interval_sec
                * 1_000_000_000
            &&& manager.min_compaction_size == config.compactor.min_compaction_size
            &&& manager.max_compaction_size == config.compactor.max_compaction_size
            &&& manager.max_partition_size == config.compactor.max_partition_size
        },
{
}

/// The services are set up one after the other, always in the same order.
pub proof fn services_are_set_up_in_order<'a, B: Backend>(
    config: CompactionServiceConfig<B>,
    events: Seq<StartupEvent<B>>,
    steps: Seq<StartupStep<'a, B>>,
    i: int,
)
    requires
        is_setup(config, events, steps),
        0 <= i < events.len(),
    ensures
        position(startup_at(steps, i)) == i,
        events.len() <= 7,
{
    lemma_position(config, events, steps, i);
    if events.len() > 7 {
        lemma_position(config, events, steps, 7);
    }
}

proof fn lemma_position<'a, B: Backend>(
    config: CompactionServiceConfig<B>,
    events: Seq<StartupEvent<B>>,
    steps: Seq<StartupStep<'a, B>>,
    i: int,
)
    requires
        is_setup(config, events, steps),
        0 <= i < events.len(),
    ensures
        position(startup_at(steps, i)) == i,
    decreases i,
{
    if i > 0 {
        lemma_position(config, events, steps, i - 1);
        assert(startup_at(steps, i - 1).leads_to(config, events[i - 1], steps[i - 1]));
        assert(startup_at(steps, i).leads_to(config, events[i], steps[i]));
    }
}

/// A service that cannot be set up ends the setup with its error: no later service is
/// set up.
pub proof fn setup_ends_at_the_first_error<'a, B: Backend>(
    config: CompactionServiceConfig<B>,
    events: Seq<StartupEvent<B>>,
    steps: Seq<StartupStep<'a, B>>,
    i: int,
)
    requires
        is_setup(config, events, steps),
        0 <= i < events.len(),
        events[i].error() is Some,
    ensures
        steps[i] == StartupStep::<'a, B>::Failed(events[i].error()->0),
        i == events.len() - 1,
{
    assert(startup_at(steps, i).leads_to(config, events[i], steps[i]));
    if i < events.len() - 1 {
        assert(startup_at(steps, i + 1).leads_to(config, events[i + 1], steps[i + 1]));
    }
}

/// A manager comes out of the setup if and only if every service was set up.
pub proof fn manager_comes_out_if_every_service_is_there<'a, B: Backend>(
    config: CompactionServiceConfig<B>,
    events: Seq<StartupEvent<B>>,
    steps: Seq<StartupStep<'a, B>>,
)
    requires
        is_setup(config, events, steps),
        events.len() > 0,
    ensures
        steps.last() is Ready <==> events.len() == 7 && events.last().error() is None,
{
    let last = events.len() - 1;
    services_are_set_up_in_order(config, events, steps, last);
    assert(startup_at(steps, last).leads_to(config, events[last], steps[last]));
}

/// The manager holds the very services that were set up and the limits of the
/// configuration; its scheduler was made for the configured member, limits and
/// assignment policy, works with clones of the manager's log and system database, and was
/// told of exactly the listed collections.
pub proof fn manager_holds_what_was_set_up<'a, B: Backend>(
    config: CompactionServiceConfig<B>,
    events: Seq<StartupEvent<B>>,
    steps: Seq<StartupStep<'a, B>>,
)
    requires
        is_setup(config, events, steps),
        events.len() == 7,
        events.last().error() is None,
    ensures
        steps[3] matches StartupStep::Continue(_, StartupRequest::Scheduler(parts)) && {
            &&& parts.my_member_id@ == config.my_member_id@
            &&& parts.policy == SchedulerPolicy::LasCompactionTime
            &&& parts.max_concurrent_jobs == config.compactor.max_concurrent_jobs
            &&& parts.min_compaction_size == config.compactor.min_compaction_size
            &&& events[3] == StartupEvent::<B>::AssignmentPolicy(Ok(parts.assignment_policy))
            &&& parts.disabled_collections@ == numbers(
                named_collections(config.compactor.disabled_collections@),
            )
        },
        steps[3] matches StartupStep::Continue(_, StartupRequest::Scheduler(parts))
            && steps[6] matches StartupStep::Ready(manager) && {
            &&& cloned(manager.log, parts.log)
            &&& cloned(manager.sysdb, parts.sysdb)
        },
        steps[6] matches StartupStep::Ready(manager) && {
            &&& events[0] == StartupEvent::<B>::Log(Ok(manager.log))
            &&& events[1] == StartupEvent::<B>::SysDb(Ok(manager.sysdb))
            &&& events[2] == StartupEvent::<B>::Storage(Ok(manager.storage))
            &&& events[4] == StartupEvent::<B>::Scheduler(manager.scheduler)
            &&& events[5] == StartupEvent::<B>::BlockfileProvider(Ok(manager.blockfile_provider))
            &&& events[6] == StartupEvent::<B>::HnswIndexProvider(Ok(manager.hnsw_index_provider))
            &&& !manager.can_run_jobs()
            &&& manager.compaction_manager_queue_size
                == config.compactor.compaction_manager_queue_size
            &&& manager.compaction_interval@ == config.compactor.compaction_interval_sec
                * NANOS_PER_SEC
            &&& manager.min_compaction_size == config.compactor.min_compaction_size
            &&& manager.max_compaction_size == config.compactor.max_compaction_size
            &&& manager.max_partition_size == config.compactor.max_partition_size
        },
{
    assert(startup_at(steps, 0).leads_to(config, events[0], steps[0]));
    assert(startup_at(steps, 1).leads_to(config, events[1], steps[1]));
    assert(startup_at(steps, 2).leads_to(config, events[2], steps[2]));
    assert(startup_at(steps, 3).leads_to(config, events[3], steps[3]));
    assert(startup_at(steps, 4).leads_to(config, events[4], steps[4]));
    assert(startup_at(steps, 5).leads_to(config, events[5], steps[5]));
    assert(startup_at(steps, 6).leads_to(config, events[6], steps[6]));
}

} // verus!
