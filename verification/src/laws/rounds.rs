//! What a round of scheduled compaction goes through.

use vstd::prelude::*;

use crate::backend::Backend;
use crate::batch::{compacted_ids, BatchEvent, BatchModel, BatchRequest, CompactionBatch};
use crate::collection::CollectionUuid;
use crate::handler::{CompactionRound, RoundEvent, RoundModel, RoundRequest};
use crate::job::{CompactionJob, JobOutcome, OrchestratorRun};
use crate::laws::batches::{
    batch_returns_compacted_collections, batch_waits_for_every_run,
    batch_without_dispatcher_or_system_compacts_nothing, every_picked_job_is_run_once,
    returned_if_and_only_if_compacted,
};
use crate::manager::CompactionManager;

verus! {

/// The state in which a round meets the event at a position.
pub open spec fn round_at(rounds: Seq<RoundModel>, i: int) -> RoundModel {
    if i == 0 {
        RoundModel::Compacting(BatchModel::Scheduling)
    } else {
        rounds[i - 1]
    }
}

/// `rounds` and `requests` are what a round comes to and needs, event by event, from
/// the message that begins it.
pub open spec fn is_round<'a, B: Backend>(
    manager: CompactionManager<B>,
    events: Seq<RoundEvent<'a, B>>,
    rounds: Seq<RoundModel>,
    requests: Seq<RoundRequest<'a, B>>,
) -> bool {
    &&& rounds.len() == events.len()
    &&& requests.len() == events.len()
    &&& forall|i: int|
        0 <= i < events.len() ==> {
            &&& round_at(rounds, i).expects(#[trigger] events[i])
            &&& manager.round_leads_to(round_at(rounds, i), events[i], rounds[i], requests[i])
        }
}

/// The jobs that the scheduler picked for a round.
pub open spec fn picked_jobs<'a, B: Backend>(events: Seq<RoundEvent<'a, B>>) -> &'a Vec<
    CompactionJob<B>,
> {
    events[0]->Batch_0->Scheduled_0
}

/// The outcomes of the first runs of a round that ended, in the order in which they did.
pub open spec fn ended_runs<'a, B: Backend>(events: Seq<RoundEvent<'a, B>>, n: nat) -> Seq<
    JobOutcome<B>,
> {
    Seq::new(n, |i: int| events[i + 1]->Batch_0->JobFinished_0)
}

/// As long as a round is compacting it has only asked for what its batch needs, and its
/// batch is where the runs that have ended have brought it.
proof fn lemma_round_follows_batch<'a, B: Backend>(
    manager: CompactionManager<B>,
    events: Seq<RoundEvent<'a, B>>,
    rounds: Seq<RoundModel>,
    requests: Seq<RoundRequest<'a, B>>,
    i: int,
)
    requires
        is_round(manager, events, rounds, requests),
        0 <= i < events.len(),
        rounds[i] is Compacting,
    ensures
        manager.can_run_jobs(),
        i < picked_jobs(events)@.len(),
        rounds[i] == RoundModel::Compacting(
            manager.batch_after(
                manager.batch_of(picked_jobs(events)),
                ended_runs(events, i as nat),
            ),
        ),
        forall|k: int| 0 <= k <= i ==> #[trigger] requests[k] is Batch,
    decreases i,
{
    let jobs = picked_jobs(events);
    let outcomes = ended_runs(events, i as nat);
    assert(round_at(rounds, i).expects(events[i]));
    if i == 0 {
        assert(outcomes =~= seq![]);
    } else {
        assert(round_at(rounds, i - 1).expects(events[i - 1]));
        lemma_round_follows_batch(manager, events, rounds, requests, i - 1);
        assert(outcomes.drop_last() =~= ended_runs(events, (i - 1) as nat));
        batch_waits_for_every_run(manager, jobs, ended_runs(events, (i - 1) as nat));
        if i == jobs@.len() {
            batch_returns_compacted_collections(manager, jobs, outcomes);
        }
    }
}

/// A round of a manager with dispatcher and system begins by running every job that the
/// scheduler picked, each once and in the order in which they were picked, with the
/// manager's limits.
pub proof fn round_runs_every_picked_job<'a, B: Backend>(
    manager: CompactionManager<B>,
    events: Seq<RoundEvent<'a, B>>,
    rounds: Seq<RoundModel>,
    requests: Seq<RoundRequest<'a, B>>,
    jobs: &'a Vec<CompactionJob<B>>,
)
    requires
        is_round(manager, events, rounds, requests),
        events.len() > 0,
        events[0] == RoundEvent::Batch(BatchEvent::Scheduled(jobs)),
        manager.dispatcher is Some,
        manager.system is Some,
        jobs@.len() > 0,
    ensures
        requests[0] matches RoundRequest::Batch(BatchRequest::RunJobs(runs)) && {
            &&& runs@.map_values(|run: OrchestratorRun<'a, B>| *run.compaction_job) == jobs@
            &&& runs@.map_values(|run: OrchestratorRun<'a, B>| run.collection_id)
                == jobs@.map_values(|job: CompactionJob<B>| job.collection_id)
            &&& forall|i: int|
                0 <= i < runs@.len() ==> {
                    let run = #[trigger] runs@[i];
                    &&& manager.dispatcher == Some(*run.dispatcher)
                    &&& manager.system == Some(*run.system)
                    &&& run.max_compaction_size == manager.max_compaction_size
                    &&& run.max_partition_size == manager.max_partition_size
                }
        },
        picked_jobs(events) == jobs,
{
    assert(round_at(rounds, 0).expects(events[0]));
    let runs = requests[0]->Batch_0->RunJobs_0;
    every_picked_job_is_run_once(manager, jobs@, runs@);
}

/// A collection is purged by a round if and only if a run of the round was completed whose
/// response names it.
pub proof fn purged_if_and_only_if_compacted<'a, B: Backend>(
    manager: CompactionManager<B>,
    events: Seq<RoundEvent<'a, B>>,
    rounds: Seq<RoundModel>,
    requests: Seq<RoundRequest<'a, B>>,
    i: int,
    id: CollectionUuid,
)
    requires
        is_round(manager, events, rounds, requests),
        0 <= i < events.len(),
        rounds[i] is Purging,
    ensures
        requests[i] matches RoundRequest::PurgeById(ids) && (ids@.contains(id) <==> exists|k: int|
            1 <= k <= i && (#[trigger] events[k] matches RoundEvent::Batch(
                BatchEvent::JobFinished(Ok(response)),
            ) && response.compaction_job.collection_id == id)),
{
    round_purges_what_was_compacted(manager, events, rounds, requests, i);
    let outcomes = ended_runs(events, i as nat);
    let results = manager.job_results(outcomes);
    let ids = requests[i]->PurgeById_0;
    returned_if_and_only_if_compacted(results, id);
    assert forall|k: int| 1 <= k <= i implies (#[trigger] events[k] matches RoundEvent::Batch(
        BatchEvent::JobFinished(outcome),
    ) && outcome == outcomes[k - 1]) by {
        assert(round_at(rounds, k).expects(events[k]));
        if k < i {
            lemma_not_yet_purging(manager, events, rounds, requests, k, i);
        }
        assert(round_at(rounds, k - 1).expects(events[k - 1]));
        lemma_not_yet_purging(manager, events, rounds, requests, k - 1, i);
        lemma_round_follows_batch(manager, events, rounds, requests, k - 1);
        batch_waits_for_every_run(
            manager,
            picked_jobs(events),
            ended_runs(events, (k - 1) as nat),
        );
    }
    if ids@.contains(id) {
        let k = choose|k: int|
            0 <= k < results.len() && (#[trigger] results[k] matches Ok(response)
                && response.compaction_job.collection_id == id);
        assert(events[k + 1] matches RoundEvent::Batch(BatchEvent::JobFinished(Ok(response)))
            && response.compaction_job.collection_id == id);
    }
    if exists|k: int|
        1 <= k <= i && (#[trigger] events[k] matches RoundEvent::Batch(
            BatchEvent::JobFinished(Ok(response)),
        ) && response.compaction_job.collection_id == id) {
        let k = choose|k: int|
            1 <= k <= i && (#[trigger] events[k] matches RoundEvent::Batch(
                BatchEvent::JobFinished(Ok(response)),
            ) && response.compaction_job.collection_id == id);
        assert(outcomes[k - 1] is Ok);
        assert(results[k - 1] is Ok);
    }
}

proof fn lemma_not_yet_purging<'a, B: Backend>(
    manager: CompactionManager<B>,
    events: Seq<RoundEvent<'a, B>>,
    rounds: Seq<RoundModel>,
    requests: Seq<RoundRequest<'a, B>>,
    k: int,
    i: int,
)
    requires
        is_round(manager, events, rounds, requests),
        0 <= k < i < events.len(),
        rounds[i] is Purging,
    ensures
        rounds[k] is Compacting,
    decreases i - k,
{
    assert(round_at(rounds, k + 1).expects(events[k + 1]));
    if k + 1 < i {
        lemma_not_yet_purging(manager, events, rounds, requests, k + 1, i);
    }
}

/// A round takes what its batch takes, then the end of the purge; a round that is over takes
/// nothing. It goes on to the purge exactly when its batch is finished.
pub proof fn round_takes_events_in_turn<'a, B: Backend>(
    round: RoundModel,
    batch: BatchModel,
    jobs: &'a Vec<CompactionJob<B>>,
    outcome: JobOutcome<B>,
)
    ensures
        round.expects(RoundEvent::Batch(BatchEvent::Scheduled(jobs))) <==> (
        round matches RoundModel::Compacting(own) && own is Scheduling),
        round.expects(RoundEvent::<B>::Batch(BatchEvent::JobFinished(outcome))) <==> (
        round matches RoundModel::Compacting(own) && own is Running),
        round.expects(RoundEvent::<B>::Purged) <==> round is Purging,
        RoundModel::with_batch(batch) is Purging <==> batch is Finished,
        !(batch is Finished) ==> RoundModel::with_batch(batch) == RoundModel::Compacting(batch),
        round.valid() <==> (round matches RoundModel::Compacting(own) ==> match own {
            BatchModel::Scheduling => true,
            BatchModel::Running { pending, .. } => pending > 0,
            BatchModel::Finished { .. } => false,
        }),
{
}

/// The model of a round holds its batch as it is.
pub proof fn round_model_is_faithful(batch: CompactionBatch)
    ensures
        CompactionRound::Compacting(batch)@ == RoundModel::Compacting(batch@),
        CompactionRound::Purging@ == RoundModel::Purging,
        CompactionRound::Over@ == RoundModel::Over,
{
}

/// A round that comes to its purge has seen every run of its batch end, asked for
/// nothing but what the batch needed before, and purges exactly the collections that
/// were compacted, in the order in which their runs ended.
pub proof fn round_purges_what_was_compacted<'a, B: Backend>(
    manager: CompactionManager<B>,
    events: Seq<RoundEvent<'a, B>>,
    rounds: Seq<RoundModel>,
    requests: Seq<RoundRequest<'a, B>>,
    i: int,
)
    requires
        is_round(manager, events, rounds, requests),
        0 <= i < events.len(),
        rounds[i] is Purging,
    ensures
        i == if manager.can_run_jobs() {
            picked_jobs(events)@.len()
        } else {
            0
        },
        forall|k: int| 0 <= k < i ==> #[trigger] requests[k] is Batch,
        requests[i] matches RoundRequest::PurgeById(ids) && ids@ == compacted_ids(
            manager.job_results(ended_runs(events, i as nat)),
        ),
{
    let jobs = picked_jobs(events);
    let outcomes = ended_runs(events, i as nat);
    assert(round_at(rounds, i).expects(events[i]));
    if i == 0 {
        assert(outcomes =~= seq![]);
        if manager.can_run_jobs() {
            batch_returns_compacted_collections(manager, jobs, outcomes);
        } else {
            batch_without_dispatcher_or_system_compacts_nothing(manager, jobs, outcomes);
        }
    } else {
        assert(round_at(rounds, i - 1).expects(events[i - 1]));
        lemma_round_follows_batch(manager, events, rounds, requests, i - 1);
        assert(outcomes.drop_last() =~= ended_runs(events, (i - 1) as nat));
        if i < jobs@.len() {
            batch_waits_for_every_run(manager, jobs, outcomes);
        } else {
            batch_returns_compacted_collections(manager, jobs, outcomes);
        }
    }
}

/// A round that is over has purged, then had the next round scheduled at the manager's
/// interval, once and as the last thing it did.
pub proof fn round_ends_by_scheduling_the_next<'a, B: Backend>(
    manager: CompactionManager<B>,
    events: Seq<RoundEvent<'a, B>>,
    rounds: Seq<RoundModel>,
    requests: Seq<RoundRequest<'a, B>>,
    i: int,
)
    requires
        is_round(manager, events, rounds, requests),
        0 <= i < events.len(),
        rounds[i] is Over,
    ensures
        i == events.len() - 1,
        i > 0,
        rounds[i - 1] is Purging,
        requests[i] == RoundRequest::<B>::Schedule(manager.next_round()),
        requests[i] matches RoundRequest::Schedule(request) && request.interval
            == manager.compaction_interval,
        forall|k: int| 0 <= k < i ==> !(#[trigger] requests[k] is Schedule),
{
    assert(round_at(rounds, i).expects(events[i]));
    if i < events.len() - 1 {
        assert(round_at(rounds, i + 1).expects(events[i + 1]));
    }
    round_purges_what_was_compacted(manager, events, rounds, requests, i - 1);
}

/// A round never stops on its way: whatever the runs come to, each event that it waits
/// for brings it nearer to its end.
pub proof fn every_round_comes_to_an_end<'a, B: Backend>(
    manager: CompactionManager<B>,
    events: Seq<RoundEvent<'a, B>>,
    rounds: Seq<RoundModel>,
    requests: Seq<RoundRequest<'a, B>>,
)
    requires
        is_round(manager, events, rounds, requests),
        events.len() > 0,
    ensures
        ({
            let runs = if manager.can_run_jobs() {
                picked_jobs(events)@.len()
            } else {
                0
            };
            &&& events.len() <= runs + 2
            &&& rounds.last() is Compacting <==> events.len() <= runs
            &&& rounds.last() is Purging <==> events.len() == runs + 1
            &&& rounds.last() is Over <==> events.len() == runs + 2
        }),
{
    let last = events.len() - 1;
    match rounds[last] {
        RoundModel::Compacting(_) => {
            lemma_round_follows_batch(manager, events, rounds, requests, last);
        },
        RoundModel::Purging => {
            round_purges_what_was_compacted(manager, events, rounds, requests, last);
        },
        RoundModel::Over => {
            round_ends_by_scheduling_the_next(manager, events, rounds, requests, last);
            round_purges_what_was_compacted(manager, events, rounds, requests, last - 1);
        },
    }
}

} // verus!
