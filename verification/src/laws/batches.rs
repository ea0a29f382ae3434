//! What a batch returns.

use vstd::prelude::*;
use vstd::seq_lib::lemma_multiset_commutative;

use crate::backend::Backend;
use crate::batch::{compacted_by, compacted_ids, BatchEvent, BatchModel, CompactionBatch};
use crate::collection::CollectionUuid;
use crate::job::{CompactionJob, CompactionResponse, JobError, JobOutcome, OrchestratorRun};
use crate::manager::CompactionManager;

verus! {

impl<B: Backend> CompactionManager<B> {
    /// The batch after runs have ended one after the other.
    pub open spec fn batch_after(self, batch: BatchModel, outcomes: Seq<JobOutcome<B>>) -> BatchModel
        decreases outcomes.len(),
    {
        if outcomes.len() == 0 {
            batch
        } else {
            self.next_batch(
                self.batch_after(batch, outcomes.drop_last()),
                BatchEvent::JobFinished(outcomes.last()),
            )
        }
    }

    /// The batch once it has been handed its jobs.
    pub open spec fn batch_of(self, jobs: &Vec<CompactionJob<B>>) -> BatchModel {
        self.next_batch(BatchModel::Scheduling, BatchEvent::Scheduled(jobs))
    }

    /// What becomes of jobs whose runs end with these outcomes.
    pub open spec fn job_results(self, outcomes: Seq<JobOutcome<B>>) -> Seq<
        Result<CompactionResponse<B>, JobError<B>>,
    > {
        outcomes.map_values(|outcome: JobOutcome<B>| self.job_result(outcome))
    }
}

proof fn lemma_compacted_ids_push<B: Backend>(
    results: Seq<Result<CompactionResponse<B>, JobError<B>>>,
    result: Result<CompactionResponse<B>, JobError<B>>,
)
    ensures
        compacted_ids(results.push(result)) == match compacted_by(result) {
            Some(id) => compacted_ids(results).push(id),
            None => compacted_ids(results),
        },
{
    assert(results.push(result).drop_last() =~= results);
    reveal_with_fuel(Seq::filter_map, 2);
    if let Some(id) = compacted_by(result) {
        assert(compacted_ids(results) + seq![id] =~= compacted_ids(results).push(id));
    }
}

proof fn lemma_compacted_ids_add<B: Backend>(
    first: Seq<Result<CompactionResponse<B>, JobError<B>>>,
    second: Seq<Result<CompactionResponse<B>, JobError<B>>>,
)
    ensures
        compacted_ids(first + second) == compacted_ids(first) + compacted_ids(second),
    decreases second.len(),
{
    if second.len() == 0 {
        assert(first + second =~= first);
        assert(compacted_ids(first) + compacted_ids(second) =~= compacted_ids(first));
    } else {
        let rest = second.drop_last();
        let result = second.last();
        lemma_compacted_ids_add(first, rest);
        lemma_compacted_ids_push(first + rest, result);
        lemma_compacted_ids_push(rest, result);
        assert(first + second =~= (first + rest).push(result));
        assert(second =~= rest.push(result));
        if let Some(id) = compacted_by(result) {
            assert((compacted_ids(first) + compacted_ids(rest)).push(id) =~= compacted_ids(first)
                + compacted_ids(rest).push(id));
        }
    }
}

/// The runs of a batch are those of its jobs: every job is run, once, and in the jobs'
/// order; each run compacts its own job's collection and is made of the manager's
/// services and limits.
pub proof fn every_picked_job_is_run_once<'a, B: Backend>(
    manager: CompactionManager<B>,
    jobs: Seq<CompactionJob<B>>,
    runs: Seq<OrchestratorRun<'a, B>>,
)
    requires
        manager.runs_all(jobs, runs),
    ensures
        runs.map_values(|run: OrchestratorRun<'a, B>| *run.compaction_job) == jobs,
        runs.map_values(|run: OrchestratorRun<'a, B>| run.collection_id) == jobs.map_values(
            |job: CompactionJob<B>| job.collection_id,
        ),
        forall|i: int|
            0 <= i < runs.len() ==> {
                let run = #[trigger] runs[i];
                &&& *run.log == manager.log
                &&& *run.sysdb == manager.sysdb
                &&& *run.blockfile_provider == manager.blockfile_provider
                &&& *run.hnsw_index_provider == manager.hnsw_index_provider
                &&& manager.dispatcher == Some(*run.dispatcher)
                &&& manager.system == Some(*run.system)
                &&& run.result_channel is None
                &&& run.max_compaction_size == manager.max_compaction_size
                &&& run.max_partition_size == manager.max_partition_size
            },
{
    assert(runs.map_values(|run: OrchestratorRun<'a, B>| *run.compaction_job) =~= jobs);
    assert(runs.map_values(|run: OrchestratorRun<'a, B>| run.collection_id) =~= jobs.map_values(
        |job: CompactionJob<B>| job.collection_id,
    ));
}

/// A batch that is handed jobs waits for as many runs as there are jobs, having compacted
/// nothing; it is finished at once, with nothing, if there is no job or the dispatcher or
/// the system is missing.
pub proof fn batch_waits_for_as_many_runs_as_jobs<B: Backend>(
    manager: CompactionManager<B>,
    jobs: &Vec<CompactionJob<B>>,
)
    ensures
        manager.dispatcher is Some && manager.system is Some && jobs@.len() > 0 ==> (
        manager.batch_of(jobs) matches BatchModel::Running { pending, compacted } && pending
            == jobs@.len() && compacted.len() == 0),
        manager.dispatcher is None || manager.system is None || jobs@.len() == 0 ==> (
        manager.batch_of(jobs) matches BatchModel::Finished { compacted } && compacted.len() == 0),
{
}

/// A run that ends is counted off, whatever it came to. What was collected before is kept;
/// a completed run adds the collection that its response names, a failed one nothing. The
/// batch is finished with the last run and not before.
pub proof fn ended_run_is_counted_and_collected<B: Backend>(
    manager: CompactionManager<B>,
    pending: nat,
    compacted: Seq<CollectionUuid>,
    outcome: JobOutcome<B>,
)
    requires
        pending > 0,
    ensures
        ({
            let ids = match outcome {
                Ok(response) => compacted.push(response.compaction_job.collection_id),
                Err(_) => compacted,
            };
            manager.next_batch(
                BatchModel::Running { pending, compacted },
                BatchEvent::JobFinished(outcome),
            ) == if pending == 1 {
                BatchModel::Finished { compacted: ids }
            } else {
                BatchModel::Running { pending: (pending - 1) as nat, compacted: ids }
            }
        }),
{
}

/// A batch that is scheduling takes jobs, a batch that is running takes the ends of runs,
/// and there is no other case.
pub proof fn batch_takes_jobs_first_and_ends_of_runs_then<B: Backend>(
    batch: BatchModel,
    jobs: &Vec<CompactionJob<B>>,
    outcome: JobOutcome<B>,
)
    ensures
        batch.expects(BatchEvent::Scheduled(jobs)) <==> batch is Scheduling,
        batch.expects(BatchEvent::<B>::JobFinished(outcome)) <==> batch is Running,
        batch.valid() <==> !(batch matches BatchModel::Running { pending, .. } && pending == 0),
{
}

/// The model of a batch holds its count and its collections as they are.
pub proof fn batch_model_is_faithful(pending: usize, compacted: Vec<CollectionUuid>)
    ensures
        CompactionBatch::Scheduling@ == BatchModel::Scheduling,
        (CompactionBatch::Running { pending, compacted })@ == (BatchModel::Running {
            pending: pending as nat,
            compacted: compacted@,
        }),
        (CompactionBatch::Finished { compacted })@ == (BatchModel::Finished {
            compacted: compacted@,
        }),
{
}

/// Results are collected one by one in their order: nothing at first, then the collection
/// that each response names, and nothing for an error.
pub proof fn collections_are_collected_in_order<B: Backend>(
    results: Seq<Result<CompactionResponse<B>, JobError<B>>>,
    response: CompactionResponse<B>,
    error: JobError<B>,
)
    ensures
        compacted_ids(Seq::<Result<CompactionResponse<B>, JobError<B>>>::empty()).len() == 0,
        compacted_ids(results.push(Ok(response))) == compacted_ids(results).push(
            response.compaction_job.collection_id,
        ),
        compacted_ids(results.push(Err(error))) == compacted_ids(results),
        compacted_ids(results).len() <= results.len(),
    decreases results.len(),
{
    lemma_compacted_ids_push(results, Ok(response));
    lemma_compacted_ids_push(results, Err(error));
    if results.len() > 0 {
        let rest = results.drop_last();
        collections_are_collected_in_order(rest, response, error);
        assert(results =~= rest.push(results.last()));
        lemma_compacted_ids_push(rest, results.last());
    }
}

/// What becomes of a job depends on its own run alone.
pub proof fn job_results_are_those_of_the_runs<B: Backend>(
    manager: CompactionManager<B>,
    outcomes: Seq<JobOutcome<B>>,
    i: int,
)
    requires
        0 <= i < outcomes.len(),
        manager.dispatcher is Some,
        manager.system is Some,
    ensures
        manager.job_results(outcomes).len() == outcomes.len(),
        outcomes[i] matches Ok(response) ==> manager.job_results(outcomes)[i] == Ok::<
            CompactionResponse<B>,
            JobError<B>,
        >(response),
        outcomes[i] matches Err(error) ==> manager.job_results(outcomes)[i] == Err::<
            CompactionResponse<B>,
            JobError<B>,
        >(JobError::Orchestrator(error)),
{
}

/// A batch is not finished before each of its runs has ended; until then it holds what
/// the ended ones compacted.
pub proof fn batch_waits_for_every_run<B: Backend>(
    manager: CompactionManager<B>,
    jobs: &Vec<CompactionJob<B>>,
    outcomes: Seq<JobOutcome<B>>,
)
    requires
        manager.can_run_jobs(),
        outcomes.len() < jobs@.len(),
    ensures
        manager.batch_after(manager.batch_of(jobs), outcomes) == (BatchModel::Running {
            pending: (jobs@.len() - outcomes.len()) as nat,
            compacted: compacted_ids(manager.job_results(outcomes)),
        }),
    decreases outcomes.len(),
{
    let results = manager.job_results(outcomes);
    if outcomes.len() == 0 {
        assert(compacted_ids(results) =~= seq![]);
    } else {
        let earlier = manager.job_results(outcomes.drop_last());
        let last = manager.job_result(outcomes.last());
        batch_waits_for_every_run(manager, jobs, outcomes.drop_last());
        assert(results =~= earlier.push(last));
        lemma_compacted_ids_push(earlier, last);
    }
}

/// A batch returns the collections of the jobs that were compacted, in the order in
/// which the jobs ended, as soon as the last one has ended.
pub proof fn batch_returns_compacted_collections<B: Backend>(
    manager: CompactionManager<B>,
    jobs: &Vec<CompactionJob<B>>,
    outcomes: Seq<JobOutcome<B>>,
)
    requires
        manager.can_run_jobs(),
        outcomes.len() == jobs@.len(),
    ensures
        manager.batch_after(manager.batch_of(jobs), outcomes) == (BatchModel::Finished {
            compacted: compacted_ids(manager.job_results(outcomes)),
        }),
{
    let results = manager.job_results(outcomes);
    if outcomes.len() == 0 {
        assert(compacted_ids(results) =~= seq![]);
    } else {
        let earlier = manager.job_results(outcomes.drop_last());
        let last = manager.job_result(outcomes.last());
        batch_waits_for_every_run(manager, jobs, outcomes.drop_last());
        assert(results =~= earlier.push(last));
        lemma_compacted_ids_push(earlier, last);
    }
}

/// Without a dispatcher or without a system a batch is finished once it is handed its
/// jobs: every job is refused and nothing is compacted, whatever a run would have come
/// to.
pub proof fn batch_without_dispatcher_or_system_compacts_nothing<B: Backend>(
    manager: CompactionManager<B>,
    jobs: &Vec<CompactionJob<B>>,
    outcomes: Seq<JobOutcome<B>>,
)
    requires
        !manager.can_run_jobs(),
    ensures
        manager.batch_of(jobs) == (BatchModel::Finished { compacted: seq![] }),
        compacted_ids(manager.job_results(outcomes)) == Seq::<CollectionUuid>::empty(),
    decreases outcomes.len(),
{
    let results = manager.job_results(outcomes);
    if outcomes.len() > 0 {
        let earlier = manager.job_results(outcomes.drop_last());
        let last = manager.job_result(outcomes.last());
        batch_without_dispatcher_or_system_compacts_nothing(manager, jobs, outcomes.drop_last());
        assert(results =~= earlier.push(last));
        lemma_compacted_ids_push(earlier, last);
    }
}

/// A collection is returned if and only if a job was completed whose response names it.
pub proof fn returned_if_and_only_if_compacted<B: Backend>(
    results: Seq<Result<CompactionResponse<B>, JobError<B>>>,
    id: CollectionUuid,
)
    ensures
        compacted_ids(results).contains(id) <==> exists|i: int|
            0 <= i < results.len() && (#[trigger] results[i] matches Ok(response)
                && response.compaction_job.collection_id == id),
{
    lemma_contained_if_and_only_if_compacted(results, id);
    if compacted_ids(results).contains(id) {
        let i = choose|i: int|
            0 <= i < results.len() && #[trigger] compacted_by(results[i]) == Some(id);
        assert(results[i] is Ok);
    }
    if exists|i: int|
        0 <= i < results.len() && (#[trigger] results[i] matches Ok(response)
            && response.compaction_job.collection_id == id) {
        let i = choose|i: int|
            0 <= i < results.len() && (#[trigger] results[i] matches Ok(response)
                && response.compaction_job.collection_id == id);
        assert(compacted_by(results[i]) == Some(id));
    }
}

proof fn lemma_contained_if_and_only_if_compacted<B: Backend>(
    results: Seq<Result<CompactionResponse<B>, JobError<B>>>,
    id: CollectionUuid,
)
    ensures
        compacted_ids(results).contains(id) <==> exists|i: int|
            0 <= i < results.len() && #[trigger] compacted_by(results[i]) == Some(id),
    decreases results.len(),
{
    if results.len() > 0 {
        let rest = results.drop_last();
        let ids = compacted_ids(rest);
        lemma_contained_if_and_only_if_compacted(rest, id);
        assert(results =~= rest.push(results.last()));
        lemma_compacted_ids_push(rest, results.last());
        if ids.contains(id) {
            let k = choose|k: int| 0 <= k < ids.len() && ids[k] == id;
            assert(compacted_ids(results)[k] == id);
            let i = choose|i: int|
                0 <= i < rest.len() && #[trigger] compacted_by(rest[i]) == Some(id);
            assert(compacted_by(results[i]) == Some(id));
        }
        if compacted_by(results.last()) == Some(id) {
            assert(compacted_ids(results).last() == id);
            assert(compacted_by(results[results.len() - 1]) == Some(id));
        }
        if exists|i: int| 0 <= i < results.len() && #[trigger] compacted_by(results[i]) == Some(id) {
            let i = choose|i: int|
                0 <= i < results.len() && #[trigger] compacted_by(results[i]) == Some(id);
            if i < rest.len() {
                assert(compacted_by(rest[i]) == Some(id));
            }
        }
        if compacted_ids(results).contains(id) && !ids.contains(id) {
            let k = choose|k: int|
                0 <= k < compacted_ids(results).len() && compacted_ids(results)[k] == id;
            assert(k < ids.len() ==> ids[k] == id);
        }
    }
}

/// A job that fails keeps no other job from being counted: the batch returns what it
/// would return had the job not been there.
pub proof fn failed_job_changes_nothing<B: Backend>(
    before: Seq<Result<CompactionResponse<B>, JobError<B>>>,
    error: JobError<B>,
    after: Seq<Result<CompactionResponse<B>, JobError<B>>>,
)
    ensures
        compacted_ids(before.push(Err(error)) + after) == compacted_ids(before + after),
{
    let failed = Err::<CompactionResponse<B>, JobError<B>>(error);
    lemma_compacted_ids_push(before, failed);
    lemma_compacted_ids_add(before.push(failed), after);
    lemma_compacted_ids_add(before, after);
}

/// The order in which jobs end decides only the order of what the batch returns.
pub proof fn completion_order_is_immaterial<B: Backend>(
    results: Seq<Result<CompactionResponse<B>, JobError<B>>>,
    reordered: Seq<Result<CompactionResponse<B>, JobError<B>>>,
)
    requires
        results.to_multiset() == reordered.to_multiset(),
    ensures
        compacted_ids(results).to_multiset() == compacted_ids(reordered).to_multiset(),
    decreases results.len(),
{
    results.to_multiset_ensures();
    reordered.to_multiset_ensures();
    if results.len() == 0 {
        assert(results =~= reordered);
    } else {
        let rest = results.drop_last();
        let result = results.last();
        assert(results =~= rest.push(result));
        assert(results[results.len() - 1] == result);
        assert(results.contains(result));
        assert(reordered.to_multiset().count(result) > 0);
        assert(reordered.contains(result));
        let i = choose|i: int| 0 <= i < reordered.len() && reordered[i] == result;
        let first = reordered.take(i);
        let second = reordered.skip(i + 1);
        assert(reordered =~= first.push(result) + second);
        assert(reordered.remove(i) =~= first + second);
        assert(results.remove(results.len() - 1) =~= rest);
        assert(rest.to_multiset() == (first + second).to_multiset());
        completion_order_is_immaterial(rest, first + second);
        lemma_compacted_ids_push(rest, result);
        lemma_compacted_ids_push(first, result);
        lemma_compacted_ids_add(first.push(result), second);
        lemma_compacted_ids_add(first, second);
        if let Some(id) = compacted_by(result) {
            let a = compacted_ids(first);
            let b = compacted_ids(second);
            let c = compacted_ids(rest);
            c.to_multiset_ensures();
            a.to_multiset_ensures();
            lemma_multiset_commutative(a.push(id), b);
            lemma_multiset_commutative(a, b);
            assert(c.push(id).to_multiset() =~= c.to_multiset().insert(id));
            assert((a.push(id) + b).to_multiset() =~= (a + b).to_multiset().insert(id));
        }
    }
}

/// When every job that the scheduler picked is compacted, the batch returns their
/// collections and no others, each as often as it was picked, in some order.
///
/// `outcomes` are those of the jobs, in the jobs' order; `ended` are the same in the
/// order in which the runs ended.
pub proof fn batch_that_succeeds_returns_every_collection<B: Backend>(
    manager: CompactionManager<B>,
    jobs: &Vec<CompactionJob<B>>,
    outcomes: Seq<JobOutcome<B>>,
    ended: Seq<JobOutcome<B>>,
)
    requires
        manager.can_run_jobs(),
        outcomes.len() == jobs@.len(),
        forall|i: int|
            0 <= i < outcomes.len() ==> (#[trigger] outcomes[i] matches Ok(response)
                && response.compaction_job.collection_id == jobs@[i].collection_id),
        ended.to_multiset() == outcomes.to_multiset(),
    ensures
        manager.batch_after(manager.batch_of(jobs), ended) matches BatchModel::Finished {
            compacted,
        } && compacted.to_multiset() == jobs@.map_values(
            |job: CompactionJob<B>| job.collection_id,
        ).to_multiset(),
{
    ended.to_multiset_ensures();
    outcomes.to_multiset_ensures();
    batch_returns_compacted_collections(manager, jobs, ended);
    lemma_map_values_multiset(
        ended,
        outcomes,
        |outcome: JobOutcome<B>| manager.job_result(outcome),
    );
    let in_order = manager.job_results(outcomes);
    completion_order_is_immaterial(manager.job_results(ended), in_order);
    lemma_compacted_ids_all_ok(in_order);
    assert(compacted_ids(in_order) =~= jobs@.map_values(
        |job: CompactionJob<B>| job.collection_id,
    ));
}

proof fn lemma_compacted_ids_all_ok<B: Backend>(
    results: Seq<Result<CompactionResponse<B>, JobError<B>>>,
)
    requires
        forall|i: int| 0 <= i < results.len() ==> #[trigger] results[i] is Ok,
    ensures
        compacted_ids(results).len() == results.len(),
        forall|i: int|
            0 <= i < results.len() ==> #[trigger] compacted_ids(results)[i]
                == results[i]->Ok_0.compaction_job.collection_id,
    decreases results.len(),
{
    if results.len() > 0 {
        lemma_compacted_ids_all_ok(results.drop_last());
        assert(results =~= results.drop_last().push(results.last()));
        assert(results[results.len() - 1] is Ok);
        lemma_compacted_ids_push(results.drop_last(), results.last());
    }
}

proof fn lemma_map_values_multiset<S, T>(first: Seq<S>, second: Seq<S>, f: spec_fn(S) -> T)
    requires
        first.to_multiset() == second.to_multiset(),
    ensures
        first.map_values(f).to_multiset() == second.map_values(f).to_multiset(),
    decreases first.len(),
{
    first.to_multiset_ensures();
    second.to_multiset_ensures();
    if first.len() == 0 {
        assert(first.map_values(f) =~= second.map_values(f));
    } else {
        let rest = first.drop_last();
        let x = first.last();
        assert(first[first.len() - 1] == x);
        assert(first.contains(x));
        assert(second.to_multiset().count(x) > 0);
        assert(second.contains(x));
        let i = choose|i: int| 0 <= i < second.len() && second[i] == x;
        assert(first.remove(first.len() - 1) =~= rest);
        assert(rest.to_multiset() == second.remove(i).to_multiset());
        lemma_map_values_multiset(rest, second.remove(i), f);
        let mapped = second.map_values(f);
        mapped.to_multiset_ensures();
        assert(second.remove(i).map_values(f) =~= mapped.remove(i));
        assert(first.map_values(f) =~= rest.map_values(f).push(f(x)));
        rest.map_values(f).to_multiset_ensures();
        assert(mapped[i] == f(x));
        assert(mapped.contains(f(x)));
        assert(mapped.to_multiset().remove(f(x)).insert(f(x)) =~= mapped.to_multiset());
    }
}

} // verus!
