//! One batch of compaction jobs: schedule, run every job, collect what was compacted.

use vstd::pervasive::unreached;
use vstd::prelude::*;

use crate::backend::Backend;
use crate::collection::CollectionUuid;
use crate::job::{CompactionJob, CompactionResponse, JobError, JobOutcome, OrchestratorRun};
use crate::manager::CompactionManager;

verus! {

/// How far a batch has come.
pub enum CompactionBatch {
    /// The scheduler is picking jobs.
    Scheduling,
    /// Runs are under way; `pending` of them have not ended.
    Running { pending: usize, compacted: Vec<CollectionUuid> },
    /// No run is left; the batch returns `compacted`.
    Finished { compacted: Vec<CollectionUuid> },
}

/// The state of a batch over mathematical values.
pub enum BatchModel {
    Scheduling,
    Running { pending: nat, compacted: Seq<CollectionUuid> },
    Finished { compacted: Seq<CollectionUuid> },
}

impl View for CompactionBatch {
    type V = BatchModel;

    open spec fn view(&self) -> BatchModel {
        match self {
            CompactionBatch::Scheduling => BatchModel::Scheduling,
            CompactionBatch::Running { pending, compacted } => BatchModel::Running {
                pending: *pending as nat,
                compacted: compacted@,
            },
            CompactionBatch::Finished { compacted } => BatchModel::Finished {
                compacted: compacted@,
            },
        }
    }
}

/// What a batch waits for.
pub enum BatchEvent<'a, B: Backend> {
    /// The scheduler has run; these are the jobs that it picked.
    Scheduled(&'a Vec<CompactionJob<B>>),
    /// One of the runs has ended.
    JobFinished(JobOutcome<B>),
}

/// What a batch needs to be done next.
pub enum BatchRequest<'a, B: Backend> {
    /// Run the scheduler, and ask it for its jobs.
    RunScheduler,
    /// Start these runs together, and wait for the first to end.
    RunJobs(Vec<OrchestratorRun<'a, B>>),
    /// Wait for the next run to end.
    AwaitJob,
    /// Nothing: the batch is finished.
    Done,
}

impl BatchModel {
    /// The batch counts at least one run as long as it is running.
    pub open spec fn valid(self) -> bool {
        self matches BatchModel::Running { pending, .. } ==> pending > 0
    }

    /// The event is one that the batch waits for.
    pub open spec fn expects<B: Backend>(self, event: BatchEvent<B>) -> bool {
        match event {
            BatchEvent::Scheduled(_) => self is Scheduling,
            BatchEvent::JobFinished(_) => self is Running,
        }
    }

    /// A batch that was handed `jobs` jobs, of which all are run or none.
    pub open spec fn started(runnable: bool, jobs: nat) -> BatchModel {
        if runnable && jobs > 0 {
            BatchModel::Running { pending: jobs, compacted: seq![] }
        } else {
            BatchModel::Finished { compacted: seq![] }
        }
    }

    /// A running batch after one more job has ended with `result`.
    pub open spec fn after_job<B: Backend>(
        self,
        result: Result<CompactionResponse<B>, JobError<B>>,
    ) -> BatchModel {
        match self {
            BatchModel::Running { pending, compacted } => {
                let compacted = match compacted_by(result) {
                    Some(id) => compacted.push(id),
                    None => compacted,
                };
                if pending > 1 {
                    BatchModel::Running { pending: (pending - 1) as nat, compacted }
                } else {
                    BatchModel::Finished { compacted }
                }
            },
            _ => self,
        }
    }
}

/// The collection that a job compacted, if it did: the one that its response names.
pub open spec fn compacted_by<B: Backend>(
    result: Result<CompactionResponse<B>, JobError<B>>,
) -> Option<CollectionUuid> {
    match result {
        Ok(response) => Some(response.compaction_job.collection_id),
        Err(_) => None,
    }
}

/// The collections that jobs compacted, in the order in which the jobs ended.
pub open spec fn compacted_ids<B: Backend>(
    results: Seq<Result<CompactionResponse<B>, JobError<B>>>,
) -> Seq<CollectionUuid> {
    results.filter_map(
        |result: Result<CompactionResponse<B>, JobError<B>>| compacted_by(result),
    )
}

/// The collection that a job compacted, if it did.
pub fn compacted_id<B: Backend>(result: &Result<CompactionResponse<B>, JobError<B>>) -> (id: Option<
    CollectionUuid,
>)
    ensures
        id == compacted_by(*result),
        *result matches Ok(response) ==> id == Some(response.compaction_job.collection_id),
        *result is Err ==> id is None,
{
    match result {
        Ok(response) => Some(response.compaction_job.collection_id),
        Err(_) => None,
    }
}

impl CompactionBatch {
    /// A new batch, which first needs the scheduler to be run.
    pub fn begin<'a, B: Backend>() -> (res: (CompactionBatch, BatchRequest<'a, B>))
        ensures
            res.0@ == BatchModel::Scheduling,
            res.0 is Scheduling,
            res.1 is RunScheduler,
    {
        (CompactionBatch::Scheduling, BatchRequest::RunScheduler)
    }
}

impl<B: Backend> CompactionManager<B> {
    /// There is one run for each job, in the jobs' order.
    pub open spec fn runs_all(
        self,
        jobs: Seq<CompactionJob<B>>,
        runs: Seq<OrchestratorRun<B>>,
    ) -> bool {
        &&& runs.len() == jobs.len()
        &&& forall|i: int| 0 <= i < runs.len() ==> self.runs(jobs[i], #[trigger] runs[i])
    }

    /// The state of the batch after an event that it waits for.
    pub open spec fn next_batch(self, batch: BatchModel, event: BatchEvent<B>) -> BatchModel {
        match event {
            BatchEvent::Scheduled(jobs) => BatchModel::started(self.can_run_jobs(), jobs@.len()),
            BatchEvent::JobFinished(outcome) => batch.after_job(Self::run_result(outcome)),
        }
    }

    /// Carries a batch on to its next state.
    ///
    /// The jobs that the scheduler picked are run together; without a dispatcher or a
    /// system every one of them is refused, and nothing is compacted.
    pub fn compact_batch<'a>(&'a self, batch: CompactionBatch, event: BatchEvent<'a, B>) -> (res: (
        CompactionBatch,
        BatchRequest<'a, B>,
    ))
        requires
            batch@.valid(),
            batch@.expects(event),
        ensures
            res.0@.valid(),
            res.0@ == self.next_batch(batch@, event),
            res.0@ is Finished ==> res.1 is Done,
            res.0@ is Running ==> match event {
                BatchEvent::Scheduled(jobs) => {
                    &&& res.1 matches BatchRequest::RunJobs(runs)
                    &&& self.runs_all(jobs@, runs@)
                },
                BatchEvent::JobFinished(_) => res.1 is AwaitJob,
            },
            match event {
                BatchEvent::Scheduled(jobs) => if self.dispatcher is Some && self.system is Some
                    && jobs@.len() > 0 {
                    &&& res.0 matches CompactionBatch::Running { pending, compacted }
                    &&& pending == jobs@.len()
                    &&& compacted@.len() == 0
                    &&& res.1 matches BatchRequest::RunJobs(runs)
                    &&& runs@.map_values(|run: OrchestratorRun<'a, B>| *run.compaction_job) == jobs@
                    &&& forall|i: int|
                        0 <= i < jobs@.len() ==> (#[trigger] runs@[i]).collection_id
                            == jobs@[i].collection_id
                } else {
                    &&& res.0 matches CompactionBatch::Finished { compacted }
                    &&& compacted@.len() == 0
                    &&& res.1 is Done
                },
                BatchEvent::JobFinished(outcome) => {
                    &&& batch matches CompactionBatch::Running { pending, compacted }
                    &&& {
                        let ids = match outcome {
                            Ok(response) => compacted@.push(response.compaction_job.collection_id),
                            Err(_) => compacted@,
                        };
                        if pending > 1 {
                            &&& res.0 matches CompactionBatch::Running {
                                pending: left,
                                compacted: collected,
                            }
                            &&& left == pending - 1
                            &&& collected@ == ids
                            &&& res.1 is AwaitJob
                        } else {
                            &&& res.0 matches CompactionBatch::Finished { compacted: collected }
                            &&& collected@ == ids
                            &&& res.1 is Done
                        }
                    }
                },
            },
    {
        match event {
            BatchEvent::Scheduled(jobs) => {
                let runs = self.runs_of(jobs);
                if runs.len() == 0 {
                    (CompactionBatch::Finished { compacted: Vec::new() }, BatchRequest::Done)
                } else {
                    (
                        CompactionBatch::Running { pending: runs.len(), compacted: Vec::new() },
                        BatchRequest::RunJobs(runs),
                    )
                }
            },
            BatchEvent::JobFinished(outcome) => {
                let result = Self::finish_compact(outcome);
                match batch {
                    CompactionBatch::Running { pending, mut compacted } => {
                        if let Some(id) = compacted_id(&result) {
                            compacted.push(id);
                        }
                        if pending > 1 {
                            (
                                CompactionBatch::Running { pending: pending - 1, compacted },
                                BatchRequest::AwaitJob,
                            )
                        } else {
                            (CompactionBatch::Finished { compacted }, BatchRequest::Done)
                        }
                    },
                    _ => unreached(),
                }
            },
        }
    }

    /// The runs of a list of jobs: one for each, or none if the manager refuses them.
    pub fn runs_of<'a>(&'a self, jobs: &'a Vec<CompactionJob<B>>) -> (runs: Vec<
        OrchestratorRun<'a, B>,
    >)
        ensures
            self.can_run_jobs() ==> self.runs_all(jobs@, runs@),
            !self.can_run_jobs() ==> runs@.len() == 0,
            runs@.map_values(|run: OrchestratorRun<'a, B>| *run.compaction_job)
                == if self.dispatcher is Some && self.system is Some {
                jobs@
            } else {
                seq![]
            },
            forall|i: int|
                0 <= i < runs@.len() ==> (#[trigger] runs@[i]).collection_id
                    == jobs@[i].collection_id,
    {
        let mut runs: Vec<OrchestratorRun<'a, B>> = Vec::new();
        let mut i: usize = 0;
        while i < jobs.len()
            invariant
                i <= jobs@.len(),
                runs@.len() == if self.can_run_jobs() {
                    i as nat
                } else {
                    0
                },
                forall|j: int|
                    0 <= j < runs@.len() ==> self.runs(jobs@[j], #[trigger] runs@[j]),
            decreases jobs.len() - i,
        {
            if let Ok(run) = self.compact(&jobs[i]) {
                runs.push(run);
            }
            i += 1;
        }
        assert(runs@.map_values(|run: OrchestratorRun<'a, B>| *run.compaction_job)
            =~= if self.dispatcher is Some && self.system is Some {
            jobs@
        } else {
            seq![]
        });
        runs
    }
}

} // verus!
