//! Compaction jobs, and what their orchestrators are given and report.

use vstd::prelude::*;

use crate::backend::Backend;
use crate::collection::CollectionUuid;
use crate::error::CompactionError;

verus! {

/// A collection that is to be compacted.
pub struct CompactionJob<B: Backend> {
    pub collection_id: CollectionUuid,
    pub details: B::JobDetails,
}

/// What an orchestrator reports of a compaction that it completed.
pub struct CompactionResponse<B: Backend> {
    pub compaction_job: CompactionJob<B>,
}

/// How an orchestrator's run ended.
pub type JobOutcome<B> = Result<
    CompactionResponse<B>,
    <B as Backend>::OrchestratorError,
>;

/// Why a job was not compacted.
pub enum JobError<B: Backend> {
    /// The manager did not run it.
    Refused(CompactionError),
    /// Its orchestrator failed.
    Orchestrator(B::OrchestratorError),
}

/// What the orchestrator of one job is made of, and the system that it runs on.
pub struct OrchestratorRun<'a, B: Backend> {
    pub compaction_job: &'a CompactionJob<B>,
    pub collection_id: CollectionUuid,
    pub log: &'a B::Log,
    pub sysdb: &'a B::SysDb,
    pub blockfile_provider: &'a B::BlockfileProvider,
    pub hnsw_index_provider: &'a B::HnswIndexProvider,
    pub dispatcher: &'a B::Dispatcher,
    pub result_channel: Option<B::ResultChannel>,
    pub max_compaction_size: usize,
    pub max_partition_size: usize,
    pub system: &'a B::System,
}

} // verus!
