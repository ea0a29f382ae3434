//! The configuration of the compaction service.

use vstd::prelude::*;

use crate::backend::Backend;

verus! {

/// The settings of the compactor itself.
#[derive(Debug)]
pub struct CompactorConfig {
    pub compaction_manager_queue_size: usize,
    pub max_concurrent_jobs: usize,
    pub compaction_interval_sec: u64,
    pub min_compaction_size: usize,
    pub max_compaction_size: usize,
    pub max_partition_size: usize,
    /// The identifiers of the collections that are disabled.
    pub disabled_collections: Vec<String>,
}

pub struct CompactionServiceConfig<B: Backend> {
    pub my_member_id: String,
    pub log: B::LogConfig,
    pub sysdb: B::SysDbConfig,
    pub storage: B::StorageConfig,
    pub assignment_policy: B::AssignmentPolicyConfig,
    pub blockfile_provider: B::BlockfileProviderConfig,
    pub hnsw_provider: B::HnswProviderConfig,
    pub compactor: CompactorConfig,
}

} // verus!
