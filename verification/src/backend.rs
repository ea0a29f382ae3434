//! The types of the services around the manager.

use vstd::prelude::*;

verus! {

/// Names the types of the services that a compaction manager works with.
///
/// The manager hands values of these types on to where they are used and reads
/// nothing inside them.
pub trait Backend {
    /// The system that runs orchestrators.
    type System;

    /// The handle of the dispatcher that runs their tasks.
    type Dispatcher;

    /// The scheduler that picks the collections to compact.
    type Scheduler;

    type Log: Clone;

    type SysDb: Clone;

    type Storage: Clone;

    type BlockfileProvider;

    type HnswIndexProvider;

    /// Assigns collections to the members of the cluster.
    type AssignmentPolicy;

    type LogConfig;

    type SysDbConfig;

    type StorageConfig;

    type AssignmentPolicyConfig;

    type BlockfileProviderConfig;

    type HnswProviderConfig;

    /// What a compaction job says besides its collection.
    type JobDetails;

    /// Where an orchestrator can be told to send its result.
    type ResultChannel;

    /// Why a service could not be set up.
    type ConfigError;

    /// Why an orchestrator failed.
    type OrchestratorError;
}

} // verus!
