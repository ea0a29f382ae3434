//! How the manager starts and answers its messages.

use vstd::pervasive::unreached;
use vstd::prelude::*;

use crate::backend::Backend;
use crate::batch::{BatchEvent, BatchModel, BatchRequest, CompactionBatch};
use crate::collection::CollectionUuid;
use crate::interval::Interval;
use crate::job::OrchestratorRun;
use crate::manager::CompactionManager;
use crate::message::{
    Member, Memberlist, OneOffCompactionMessage, ScheduledCompactionMessage,
};

verus! {

/// Asks for a message to be sent to the manager after an interval.
#[derive(Clone, Copy, PartialEq, Eq, Structural, Debug)]
pub struct ScheduledMessage {
    pub message: ScheduledCompactionMessage,
    pub interval: Interval,
}

/// What the scheduler is told by a message.
pub enum SchedulerCommand {
    /// Compact these collections once.
    AddOneoffCollections(Vec<CollectionUuid>),
    /// The cluster has these members.
    SetMemberlist(Vec<Member>),
}

/// How far a round of scheduled compaction has come.
pub enum CompactionRound {
    /// Its batch is under way.
    Compacting(CompactionBatch),
    /// The indices of the compacted collections are being purged.
    Purging,
    /// The round is over and the next one is scheduled.
    Over,
}

/// The state of a round over mathematical values.
pub enum RoundModel {
    Compacting(BatchModel),
    Purging,
    Over,
}

impl View for CompactionRound {
    type V = RoundModel;

    open spec fn view(&self) -> RoundModel {
        match self {
            CompactionRound::Compacting(batch) => RoundModel::Compacting(batch@),
            CompactionRound::Purging => RoundModel::Purging,
            CompactionRound::Over => RoundModel::Over,
        }
    }
}

/// What a round waits for.
pub enum RoundEvent<'a, B: Backend> {
    /// Its batch goes on.
    Batch(BatchEvent<'a, B>),
    /// The indices have been purged.
    Purged,
}

/// What a round needs to be done next.
pub enum RoundRequest<'a, B: Backend> {
    /// What its batch needs.
    Batch(BatchRequest<'a, B>),
    /// Purge the indices of these collections from the index provider.
    PurgeById(Vec<CollectionUuid>),
    /// Schedule the message that starts the next round.
    Schedule(ScheduledMessage),
}

impl RoundModel {
    /// The batch of the round, if it is under way, is valid and not finished.
    pub open spec fn valid(self) -> bool {
        self matches RoundModel::Compacting(batch) ==> batch.valid() && !(batch is Finished)
    }

    /// The event is one that the round waits for.
    pub open spec fn expects<B: Backend>(self, event: RoundEvent<B>) -> bool {
        match event {
            RoundEvent::Batch(event) => self matches RoundModel::Compacting(batch)
                && batch.expects(event),
            RoundEvent::Purged => self is Purging,
        }
    }

    /// The round once its batch has come to a state: a finished batch is followed by
    /// the purge.
    pub open spec fn with_batch(batch: BatchModel) -> RoundModel {
        if batch is Finished {
            RoundModel::Purging
        } else {
            RoundModel::Compacting(batch)
        }
    }
}

impl<B: Backend> CompactionManager<B> {
    /// The message that starts the next round, at the manager's interval.
    pub open spec fn next_round(self) -> ScheduledMessage {
        ScheduledMessage {
            message: ScheduledCompactionMessage,
            interval: self.compaction_interval,
        }
    }

    /// What a round comes to after an event that it waits for, and what it then needs:
    /// it compacts a batch, purges what the batch compacted, and has the next round
    /// scheduled.
    pub open spec fn round_leads_to(
        self,
        round: RoundModel,
        event: RoundEvent<B>,
        next: RoundModel,
        request: RoundRequest<B>,
    ) -> bool {
        match event {
            RoundEvent::Batch(batch_event) => {
                let batch = self.next_batch(round->Compacting_0, batch_event);
                &&& next == RoundModel::with_batch(batch)
                &&& match batch {
                    BatchModel::Finished { compacted } => {
                        &&& request matches RoundRequest::PurgeById(ids)
                        &&& ids@ == compacted
                    },
                    _ => {
                        &&& request matches RoundRequest::Batch(batch_request)
                        &&& match batch_event {
                            BatchEvent::Scheduled(jobs) => {
                                &&& batch_request matches BatchRequest::RunJobs(runs)
                                &&& self.runs_all(jobs@, runs@)
                            },
                            BatchEvent::JobFinished(_) => batch_request is AwaitJob,
                        }
                    },
                }
            },
            RoundEvent::Purged => {
                &&& next is Over
                &&& request == RoundRequest::<B>::Schedule(self.next_round())
            },
        }
    }

    /// What starting the manager asks for: the first round of compaction.
    pub fn start(&self) -> (request: ScheduledMessage)
        ensures
            request == self.next_round(),
            request.interval == self.compaction_interval,
    {
        ScheduledMessage {
            message: ScheduledCompactionMessage,
            interval: self.compaction_interval,
        }
    }

    /// Begins the round that a scheduled message asks for.
    pub fn handle_scheduled_compaction<'a>(&'a self, _message: ScheduledCompactionMessage) -> (res: (
        CompactionRound,
        RoundRequest<'a, B>,
    ))
        ensures
            res.0@ == RoundModel::Compacting(BatchModel::Scheduling),
            res.0 matches CompactionRound::Compacting(batch) && batch is Scheduling,
            res.1 matches RoundRequest::Batch(request) && request is RunScheduler,
    {
        let (batch, request) = CompactionBatch::begin();
        (CompactionRound::Compacting(batch), RoundRequest::Batch(request))
    }

    /// Carries a round on to its next state: compact a batch, purge what it
    /// compacted, schedule the next round.
    pub fn continue_round<'a>(&'a self, round: CompactionRound, event: RoundEvent<'a, B>) -> (res: (
        CompactionRound,
        RoundRequest<'a, B>,
    ))
        requires
            round@.valid(),
            round@.expects(event),
        ensures
            res.0@.valid(),
            self.round_leads_to(round@, event, res.0@, res.1),
            match event {
                RoundEvent::Batch(BatchEvent::Scheduled(jobs)) => if self.dispatcher is Some
                    && self.system is Some && jobs@.len() > 0 {
                    &&& res.0 matches CompactionRound::Compacting(
                        CompactionBatch::Running { pending, compacted },
                    )
                    &&& pending == jobs@.len()
                    &&& compacted@.len() == 0
                    &&& res.1 matches RoundRequest::Batch(BatchRequest::RunJobs(runs))
                    &&& runs@.map_values(|run: OrchestratorRun<'a, B>| *run.compaction_job) == jobs@
                    &&& forall|i: int|
                        0 <= i < jobs@.len() ==> (#[trigger] runs@[i]).collection_id
                            == jobs@[i].collection_id
                } else {
                    &&& res.0 is Purging
                    &&& res.1 matches RoundRequest::PurgeById(ids)
                    &&& ids@.len() == 0
                },
                RoundEvent::Batch(BatchEvent::JobFinished(outcome)) => {
                    &&& round matches CompactionRound::Compacting(
                        CompactionBatch::Running { pending, compacted },
                    )
                    &&& {
                        let ids = match outcome {
                            Ok(response) => compacted@.push(response.compaction_job.collection_id),
                            Err(_) => compacted@,
                        };
                        if pending > 1 {
                            &&& res.0 matches CompactionRound::Compacting(
                                CompactionBatch::Running { pending: left, compacted: collected },
                            )
                            &&& left == pending - 1
                            &&& collected@ == ids
                            &&& res.1 matches RoundRequest::Batch(request)
                            &&& request is AwaitJob
                        } else {
                            &&& res.0 is Purging
                            &&& res.1 matches RoundRequest::PurgeById(purged)
                            &&& purged@ == ids
                        }
                    }
                },
                RoundEvent::Purged => {
                    &&& res.0 is Over
                    &&& res.1 matches RoundRequest::Schedule(request)
                    &&& request.interval == self.compaction_interval
                },
            },
    {
        match (round, event) {
            (CompactionRound::Compacting(batch), RoundEvent::Batch(event)) => {
                match self.compact_batch(batch, event) {
                    (CompactionBatch::Finished { compacted }, _) => (
                        CompactionRound::Purging,
                        RoundRequest::PurgeById(compacted),
                    ),
                    (batch, request) => (
                        CompactionRound::Compacting(batch),
                        RoundRequest::Batch(request),
                    ),
                }
            },
            (_, RoundEvent::Purged) => (
                CompactionRound::Over,
                RoundRequest::Schedule(self.start()),
            ),
            (_, _) => unreached(),
        }
    }

    /// What the scheduler is told by a message about one-off compactions.
    pub fn handle_oneoff_compaction(&self, message: OneOffCompactionMessage) -> (command:
        SchedulerCommand)
        ensures
            command == SchedulerCommand::AddOneoffCollections(message.collection_ids),
    {
        SchedulerCommand::AddOneoffCollections(message.collection_ids)
    }

    /// What the scheduler is told by a new list of the cluster's members.
    pub fn handle_memberlist(&self, message: Memberlist) -> (command: SchedulerCommand)
        ensures
            command == SchedulerCommand::SetMemberlist(message.members),
    {
        SchedulerCommand::SetMemberlist(message.members)
    }
}

} // verus!
