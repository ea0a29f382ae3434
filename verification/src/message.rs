//! The messages that the manager handles.

use vstd::prelude::*;

use crate::collection::CollectionUuid;

verus! {

/// Asks for one round of compaction.
#[derive(Clone, Copy, PartialEq, Eq, Structural, Debug)]
pub struct ScheduledCompactionMessage;

/// Asks for collections to be compacted once, whatever the schedule says.
#[derive(Debug)]
pub struct OneOffCompactionMessage {
    pub collection_ids: Vec<CollectionUuid>,
}

/// A member of the cluster.
#[derive(Debug)]
pub struct Member {
    pub member_id: String,
    pub member_ip: String,
    pub member_node_name: String,
}

/// The members of the cluster.
#[derive(Debug)]
pub struct Memberlist {
    pub members: Vec<Member>,
}

} // verus!
