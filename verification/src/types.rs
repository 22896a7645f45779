//! The pipeline's central state-transition values: validation outcomes,
//! per-operation dependencies, staging statuses and the pass-completion
//! signal.

use vstd::prelude::*;

use crate::data::ActionHash;
use crate::data::AnyDhtHash;
use crate::data::Action;
use crate::data::ActionDetails;
use crate::data::DhtOpType;

verus! {

/// Result of validating one operation. Every validation path reduces to
/// exactly one of these.
#[derive(Clone, Copy, PartialEq, Eq, Structural, Debug)]
pub enum Outcome {
    /// The operation passed system validation.
    Accepted,
    /// A dependency the node is meant to hold is not held yet; retry once it
    /// arrives.
    AwaitingOpDep(AnyDhtHash),
    /// A dependency is absent from every reachable store; park the
    /// operation and retry on a later pass.
    MissingDhtDep,
    /// The operation violates a structural rule and is terminally rejected.
    Rejected,
}

/// What an operation needs already present to be structurally valid,
/// computed from its kind before validation.
#[derive(Clone, Copy, PartialEq, Eq, Structural, Debug)]
pub enum Dependency {
    Action(ActionHash),
    Entry(crate::data::EntryHash),
    Null,
}

/// Staging state of an operation in the validation limbo store.
#[derive(Clone, Copy, PartialEq, Eq, Structural, Debug)]
pub enum ValidationLimboStatus {
    /// Not yet system-validated, eligible for the next pass.
    Pending,
    /// Waiting for a dependency to be held; eligible for the next pass.
    AwaitingSysDeps(AnyDhtHash),
    /// System validation succeeded; the next pipeline stage takes over.
    SysValidated,
    /// A final status was decided; the integration stage will fold the
    /// operation in through the normal path.
    AwaitingIntegration,
}

/// Final verdict persisted for an operation once it is integrated or
/// explicitly rejected.
#[derive(Clone, Copy, PartialEq, Eq, Structural, Debug)]
pub enum ValidationStatus {
    Valid,
    Rejected,
}

/// Whether one pass over the backlog may have left work behind.
#[derive(Clone, Copy, PartialEq, Eq, Structural, Debug)]
pub enum WorkComplete {
    /// The backlog was smaller than one full concurrency window.
    Complete,
    /// The pass started saturated; the caller should trigger another pass.
    Incomplete,
}

/// The dependency of an operation, by kind.
pub open spec fn spec_get_dependency(kind: DhtOpType, action: Action) -> Dependency {
    match kind {
        DhtOpType::StoreRecord => Dependency::Null,
        DhtOpType::StoreEntry => Dependency::Null,
        DhtOpType::RegisterAgentActivity => match action.prev_action {
            Some(prev) => Dependency::Action(prev),
            None => Dependency::Null,
        },
        DhtOpType::RegisterUpdatedContent => match action.details {
            ActionDetails::Update { original_entry_address, .. } => {
                Dependency::Entry(original_entry_address)
            },
            _ => Dependency::Null,
        },
        DhtOpType::RegisterUpdatedRecord => match action.details {
            ActionDetails::Update { original_action_address, .. } => {
                Dependency::Action(original_action_address)
            },
            _ => Dependency::Null,
        },
        DhtOpType::RegisterDeletedBy => match action.details {
            ActionDetails::Delete { deletes_address, .. } => {
                Dependency::Action(deletes_address)
            },
            _ => Dependency::Null,
        },
        DhtOpType::RegisterDeletedEntryAction => match action.details {
            ActionDetails::Delete { deletes_entry_address, .. } => {
                Dependency::Entry(deletes_entry_address)
            },
            _ => Dependency::Null,
        },
        DhtOpType::RegisterAddLink => Dependency::Null,
        DhtOpType::RegisterRemoveLink => match action.details {
            ActionDetails::DeleteLink { link_add_address } => {
                Dependency::Action(link_add_address)
            },
            _ => Dependency::Null,
        },
    }
}

/// Classify what `action` needs already present before the operation kind
/// `kind` derived from it can be considered structurally valid.
pub fn get_dependency(kind: DhtOpType, action: &Action) -> (dep: Dependency)
    ensures
        dep == spec_get_dependency(kind, *action),
{
    match kind {
        DhtOpType::StoreRecord => Dependency::Null,
        DhtOpType::StoreEntry => Dependency::Null,
        DhtOpType::RegisterAgentActivity => match action.prev_action {
            Some(prev) => Dependency::Action(prev),
            None => Dependency::Null,
        },
        DhtOpType::RegisterUpdatedContent => match action.details {
            ActionDetails::Update { original_entry_address, .. } => {
                Dependency::Entry(original_entry_address)
            },
            _ => Dependency::Null,
        },
        DhtOpType::RegisterUpdatedRecord => match action.details {
            ActionDetails::Update { original_action_address, .. } => {
                Dependency::Action(original_action_address)
            },
            _ => Dependency::Null,
        },
        DhtOpType::RegisterDeletedBy => match action.details {
            ActionDetails::Delete { deletes_address, .. } => {
                Dependency::Action(deletes_address)
            },
            _ => Dependency::Null,
        },
        DhtOpType::RegisterDeletedEntryAction => match action.details {
            ActionDetails::Delete { deletes_entry_address, .. } => {
                Dependency::Entry(deletes_entry_address)
            },
            _ => Dependency::Null,
        },
        DhtOpType::RegisterAddLink => Dependency::Null,
        DhtOpType::RegisterRemoveLink => match action.details {
            ActionDetails::DeleteLink { link_add_address } => {
                Dependency::Action(link_add_address)
            },
            _ => Dependency::Null,
        },
    }
}

} // verus!
