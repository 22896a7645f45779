//! The ledger data model: content addresses, actions, entries, records and
//! the operations derived from them.
//!
//! Content addresses are opaque identities here: the digests themselves are
//! computed by the node's hashing layer, and validation only ever compares
//! them for equality, so each address is carried as a plain integer token.
//! Timestamps are microseconds since the epoch, carried as `i64`.

use vstd::prelude::*;

verus! {

/// Content address of an action.
#[derive(Clone, Copy, PartialEq, Eq, Structural, Debug)]
pub struct ActionHash(pub u64);

/// Content address of an entry payload.
#[derive(Clone, Copy, PartialEq, Eq, Structural, Debug)]
pub struct EntryHash(pub u64);

/// Content address of one distributed-ledger operation.
#[derive(Clone, Copy, PartialEq, Eq, Structural, Debug)]
pub struct OpHash(pub u64);

/// Public key identifying the agent that authors a hash chain.
#[derive(Clone, Copy, PartialEq, Eq, Structural, Debug)]
pub struct AgentPubKey(pub u64);

/// Hash identifying an application definition.
#[derive(Clone, Copy, PartialEq, Eq, Structural, Debug)]
pub struct DnaHash(pub u64);

/// A running application instance: an application definition bound to one
/// agent. The unit of fault isolation for critical-failure handling.
#[derive(Clone, Copy, PartialEq, Eq, Structural, Debug)]
pub struct CellId {
    pub dna: DnaHash,
    pub agent: AgentPubKey,
}

/// Either kind of address an operation can name as a dependency.
#[derive(Clone, Copy, PartialEq, Eq, Structural, Debug)]
pub enum AnyDhtHash {
    Action(ActionHash),
    Entry(EntryHash),
}

/// Whether an application entry is shared on the ledger or kept private to
/// its author.
#[derive(Clone, Copy, PartialEq, Eq, Structural, Debug)]
pub enum EntryVisibility {
    Public,
    Private,
}

/// An application entry type as declared by an action: the position of its
/// definition inside the application, plus the declared visibility.
#[derive(Clone, Copy, PartialEq, Eq, Structural, Debug)]
pub struct AppEntryDef {
    pub zome_index: u8,
    pub entry_index: u8,
    pub visibility: EntryVisibility,
}

/// The type an action declares for the entry it carries.
#[derive(Clone, Copy, PartialEq, Eq, Structural, Debug)]
pub enum EntryType {
    AgentPubKey,
    App(AppEntryDef),
    CapClaim,
    CapGrant,
}

impl EntryType {
    /// Agent keys are public, capabilities stay private, and an
    /// application entry carries its declared visibility.
    pub open spec fn spec_visibility(self) -> EntryVisibility {
        match self {
            EntryType::AgentPubKey => EntryVisibility::Public,
            EntryType::App(def) => def.visibility,
            EntryType::CapClaim => EntryVisibility::Private,
            EntryType::CapGrant => EntryVisibility::Private,
        }
    }

    /// The visibility this entry type travels with.
    pub fn visibility(&self) -> (v: EntryVisibility)
        ensures
            v == self.spec_visibility(),
    {
        match self {
            EntryType::AgentPubKey => EntryVisibility::Public,
            EntryType::App(def) => def.visibility,
            EntryType::CapClaim => EntryVisibility::Private,
            EntryType::CapGrant => EntryVisibility::Private,
        }
    }
}

/// What one action does to its author's chain, with the references it
/// carries.
#[derive(Clone, Copy, PartialEq, Eq, Debug)]
pub enum ActionDetails {
    /// Chain-open marker naming the application definition. Always the first
    /// action of a chain.
    Dna(DnaHash),
    /// Agent-activity marker: carries no entry and no extra references.
    AgentValidationPkg,
    /// Creates a new entry.
    Create { entry_type: EntryType, entry_hash: EntryHash },
    /// Replaces an earlier new-entry action and its entry.
    Update {
        entry_type: EntryType,
        entry_hash: EntryHash,
        original_action_address: ActionHash,
        original_entry_address: EntryHash,
    },
    /// Marks an earlier new-entry action as deleted.
    Delete { deletes_address: ActionHash, deletes_entry_address: EntryHash },
    /// Attaches a link; only the tag length matters to system validation.
    CreateLink { tag_size: u64 },
    /// Removes an earlier link.
    DeleteLink { link_add_address: ActionHash },
}

/// A node in an agent's hash chain.
#[derive(Clone, Copy, PartialEq, Eq, Debug)]
pub struct Action {
    pub author: AgentPubKey,
    /// Microseconds since the epoch.
    pub timestamp: i64,
    /// Position in the author's chain; the chain-open marker sits at zero.
    pub action_seq: u32,
    /// Address of the author's previous action; absent only at the chain
    /// open.
    pub prev_action: Option<ActionHash>,
    pub details: ActionDetails,
}

impl Action {
    /// Does this action open a chain?
    pub open spec fn spec_is_dna(self) -> bool {
        self.details is Dna
    }

    /// Does this action write a new entry (create or update)?
    pub open spec fn spec_is_new_entry(self) -> bool {
        self.details is Create || self.details is Update
    }

    /// The entry type a new-entry action declares.
    pub open spec fn spec_entry_type(self) -> Option<EntryType> {
        match self.details {
            ActionDetails::Create { entry_type, .. } => Some(entry_type),
            ActionDetails::Update { entry_type, .. } => Some(entry_type),
            _ => None,
        }
    }

    /// The entry address a new-entry action declares.
    pub open spec fn spec_entry_hash(self) -> Option<EntryHash> {
        match self.details {
            ActionDetails::Create { entry_hash, .. } => Some(entry_hash),
            ActionDetails::Update { entry_hash, .. } => Some(entry_hash),
            _ => None,
        }
    }
}

/// One action of a counter-signing session, together with its content
/// address. The session's full action set is materialized on the entry so
/// that its dependencies can be satisfied atomically.
#[derive(Clone, Copy, PartialEq, Eq, Debug)]
pub struct SessionAction {
    pub hash: ActionHash,
    pub action: Action,
}

/// The payload of an entry, as far as system validation reads it.
#[derive(Clone, PartialEq, Eq, Debug)]
pub enum EntryContent {
    /// An agent's public key entry.
    Agent(AgentPubKey),
    /// An ordinary application entry; its bytes are opaque here.
    App,
    /// A counter-signing session entry carrying the full action set implied
    /// by every signer.
    CounterSign(Vec<SessionAction>),
    /// A capability claim.
    CapClaim,
    /// A capability grant.
    CapGrant,
}

/// An entry payload. Its content address and byte length are computed by
/// the hashing layer and carried here as plain values.
#[derive(Clone, PartialEq, Eq, Debug)]
pub struct Entry {
    pub hash: EntryHash,
    pub size: u64,
    pub content: EntryContent,
}

/// A signed action together with the entry it carries, addressed by the
/// action's hash.
#[derive(Clone, PartialEq, Eq, Debug)]
pub struct Record {
    pub action_hash: ActionHash,
    pub action: Action,
    pub entry: Option<Entry>,
}

/// The fixed set of operation kinds derived from an action.
#[derive(Clone, Copy, PartialEq, Eq, Structural, Debug)]
pub enum DhtOpType {
    StoreRecord,
    StoreEntry,
    RegisterAgentActivity,
    RegisterUpdatedContent,
    RegisterUpdatedRecord,
    RegisterDeletedBy,
    RegisterDeletedEntryAction,
    RegisterAddLink,
    RegisterRemoveLink,
}

/// One unit of replicated state change: an operation kind applied to a
/// signed action, optionally carrying the entry payload. Immutable once
/// constructed.
#[derive(Clone, PartialEq, Eq, Debug)]
pub struct DhtOp {
    pub kind: DhtOpType,
    /// Content address of the action the operation carries.
    pub action_hash: ActionHash,
    pub action: Action,
    pub entry: Option<Entry>,
}

/// Each operation kind constrains the shape of the action it carries; the
/// constructors of the wider system enforce this by typing, so validation
/// may assume it.
pub open spec fn op_well_formed(op: DhtOp) -> bool {
    match op.kind {
        DhtOpType::StoreRecord => true,
        DhtOpType::StoreEntry => op.action.spec_is_new_entry() && op.entry is Some,
        DhtOpType::RegisterAgentActivity => true,
        DhtOpType::RegisterUpdatedContent => op.action.details is Update,
        DhtOpType::RegisterUpdatedRecord => op.action.details is Update,
        DhtOpType::RegisterDeletedBy => op.action.details is Delete,
        DhtOpType::RegisterDeletedEntryAction => op.action.details is Delete,
        DhtOpType::RegisterAddLink => op.action.details is CreateLink,
        DhtOpType::RegisterRemoveLink => op.action.details is DeleteLink,
    }
}

/// Test the shape constraint of [`op_well_formed`] on a concrete
/// operation, for callers that assemble operations from raw parts.
pub fn op_is_well_formed(op: &DhtOp) -> (r: bool)
    ensures
        r == op_well_formed(*op),
{
    match op.kind {
        DhtOpType::StoreRecord => true,
        DhtOpType::StoreEntry => {
            let new_entry = match op.action.details {
                ActionDetails::Create { .. } => true,
                ActionDetails::Update { .. } => true,
                _ => false,
            };
            new_entry && op.entry.is_some()
        },
        DhtOpType::RegisterAgentActivity => true,
        DhtOpType::RegisterUpdatedContent => matches!(op.action.details, ActionDetails::Update { .. }),
        DhtOpType::RegisterUpdatedRecord => matches!(op.action.details, ActionDetails::Update { .. }),
        DhtOpType::RegisterDeletedBy => matches!(op.action.details, ActionDetails::Delete { .. }),
        DhtOpType::RegisterDeletedEntryAction => matches!(
            op.action.details,
            ActionDetails::Delete { .. }
        ),
        DhtOpType::RegisterAddLink => matches!(op.action.details, ActionDetails::CreateLink { .. }),
        DhtOpType::RegisterRemoveLink => matches!(op.action.details, ActionDetails::DeleteLink { .. }),
    }
}

/// The visibility registered for one entry definition of one zome of an
/// application definition.
#[derive(Clone, PartialEq, Eq, Debug)]
pub struct ZomeDef {
    pub entry_defs: Vec<EntryVisibility>,
}

/// An application definition: its hash and the entry definitions its zomes
/// register, indexed by zome position then definition position.
#[derive(Clone, PartialEq, Eq, Debug)]
pub struct DnaDef {
    pub hash: DnaHash,
    pub zomes: Vec<ZomeDef>,
}

} // verus!
