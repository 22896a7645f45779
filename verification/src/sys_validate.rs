//! The per-operation system-validation checks and their failure taxonomy.
//!
//! Every check returns `Ok` or names the exact [`ValidationOutcome`] it
//! fails with. Failures are expected, data-dependent verdicts, never
//! infrastructure errors: the caller maps each to a retry or to a terminal
//! rejection.

use vstd::prelude::*;

use crate::data::Action;
use crate::data::ActionDetails;
use crate::data::ActionHash;
use crate::data::AnyDhtHash;
use crate::data::AppEntryDef;
use crate::data::DnaDef;
use crate::data::Entry;
use crate::data::EntryContent;
use crate::data::EntryHash;
use crate::data::EntryType;
use crate::data::EntryVisibility;
use crate::data::Record;
use crate::data::SessionAction;
use crate::workspace::SysValidationWorkspace;

verus! {

/// The largest entry payload the ledger accepts, in bytes.
pub const MAX_ENTRY_SIZE: u64 = 16_000_000;

/// The largest link tag the ledger accepts, in bytes.
pub const MAX_TAG_SIZE: u64 = 1_000;

/// Why an action's previous-action linkage is unacceptable.
#[derive(Clone, Copy, PartialEq, Eq, Debug)]
pub enum PrevActionError {
    /// The previous action is meant to be held here but is not, yet.
    MissingMeta(ActionHash),
    /// A chain-open action carries a previous action or a non-zero
    /// position, or opens a chain that already has activity.
    InvalidRoot,
    /// A non-opening action names no previous action.
    MissingPrev,
    /// The previous action's timestamp is not strictly earlier.
    Timestamp,
    /// The action's position is not exactly one past its predecessor's.
    InvalidSeq { seq: u32, prev_seq: u32 },
    /// Another integrated action already occupies this chain position.
    ChainFork { seq: u32 },
}

/// The failure verdicts system validation can reach for one operation.
#[derive(Clone, Copy, PartialEq, Eq, Debug)]
pub enum ValidationOutcome {
    /// The action is not part of the counter-signing session it rides on.
    ActionNotInCounterSigningSession(ActionHash),
    /// The record's signature or author failed the pre-check; such a record
    /// is dropped before it ever enters the pipeline.
    Counterfeit,
    /// The counter-signing session data is malformed.
    CounterSigningError,
    /// A dependency is absent from every reachable store.
    DepMissingFromDht(AnyDhtHash),
    /// The declared entry definition position does not exist in its zome.
    EntryDefId { zome_index: u8, entry_index: u8 },
    /// The entry's content address does not match the declared one.
    EntryHashMismatch,
    /// The entry payload exceeds the size limit.
    EntryTooLarge(u64),
    /// The entry payload does not fit the declared entry type.
    EntryTypeMismatch,
    /// The declared visibility contradicts the registered definition.
    EntryVisibility(EntryVisibility),
    /// The action a link removal names is not a link creation.
    NotCreateLink(ActionHash),
    /// The action does not write a new entry where one is required.
    NotNewEntry(Action),
    /// A dependency this authority is meant to hold is not held yet.
    NotHoldingDep(AnyDhtHash),
    /// The previous-action linkage is unacceptable.
    PrevActionError(PrevActionError),
    /// A private entry is carried where only public ones may travel.
    PrivateEntry,
    /// A counter-signing preflight response carries a bad signature.
    PreflightResponseSignature,
    /// The link tag exceeds the size limit.
    TagTooLarge(u64),
    /// An update declares a different entry type than the original.
    UpdateTypeMismatch(EntryType, EntryType),
    /// An action signature failed verification.
    VerifySignature,
    /// The declared zome position does not exist in the application.
    ZomeIndex { zome_index: u8 },
}

/// A chain-open action must stand alone at position zero; every other
/// action must name a predecessor.
pub open spec fn spec_check_prev_action(action: Action) -> Result<(), ValidationOutcome> {
    if action.spec_is_dna() {
        if action.prev_action is None && action.action_seq == 0 {
            Ok(())
        } else {
            Err(ValidationOutcome::PrevActionError(PrevActionError::InvalidRoot))
        }
    } else {
        if action.prev_action is Some {
            Ok(())
        } else {
            Err(ValidationOutcome::PrevActionError(PrevActionError::MissingPrev))
        }
    }
}

pub fn check_prev_action(action: &Action) -> (r: Result<(), ValidationOutcome>)
    ensures
        r == spec_check_prev_action(*action),
{
    let is_dna = match action.details {
        ActionDetails::Dna(_) => true,
        _ => false,
    };
    if is_dna {
        if action.prev_action.is_none() && action.action_seq == 0 {
            Ok(())
        } else {
            Err(ValidationOutcome::PrevActionError(PrevActionError::InvalidRoot))
        }
    } else {
        if action.prev_action.is_some() {
            Ok(())
        } else {
            Err(ValidationOutcome::PrevActionError(PrevActionError::MissingPrev))
        }
    }
}

/// The predecessor must be strictly earlier in time.
pub open spec fn spec_check_prev_timestamp(action: Action, prev: Action) -> Result<
    (),
    ValidationOutcome,
> {
    if prev.timestamp < action.timestamp {
        Ok(())
    } else {
        Err(ValidationOutcome::PrevActionError(PrevActionError::Timestamp))
    }
}

pub fn check_prev_timestamp(action: &Action, prev: &Action) -> (r: Result<(), ValidationOutcome>)
    ensures
        r == spec_check_prev_timestamp(*action, *prev),
{
    if prev.timestamp < action.timestamp {
        Ok(())
    } else {
        Err(ValidationOutcome::PrevActionError(PrevActionError::Timestamp))
    }
}

/// The action must sit exactly one position past its predecessor.
pub open spec fn spec_check_prev_seq(action: Action, prev: Action) -> Result<
    (),
    ValidationOutcome,
> {
    if action.action_seq == prev.action_seq + 1 {
        Ok(())
    } else {
        Err(
            ValidationOutcome::PrevActionError(
                PrevActionError::InvalidSeq { seq: action.action_seq, prev_seq: prev.action_seq },
            ),
        )
    }
}

pub fn check_prev_seq(action: &Action, prev: &Action) -> (r: Result<(), ValidationOutcome>)
    ensures
        r == spec_check_prev_seq(*action, *prev),
{
    if prev.action_seq < u32::MAX && action.action_seq == prev.action_seq + 1 {
        Ok(())
    } else {
        Err(
            ValidationOutcome::PrevActionError(
                PrevActionError::InvalidSeq { seq: action.action_seq, prev_seq: prev.action_seq },
            ),
        )
    }
}

/// The entry payload must fit the entry type the action declares.
pub open spec fn spec_check_entry_type(entry_type: EntryType, entry: Entry) -> Result<
    (),
    ValidationOutcome,
> {
    match (entry_type, entry.content) {
        (EntryType::AgentPubKey, EntryContent::Agent(_)) => Ok(()),
        (EntryType::App(_), EntryContent::App) => Ok(()),
        (EntryType::App(_), EntryContent::CounterSign(_)) => Ok(()),
        (EntryType::CapClaim, EntryContent::CapClaim) => Ok(()),
        (EntryType::CapGrant, EntryContent::CapGrant) => Ok(()),
        _ => Err(ValidationOutcome::EntryTypeMismatch),
    }
}

pub fn check_entry_type(entry_type: &EntryType, entry: &Entry) -> (r: Result<
    (),
    ValidationOutcome,
>)
    ensures
        r == spec_check_entry_type(*entry_type, *entry),
{
    match (entry_type, &entry.content) {
        (EntryType::AgentPubKey, EntryContent::Agent(_)) => Ok(()),
        (EntryType::App(_), EntryContent::App) => Ok(()),
        (EntryType::App(_), EntryContent::CounterSign(_)) => Ok(()),
        (EntryType::CapClaim, EntryContent::CapClaim) => Ok(()),
        (EntryType::CapGrant, EntryContent::CapGrant) => Ok(()),
        _ => Err(ValidationOutcome::EntryTypeMismatch),
    }
}

/// The declared definition must exist in the application and agree on
/// visibility; the registered visibility is returned for the privacy
/// check.
pub open spec fn spec_check_app_entry_def(dna: DnaDef, def: AppEntryDef) -> Result<
    EntryVisibility,
    ValidationOutcome,
> {
    if def.zome_index >= dna.zomes@.len() {
        Err(ValidationOutcome::ZomeIndex { zome_index: def.zome_index })
    } else if def.entry_index >= dna.zomes@[def.zome_index as int].entry_defs@.len() {
        Err(
            ValidationOutcome::EntryDefId {
                zome_index: def.zome_index,
                entry_index: def.entry_index,
            },
        )
    } else if dna.zomes@[def.zome_index as int].entry_defs@[def.entry_index as int]
        != def.visibility {
        Err(ValidationOutcome::EntryVisibility(def.visibility))
    } else {
        Ok(dna.zomes@[def.zome_index as int].entry_defs@[def.entry_index as int])
    }
}

pub fn check_app_entry_def(dna: &DnaDef, def: &AppEntryDef) -> (r: Result<
    EntryVisibility,
    ValidationOutcome,
>)
    ensures
        r == spec_check_app_entry_def(*dna, *def),
{
    if def.zome_index as usize >= dna.zomes.len() {
        Err(ValidationOutcome::ZomeIndex { zome_index: def.zome_index })
    } else {
        let zome = &dna.zomes[def.zome_index as usize];
        if def.entry_index as usize >= zome.entry_defs.len() {
            Err(
                ValidationOutcome::EntryDefId {
                    zome_index: def.zome_index,
                    entry_index: def.entry_index,
                },
            )
        } else {
            let registered = zome.entry_defs[def.entry_index as usize];
            if registered != def.visibility {
                Err(ValidationOutcome::EntryVisibility(def.visibility))
            } else {
                Ok(registered)
            }
        }
    }
}

/// Private entries never travel on the ledger.
pub open spec fn spec_check_not_private(visibility: EntryVisibility) -> Result<
    (),
    ValidationOutcome,
> {
    match visibility {
        EntryVisibility::Public => Ok(()),
        EntryVisibility::Private => Err(ValidationOutcome::PrivateEntry),
    }
}

pub fn check_not_private(visibility: EntryVisibility) -> (r: Result<(), ValidationOutcome>)
    ensures
        r == spec_check_not_private(visibility),
{
    match visibility {
        EntryVisibility::Public => Ok(()),
        EntryVisibility::Private => Err(ValidationOutcome::PrivateEntry),
    }
}

/// The entry's content address must match the one the action declares.
pub open spec fn spec_check_entry_hash(declared: EntryHash, entry: Entry) -> Result<
    (),
    ValidationOutcome,
> {
    if entry.hash == declared {
        Ok(())
    } else {
        Err(ValidationOutcome::EntryHashMismatch)
    }
}

pub fn check_entry_hash(declared: EntryHash, entry: &Entry) -> (r: Result<(), ValidationOutcome>)
    ensures
        r == spec_check_entry_hash(declared, *entry),
{
    if entry.hash == declared {
        Ok(())
    } else {
        Err(ValidationOutcome::EntryHashMismatch)
    }
}

/// The entry payload must fit the size limit.
pub open spec fn spec_check_entry_size(entry: Entry) -> Result<(), ValidationOutcome> {
    if entry.size <= MAX_ENTRY_SIZE {
        Ok(())
    } else {
        Err(ValidationOutcome::EntryTooLarge(entry.size))
    }
}

pub fn check_entry_size(entry: &Entry) -> (r: Result<(), ValidationOutcome>)
    ensures
        r == spec_check_entry_size(*entry),
{
    if entry.size <= MAX_ENTRY_SIZE {
        Ok(())
    } else {
        Err(ValidationOutcome::EntryTooLarge(entry.size))
    }
}

/// A link tag must fit the size limit.
pub open spec fn spec_check_tag_size(tag_size: u64) -> Result<(), ValidationOutcome> {
    if tag_size <= MAX_TAG_SIZE {
        Ok(())
    } else {
        Err(ValidationOutcome::TagTooLarge(tag_size))
    }
}

pub fn check_tag_size(tag_size: u64) -> (r: Result<(), ValidationOutcome>)
    ensures
        r == spec_check_tag_size(tag_size),
{
    if tag_size <= MAX_TAG_SIZE {
        Ok(())
    } else {
        Err(ValidationOutcome::TagTooLarge(tag_size))
    }
}

/// The action must write a new entry (create or update).
pub open spec fn spec_check_new_entry_action(action: Action) -> Result<(), ValidationOutcome> {
    if action.spec_is_new_entry() {
        Ok(())
    } else {
        Err(ValidationOutcome::NotNewEntry(action))
    }
}

pub fn check_new_entry_action(action: &Action) -> (r: Result<(), ValidationOutcome>)
    ensures
        r == spec_check_new_entry_action(*action),
{
    match action.details {
        ActionDetails::Create { .. } => Ok(()),
        ActionDetails::Update { .. } => Ok(()),
        _ => Err(ValidationOutcome::NotNewEntry(*action)),
    }
}

/// An update must declare the same entry type as the action it replaces.
pub open spec fn spec_check_update_reference(update: Action, original: Action) -> Result<
    (),
    ValidationOutcome,
> {
    if update.spec_entry_type() == original.spec_entry_type() {
        Ok(())
    } else {
        Err(
            ValidationOutcome::UpdateTypeMismatch(
                original.spec_entry_type().unwrap(),
                update.spec_entry_type().unwrap(),
            ),
        )
    }
}

pub fn check_update_reference(update: &Action, original: &Action) -> (r: Result<
    (),
    ValidationOutcome,
>)
    requires
        update.spec_is_new_entry(),
        original.spec_is_new_entry(),
    ensures
        r == spec_check_update_reference(*update, *original),
{
    let update_type: EntryType = match update.details {
        ActionDetails::Create { entry_type, .. } => entry_type,
        ActionDetails::Update { entry_type, .. } => entry_type,
        _ => {
            return Err(ValidationOutcome::NotNewEntry(*update));
        },
    };
    let original_type: EntryType = match original.details {
        ActionDetails::Create { entry_type, .. } => entry_type,
        ActionDetails::Update { entry_type, .. } => entry_type,
        _ => {
            return Err(ValidationOutcome::NotNewEntry(*original));
        },
    };
    if update_type == original_type {
        Ok(())
    } else {
        Err(ValidationOutcome::UpdateTypeMismatch(original_type, update_type))
    }
}

/// The action an update replaces must itself write a new entry of the same
/// declared type.
pub open spec fn spec_update_check(update: Action, original: Action) -> Result<
    (),
    ValidationOutcome,
> {
    match spec_check_new_entry_action(original) {
        Ok(_) => spec_check_update_reference(update, original),
        Err(e) => Err(e),
    }
}

pub fn update_check(update: &Action, original: &Action) -> (r: Result<(), ValidationOutcome>)
    requires
        update.spec_is_new_entry(),
    ensures
        r == spec_update_check(*update, *original),
{
    match check_new_entry_action(original) {
        Ok(_) => check_update_reference(update, original),
        Err(e) => Err(e),
    }
}

/// The validating action must be one of the session's own actions.
pub open spec fn spec_check_countersigning_session_data(
    action_hash: ActionHash,
    session: Seq<SessionAction>,
) -> Result<(), ValidationOutcome> {
    if exists|i: int| 0 <= i < session.len() && (#[trigger] session[i]).hash == action_hash {
        Ok(())
    } else {
        Err(ValidationOutcome::ActionNotInCounterSigningSession(action_hash))
    }
}

pub fn check_countersigning_session_data(
    action_hash: ActionHash,
    session: &Vec<SessionAction>,
) -> (r: Result<(), ValidationOutcome>)
    ensures
        r == spec_check_countersigning_session_data(action_hash, session@),
{
    let mut i: usize = 0;
    while i < session.len()
        invariant
            i <= session@.len(),
            forall|j: int| 0 <= j < i ==> (#[trigger] session@[j]).hash != action_hash,
        decreases session@.len() - i,
    {
        if session[i].hash == action_hash {
            return Ok(());
        }
        i = i + 1;
    }
    Err(ValidationOutcome::ActionNotInCounterSigningSession(action_hash))
}

/// A chain-open action may only start a chain with no integrated activity.
pub open spec fn spec_check_valid_if_dna(action: Action, ws: SysValidationWorkspace) -> Result<
    (),
    ValidationOutcome,
> {
    if action.spec_is_dna() && !ws.spec_chain_empty(action.author) {
        Err(ValidationOutcome::PrevActionError(PrevActionError::InvalidRoot))
    } else {
        Ok(())
    }
}

pub fn check_valid_if_dna(action: &Action, ws: &SysValidationWorkspace) -> (r: Result<
    (),
    ValidationOutcome,
>)
    ensures
        r == spec_check_valid_if_dna(*action, *ws),
{
    let is_dna = match action.details {
        ActionDetails::Dna(_) => true,
        _ => false,
    };
    if is_dna && !ws.is_chain_empty(&action.author) {
        Err(ValidationOutcome::PrevActionError(PrevActionError::InvalidRoot))
    } else {
        Ok(())
    }
}

/// No other integrated action may already occupy the action's chain
/// position: a second occupant would mean the author rolled their chain
/// back and forked it.
pub open spec fn spec_check_chain_rollback(
    action: Action,
    action_hash: ActionHash,
    ws: SysValidationWorkspace,
) -> Result<(), ValidationOutcome> {
    if ws.spec_seq_is_empty(action.author, action.action_seq, action_hash) {
        Ok(())
    } else {
        Err(
            ValidationOutcome::PrevActionError(
                PrevActionError::ChainFork { seq: action.action_seq },
            ),
        )
    }
}

pub fn check_chain_rollback(
    action: &Action,
    action_hash: ActionHash,
    ws: &SysValidationWorkspace,
) -> (r: Result<(), ValidationOutcome>)
    ensures
        r == spec_check_chain_rollback(*action, action_hash, *ws),
{
    if ws.action_seq_is_empty(action, action_hash) {
        Ok(())
    } else {
        Err(
            ValidationOutcome::PrevActionError(
                PrevActionError::ChainFork { seq: action.action_seq },
            ),
        )
    }
}

/// The check a caller wants run against a held dependency once it is
/// found.
#[derive(Clone, Copy, PartialEq, Eq, Debug)]
pub enum DepCheck {
    /// Holding the dependency is itself enough.
    Nothing,
    /// The held action must write a new entry.
    IsNewEntry,
    /// The held action must be a valid update target for this action.
    UpdateReference(Action),
}

/// Run the caller's check against the held record.
pub open spec fn spec_run_dep_check(check: DepCheck, rec: Record) -> Result<
    (),
    ValidationOutcome,
> {
    match check {
        DepCheck::Nothing => Ok(()),
        DepCheck::IsNewEntry => spec_check_new_entry_action(rec.action),
        DepCheck::UpdateReference(update) => spec_update_check(update, rec.action),
    }
}

pub fn run_dep_check(check: &DepCheck, rec: &Record) -> (r: Result<(), ValidationOutcome>)
    requires
        match *check {
            DepCheck::UpdateReference(update) => update.spec_is_new_entry(),
            _ => true,
        },
    ensures
        r == spec_run_dep_check(*check, *rec),
{
    match check {
        DepCheck::Nothing => Ok(()),
        DepCheck::IsNewEntry => check_new_entry_action(&rec.action),
        DepCheck::UpdateReference(update) => update_check(update, &rec.action),
    }
}

/// This authority must hold the dependency validated. A dependency that is
/// merely fetchable is registered for background ingestion and awaited; one
/// absent everywhere is parked.
pub open spec fn spec_check_and_hold(
    hash: ActionHash,
    ws: SysValidationWorkspace,
    check: DepCheck,
) -> Result<(), ValidationOutcome> {
    match ws.spec_held(hash) {
        Some(rec) => spec_run_dep_check(check, rec),
        None => match ws.spec_retrieve(hash) {
            Some(_) => Err(ValidationOutcome::NotHoldingDep(AnyDhtHash::Action(hash))),
            None => Err(ValidationOutcome::DepMissingFromDht(AnyDhtHash::Action(hash))),
        },
    }
}

pub fn check_and_hold(
    hash: ActionHash,
    ws: &SysValidationWorkspace,
    check: &DepCheck,
) -> (r: Result<(), ValidationOutcome>)
    requires
        match *check {
            DepCheck::UpdateReference(update) => update.spec_is_new_entry(),
            _ => true,
        },
    ensures
        r == spec_check_and_hold(hash, *ws, *check),
{
    match ws.held_record(hash) {
        Some(rec) => run_dep_check(check, rec),
        None => match ws.retrieve_action(hash) {
            Some(_) => Err(ValidationOutcome::NotHoldingDep(AnyDhtHash::Action(hash))),
            None => Err(ValidationOutcome::DepMissingFromDht(AnyDhtHash::Action(hash))),
        },
    }
}

/// Like [`check_and_hold`], but the held record must be a link creation.
pub open spec fn spec_check_and_hold_register_add_link(
    hash: ActionHash,
    ws: SysValidationWorkspace,
) -> Result<(), ValidationOutcome> {
    match ws.spec_held(hash) {
        Some(rec) => if rec.action.details is CreateLink {
            Ok(())
        } else {
            Err(ValidationOutcome::NotCreateLink(hash))
        },
        None => match ws.spec_retrieve(hash) {
            Some(_) => Err(ValidationOutcome::NotHoldingDep(AnyDhtHash::Action(hash))),
            None => Err(ValidationOutcome::DepMissingFromDht(AnyDhtHash::Action(hash))),
        },
    }
}

pub fn check_and_hold_register_add_link(hash: ActionHash, ws: &SysValidationWorkspace) -> (r:
    Result<(), ValidationOutcome>)
    ensures
        r == spec_check_and_hold_register_add_link(hash, *ws),
{
    match ws.held_record(hash) {
        Some(rec) => match rec.action.details {
            ActionDetails::CreateLink { .. } => Ok(()),
            _ => Err(ValidationOutcome::NotCreateLink(hash)),
        },
        None => match ws.retrieve_action(hash) {
            Some(_) => Err(ValidationOutcome::NotHoldingDep(AnyDhtHash::Action(hash))),
            None => Err(ValidationOutcome::DepMissingFromDht(AnyDhtHash::Action(hash))),
        },
    }
}

/// Like [`check_and_hold`], but for the agent-activity authority, whose
/// missing predecessor is reported through the previous-action taxonomy.
pub open spec fn spec_check_and_hold_register_agent_activity(
    hash: ActionHash,
    ws: SysValidationWorkspace,
) -> Result<(), ValidationOutcome> {
    match ws.spec_held(hash) {
        Some(_) => Ok(()),
        None => match ws.spec_retrieve(hash) {
            Some(_) => Err(
                ValidationOutcome::PrevActionError(PrevActionError::MissingMeta(hash)),
            ),
            None => Err(ValidationOutcome::DepMissingFromDht(AnyDhtHash::Action(hash))),
        },
    }
}

pub fn check_and_hold_register_agent_activity(
    hash: ActionHash,
    ws: &SysValidationWorkspace,
) -> (r: Result<(), ValidationOutcome>)
    ensures
        r == spec_check_and_hold_register_agent_activity(hash, *ws),
{
    match ws.held_record(hash) {
        Some(_) => Ok(()),
        None => match ws.retrieve_action(hash) {
            Some(_) => Err(
                ValidationOutcome::PrevActionError(PrevActionError::MissingMeta(hash)),
            ),
            None => Err(ValidationOutcome::DepMissingFromDht(AnyDhtHash::Action(hash))),
        },
    }
}

} // verus!
