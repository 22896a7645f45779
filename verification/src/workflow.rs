//! The system-validation workflow: validate every eligible operation in
//! the limbo backlog, classify each into an [`Outcome`], and commit exactly
//! one staging transition per operation.
//!
//! One invocation is the state machine fetch, validate, commit, signal:
//! the backlog is read, each operation is judged against the workspace,
//! the verdicts are written back, and the caller learns whether the pass
//! started saturated. The concurrent fan-out of the runtime changes only
//! scheduling, never the per-operation verdict, which is a pure function
//! of the operation and the workspace and is stated here once.

use vstd::prelude::*;

use crate::data::Action;
use crate::data::ActionDetails;
use crate::data::ActionHash;
use crate::data::AnyDhtHash;
use crate::data::DhtOp;
use crate::data::DhtOpType;
use crate::data::Entry;
use crate::data::EntryContent;
use crate::data::EntryType;
use crate::data::EntryVisibility;
use crate::data::OpHash;
use crate::data::Record;
use crate::data::SessionAction;
use crate::data::op_well_formed;
use crate::sys_validate::DepCheck;
use crate::sys_validate::PrevActionError;
use crate::sys_validate::ValidationOutcome;
use crate::sys_validate::check_and_hold;
use crate::sys_validate::check_and_hold_register_add_link;
use crate::sys_validate::check_and_hold_register_agent_activity;
use crate::sys_validate::check_app_entry_def;
use crate::sys_validate::check_chain_rollback;
use crate::sys_validate::check_countersigning_session_data;
use crate::sys_validate::check_entry_hash;
use crate::sys_validate::check_entry_size;
use crate::sys_validate::check_entry_type;
use crate::sys_validate::check_not_private;
use crate::sys_validate::check_prev_action;
use crate::sys_validate::check_prev_seq;
use crate::sys_validate::check_prev_timestamp;
use crate::sys_validate::check_tag_size;
use crate::sys_validate::check_valid_if_dna;
use crate::sys_validate::spec_check_and_hold;
use crate::sys_validate::spec_check_and_hold_register_add_link;
use crate::sys_validate::spec_check_and_hold_register_agent_activity;
use crate::sys_validate::spec_check_app_entry_def;
use crate::sys_validate::spec_check_chain_rollback;
use crate::sys_validate::spec_check_countersigning_session_data;
use crate::sys_validate::spec_check_entry_hash;
use crate::sys_validate::spec_check_entry_size;
use crate::sys_validate::spec_check_entry_type;
use crate::sys_validate::spec_check_not_private;
use crate::sys_validate::spec_check_prev_action;
use crate::sys_validate::spec_check_prev_seq;
use crate::sys_validate::spec_check_prev_timestamp;
use crate::sys_validate::spec_check_tag_size;
use crate::sys_validate::spec_check_valid_if_dna;
use crate::sys_validate::spec_update_check;
use crate::sys_validate::update_check;
use crate::limbo::LimboRow;
use crate::limbo::LimboStore;
use crate::limbo::count_candidates;
use crate::limbo::idx_of;
use crate::limbo::is_candidate;
use crate::limbo::lemma_count_candidates_step;
use crate::limbo::lemma_idx_of_prefix;
use crate::limbo::put_integrated;
use crate::limbo::put_integration_limbo;
use crate::limbo::put_validation_limbo;
use crate::limbo::row_candidate;
use crate::limbo::spec_with_stage;
use crate::types::Dependency;
use crate::types::Outcome;
use crate::types::ValidationLimboStatus;
use crate::types::ValidationStatus;
use crate::types::WorkComplete;
use crate::types::get_dependency;
use crate::types::spec_get_dependency;
use crate::workspace::SysValidationWorkspace;

verus! {

/// The width of the concurrent validation window. A backlog at least this
/// large saturates one pass.
pub const NUM_CONCURRENT_OPS: usize = 50;

/// The first failing check wins; later checks only run on success.
pub open spec fn spec_chain(
    first: Result<(), ValidationOutcome>,
    second: Result<(), ValidationOutcome>,
) -> Result<(), ValidationOutcome> {
    if first is Err {
        first
    } else {
        second
    }
}

/// Every action of a counter-signing session must be retrievable
/// somewhere; the first one absent everywhere is a hard failure, so the
/// session resolves atomically or not at all.
pub open spec fn spec_session_deps_retrievable(
    session: Seq<SessionAction>,
    ws: SysValidationWorkspace,
) -> Result<(), ValidationOutcome>
    decreases session.len(),
{
    if session.len() == 0 {
        Ok(())
    } else if ws.spec_retrieve(session[0].hash) is None {
        Err(ValidationOutcome::DepMissingFromDht(AnyDhtHash::Action(session[0].hash)))
    } else {
        spec_session_deps_retrievable(session.drop_first(), ws)
    }
}

proof fn lemma_session_deps_retrievable_skip(
    session: Seq<SessionAction>,
    ws: SysValidationWorkspace,
    i: int,
)
    requires
        0 <= i < session.len(),
        ws.spec_retrieve(session[i].hash) is Some,
        spec_session_deps_retrievable(session, ws) == spec_session_deps_retrievable(
            session.skip(i),
            ws,
        ),
    ensures
        spec_session_deps_retrievable(session, ws) == spec_session_deps_retrievable(
            session.skip(i + 1),
            ws,
        ),
{
    assert(session.skip(i)[0] == session[i]);
    assert(session.skip(i).drop_first() =~= session.skip(i + 1));
}

fn session_deps_retrievable(
    session: &Vec<SessionAction>,
    ws: &SysValidationWorkspace,
) -> (r: Result<(), ValidationOutcome>)
    ensures
        r == spec_session_deps_retrievable(session@, *ws),
{
    let mut i: usize = 0;
    assert(session@.skip(0) =~= session@);
    while i < session.len()
        invariant
            i <= session@.len(),
            spec_session_deps_retrievable(session@, *ws) == spec_session_deps_retrievable(
                session@.skip(i as int),
                *ws,
            ),
        decreases session@.len() - i,
    {
        let hash = session[i].hash;
        assert(session@.skip(i as int)[0] == session@[i as int]);
        if ws.retrieve_action(hash).is_none() {
            return Err(ValidationOutcome::DepMissingFromDht(AnyDhtHash::Action(hash)));
        }
        proof {
            lemma_session_deps_retrievable_skip(session@, *ws, i as int);
        }
        i = i + 1;
    }
    assert(session@.skip(session@.len() as int) =~= Seq::<SessionAction>::empty());
    Ok(())
}

/// Every action of a counter-signing session must be held by this
/// authority before the entry that implies it is stored.
pub open spec fn spec_session_deps_held(
    session: Seq<SessionAction>,
    ws: SysValidationWorkspace,
) -> Result<(), ValidationOutcome>
    decreases session.len(),
{
    if session.len() == 0 {
        Ok(())
    } else if spec_check_and_hold(session[0].hash, ws, DepCheck::Nothing) is Err {
        spec_check_and_hold(session[0].hash, ws, DepCheck::Nothing)
    } else {
        spec_session_deps_held(session.drop_first(), ws)
    }
}

proof fn lemma_session_deps_held_skip(
    session: Seq<SessionAction>,
    ws: SysValidationWorkspace,
    i: int,
)
    requires
        0 <= i < session.len(),
        spec_check_and_hold(session[i].hash, ws, DepCheck::Nothing) is Ok,
        spec_session_deps_held(session, ws) == spec_session_deps_held(session.skip(i), ws),
    ensures
        spec_session_deps_held(session, ws) == spec_session_deps_held(session.skip(i + 1), ws),
{
    assert(session.skip(i)[0] == session[i]);
    assert(session.skip(i).drop_first() =~= session.skip(i + 1));
}

fn session_deps_held(session: &Vec<SessionAction>, ws: &SysValidationWorkspace) -> (r: Result<
    (),
    ValidationOutcome,
>)
    ensures
        r == spec_session_deps_held(session@, *ws),
{
    let mut i: usize = 0;
    assert(session@.skip(0) =~= session@);
    while i < session.len()
        invariant
            i <= session@.len(),
            spec_session_deps_held(session@, *ws) == spec_session_deps_held(
                session@.skip(i as int),
                *ws,
            ),
        decreases session@.len() - i,
    {
        let hash = session[i].hash;
        assert(session@.skip(i as int)[0] == session@[i as int]);
        match check_and_hold(hash, ws, &DepCheck::Nothing) {
            Ok(_) => {
                proof {
                    lemma_session_deps_held_skip(session@, *ws, i as int);
                }
            },
            Err(e) => {
                return Err(e);
            },
        }
        i = i + 1;
    }
    assert(session@.skip(session@.len() as int) =~= Seq::<SessionAction>::empty());
    Ok(())
}

/// Chain-structure checks for any action carried by an operation: the
/// predecessor must be retrievable, strictly earlier in time, and exactly
/// one position back.
pub open spec fn spec_store_record(action: Action, ws: SysValidationWorkspace) -> Result<
    (),
    ValidationOutcome,
> {
    match spec_check_prev_action(action) {
        Err(e) => Err(e),
        Ok(_) => match action.prev_action {
            None => Ok(()),
            Some(prev) => match ws.spec_retrieve(prev) {
                None => Err(ValidationOutcome::DepMissingFromDht(AnyDhtHash::Action(prev))),
                Some(prev_rec) => spec_chain(
                    spec_check_prev_timestamp(action, prev_rec.action),
                    spec_check_prev_seq(action, prev_rec.action),
                ),
            },
        },
    }
}

/// Run the chain-structure checks for `action` against the workspace.
pub fn store_record(action: &Action, ws: &SysValidationWorkspace) -> (r: Result<
    (),
    ValidationOutcome,
>)
    ensures
        r == spec_store_record(*action, *ws),
{
    check_prev_action(action)?;
    match action.prev_action {
        None => Ok(()),
        Some(prev) => match ws.retrieve_action(prev) {
            None => Err(ValidationOutcome::DepMissingFromDht(AnyDhtHash::Action(prev))),
            Some(prev_rec) => {
                let prev_action = prev_rec.action;
                check_prev_timestamp(action, &prev_action)?;
                check_prev_seq(action, &prev_action)?;
                Ok(())
            },
        },
    }
}

/// The application-level part of the entry checks: a declared application
/// entry definition must exist, agree on visibility, and be public.
pub open spec fn spec_check_app_entry(
    entry_type: EntryType,
    ws: SysValidationWorkspace,
) -> Result<(), ValidationOutcome> {
    match entry_type {
        EntryType::App(def) => match spec_check_app_entry_def(ws.dna_def, def) {
            Err(e) => Err(e),
            Ok(vis) => spec_check_not_private(vis),
        },
        _ => Ok(()),
    }
}

/// The update-reference part of the entry checks: the replaced action must
/// be retrievable and a compatible new-entry action.
pub open spec fn spec_store_entry_update_ref(
    action: Action,
    ws: SysValidationWorkspace,
) -> Result<(), ValidationOutcome> {
    match action.details {
        ActionDetails::Update { original_action_address, .. } => match ws.spec_retrieve(
            original_action_address,
        ) {
            None => Err(
                ValidationOutcome::DepMissingFromDht(
                    AnyDhtHash::Action(original_action_address),
                ),
            ),
            Some(rec) => spec_update_check(action, rec.action),
        },
        _ => Ok(()),
    }
}

/// The counter-signing part of the entry checks: the validating action
/// must belong to the session it rides on.
pub open spec fn spec_store_entry_countersign(
    action_hash: ActionHash,
    entry: Entry,
) -> Result<(), ValidationOutcome> {
    match entry.content {
        EntryContent::CounterSign(session) => spec_check_countersigning_session_data(
            action_hash,
            session@,
        ),
        _ => Ok(()),
    }
}

/// All entry checks for a new-entry action carrying `entry`, in the order
/// they are applied: declared type against payload, application
/// definition, declared address, size, update reference, counter-signing
/// membership.
pub open spec fn spec_store_entry(
    action_hash: ActionHash,
    action: Action,
    entry: Entry,
    ws: SysValidationWorkspace,
) -> Result<(), ValidationOutcome> {
    let entry_type = action.spec_entry_type().unwrap();
    let declared = action.spec_entry_hash().unwrap();
    spec_chain(
        spec_check_entry_type(entry_type, entry),
        spec_chain(
            spec_check_app_entry(entry_type, ws),
            spec_chain(
                spec_check_entry_hash(declared, entry),
                spec_chain(
                    spec_check_entry_size(entry),
                    spec_chain(
                        spec_store_entry_update_ref(action, ws),
                        spec_store_entry_countersign(action_hash, entry),
                    ),
                ),
            ),
        ),
    )
}

/// Run all entry checks for the new-entry action `action` carrying
/// `entry`; `action_hash` is the action's own content address.
pub fn store_entry(
    action_hash: ActionHash,
    action: &Action,
    entry: &Entry,
    ws: &SysValidationWorkspace,
) -> (r: Result<(), ValidationOutcome>)
    requires
        action.spec_is_new_entry(),
    ensures
        r == spec_store_entry(action_hash, *action, *entry, *ws),
{
    let entry_type: EntryType = match action.details {
        ActionDetails::Create { entry_type, .. } => entry_type,
        ActionDetails::Update { entry_type, .. } => entry_type,
        _ => {
            proof {
                assert(false);
            }
            return Ok(());
        },
    };
    let declared: crate::data::EntryHash = match action.details {
        ActionDetails::Create { entry_hash, .. } => entry_hash,
        ActionDetails::Update { entry_hash, .. } => entry_hash,
        _ => {
            proof {
                assert(false);
            }
            return Ok(());
        },
    };
    check_entry_type(&entry_type, entry)?;
    match entry_type {
        EntryType::App(def) => {
            let vis = check_app_entry_def(&ws.dna_def, &def)?;
            check_not_private(vis)?;
        },
        _ => {},
    }
    check_entry_hash(declared, entry)?;
    check_entry_size(entry)?;
    match action.details {
        ActionDetails::Update { original_action_address, .. } => {
            match ws.retrieve_action(original_action_address) {
                None => {
                    return Err(
                        ValidationOutcome::DepMissingFromDht(
                            AnyDhtHash::Action(original_action_address),
                        ),
                    );
                },
                Some(rec) => {
                    let original = rec.action;
                    update_check(action, &original)?;
                },
            }
        },
        _ => {},
    }
    match &entry.content {
        EntryContent::CounterSign(session) => {
            check_countersigning_session_data(action_hash, session)?;
        },
        _ => {},
    }
    Ok(())
}

/// Agent-activity checks: a sound chain root, a held predecessor, and no
/// fork at this chain position.
pub open spec fn spec_register_agent_activity(
    action: Action,
    action_hash: ActionHash,
    ws: SysValidationWorkspace,
) -> Result<(), ValidationOutcome> {
    spec_chain(
        spec_check_prev_action(action),
        spec_chain(
            spec_check_valid_if_dna(action, ws),
            spec_chain(
                match action.prev_action {
                    Some(prev) => spec_check_and_hold_register_agent_activity(prev, ws),
                    None => Ok(()),
                },
                spec_check_chain_rollback(action, action_hash, ws),
            ),
        ),
    )
}

/// Run the agent-activity checks for `action`, whose own content address
/// is `action_hash`.
pub fn register_agent_activity(
    action: &Action,
    action_hash: ActionHash,
    ws: &SysValidationWorkspace,
) -> (r: Result<(), ValidationOutcome>)
    ensures
        r == spec_register_agent_activity(*action, action_hash, *ws),
{
    check_prev_action(action)?;
    check_valid_if_dna(action, ws)?;
    match action.prev_action {
        Some(prev) => {
            check_and_hold_register_agent_activity(prev, ws)?;
        },
        None => {},
    }
    check_chain_rollback(action, action_hash, ws)?;
    Ok(())
}

/// The replaced new-entry action must be held by the entry authority and
/// compatible with the update.
pub open spec fn spec_register_updated_content(
    action: Action,
    ws: SysValidationWorkspace,
) -> Result<(), ValidationOutcome> {
    match action.details {
        ActionDetails::Update { original_action_address, .. } => spec_check_and_hold(
            original_action_address,
            ws,
            DepCheck::UpdateReference(action),
        ),
        _ => Ok(()),
    }
}

pub fn register_updated_content(action: &Action, ws: &SysValidationWorkspace) -> (r: Result<
    (),
    ValidationOutcome,
>)
    requires
        action.details is Update,
    ensures
        r == spec_register_updated_content(*action, *ws),
{
    match action.details {
        ActionDetails::Update { original_action_address, .. } => check_and_hold(
            original_action_address,
            ws,
            &DepCheck::UpdateReference(*action),
        ),
        _ => Ok(()),
    }
}

/// The replaced new-entry action must be held by the record authority and
/// compatible with the update.
pub open spec fn spec_register_updated_record(
    action: Action,
    ws: SysValidationWorkspace,
) -> Result<(), ValidationOutcome> {
    spec_register_updated_content(action, ws)
}

pub fn register_updated_record(action: &Action, ws: &SysValidationWorkspace) -> (r: Result<
    (),
    ValidationOutcome,
>)
    requires
        action.details is Update,
    ensures
        r == spec_register_updated_record(*action, *ws),
{
    register_updated_content(action, ws)
}

/// The deleted action must be held and must itself write a new entry.
pub open spec fn spec_register_deleted_by(
    action: Action,
    ws: SysValidationWorkspace,
) -> Result<(), ValidationOutcome> {
    match action.details {
        ActionDetails::Delete { deletes_address, .. } => spec_check_and_hold(
            deletes_address,
            ws,
            DepCheck::IsNewEntry,
        ),
        _ => Ok(()),
    }
}

pub fn register_deleted_by(action: &Action, ws: &SysValidationWorkspace) -> (r: Result<
    (),
    ValidationOutcome,
>)
    requires
        action.details is Delete,
    ensures
        r == spec_register_deleted_by(*action, *ws),
{
    match action.details {
        ActionDetails::Delete { deletes_address, .. } => check_and_hold(
            deletes_address,
            ws,
            &DepCheck::IsNewEntry,
        ),
        _ => Ok(()),
    }
}

/// As [`register_deleted_by`], asked of the entry authority.
pub open spec fn spec_register_deleted_entry_action(
    action: Action,
    ws: SysValidationWorkspace,
) -> Result<(), ValidationOutcome> {
    spec_register_deleted_by(action, ws)
}

pub fn register_deleted_entry_action(action: &Action, ws: &SysValidationWorkspace) -> (r: Result<
    (),
    ValidationOutcome,
>)
    requires
        action.details is Delete,
    ensures
        r == spec_register_deleted_entry_action(*action, *ws),
{
    register_deleted_by(action, ws)
}

/// A link creation only needs its tag to fit the limit.
pub open spec fn spec_register_add_link(action: Action) -> Result<(), ValidationOutcome> {
    match action.details {
        ActionDetails::CreateLink { tag_size } => spec_check_tag_size(tag_size),
        _ => Ok(()),
    }
}

pub fn register_add_link(action: &Action) -> (r: Result<(), ValidationOutcome>)
    requires
        action.details is CreateLink,
    ensures
        r == spec_register_add_link(*action),
{
    match action.details {
        ActionDetails::CreateLink { tag_size } => check_tag_size(tag_size),
        _ => Ok(()),
    }
}

/// The removed link's creation must be held and really be a link creation.
pub open spec fn spec_register_delete_link(
    action: Action,
    ws: SysValidationWorkspace,
) -> Result<(), ValidationOutcome> {
    match action.details {
        ActionDetails::DeleteLink { link_add_address } => spec_check_and_hold_register_add_link(
            link_add_address,
            ws,
        ),
        _ => Ok(()),
    }
}

pub fn register_delete_link(action: &Action, ws: &SysValidationWorkspace) -> (r: Result<
    (),
    ValidationOutcome,
>)
    requires
        action.details is DeleteLink,
    ensures
        r == spec_register_delete_link(*action, *ws),
{
    match action.details {
        ActionDetails::DeleteLink { link_add_address } => check_and_hold_register_add_link(
            link_add_address,
            ws,
        ),
        _ => Ok(()),
    }
}

/// The full checklist for one operation, by kind, in the order the checks
/// are applied.
pub open spec fn spec_validate_op_inner(op: DhtOp, ws: SysValidationWorkspace) -> Result<
    (),
    ValidationOutcome,
> {
    match op.kind {
        DhtOpType::StoreRecord => spec_chain(
            spec_store_record(op.action, ws),
            match op.entry {
                Some(entry) => spec_chain(
                    match entry.content {
                        EntryContent::CounterSign(session) => spec_session_deps_retrievable(
                            session@,
                            ws,
                        ),
                        _ => Ok(()),
                    },
                    if op.action.spec_is_new_entry() {
                        spec_store_entry(op.action_hash, op.action, entry, ws)
                    } else {
                        Err(ValidationOutcome::NotNewEntry(op.action))
                    },
                ),
                None => Ok(()),
            },
        ),
        DhtOpType::StoreEntry => {
            let entry = op.entry.unwrap();
            spec_chain(
                match entry.content {
                    EntryContent::CounterSign(session) => spec_session_deps_held(session@, ws),
                    _ => Ok(()),
                },
                spec_chain(
                    spec_store_entry(op.action_hash, op.action, entry, ws),
                    spec_store_record(op.action, ws),
                ),
            )
        },
        DhtOpType::RegisterAgentActivity => spec_chain(
            spec_register_agent_activity(op.action, op.action_hash, ws),
            spec_store_record(op.action, ws),
        ),
        DhtOpType::RegisterUpdatedContent => spec_chain(
            spec_register_updated_content(op.action, ws),
            match op.entry {
                Some(entry) => spec_store_entry(op.action_hash, op.action, entry, ws),
                None => Ok(()),
            },
        ),
        DhtOpType::RegisterUpdatedRecord => spec_chain(
            spec_register_updated_record(op.action, ws),
            match op.entry {
                Some(entry) => spec_store_entry(op.action_hash, op.action, entry, ws),
                None => Ok(()),
            },
        ),
        DhtOpType::RegisterDeletedBy => spec_register_deleted_by(op.action, ws),
        DhtOpType::RegisterDeletedEntryAction => spec_register_deleted_entry_action(
            op.action,
            ws,
        ),
        DhtOpType::RegisterAddLink => spec_register_add_link(op.action),
        DhtOpType::RegisterRemoveLink => spec_register_delete_link(op.action, ws),
    }
}

/// Run the full checklist for `op` against the workspace.
pub fn validate_op_inner(op: &DhtOp, ws: &SysValidationWorkspace) -> (r: Result<
    (),
    ValidationOutcome,
>)
    requires
        op_well_formed(*op),
    ensures
        r == spec_validate_op_inner(*op, *ws),
{
    match op.kind {
        DhtOpType::StoreRecord => {
            store_record(&op.action, ws)?;
            match &op.entry {
                Some(entry) => {
                    match &entry.content {
                        EntryContent::CounterSign(session) => {
                            session_deps_retrievable(session, ws)?;
                        },
                        _ => {},
                    }
                    let is_new_entry = match op.action.details {
                        ActionDetails::Create { .. } => true,
                        ActionDetails::Update { .. } => true,
                        _ => false,
                    };
                    if !is_new_entry {
                        return Err(ValidationOutcome::NotNewEntry(op.action));
                    }
                    store_entry(op.action_hash, &op.action, entry, ws)?;
                    Ok(())
                },
                None => Ok(()),
            }
        },
        DhtOpType::StoreEntry => {
            match &op.entry {
                Some(entry) => {
                    match &entry.content {
                        EntryContent::CounterSign(session) => {
                            session_deps_held(session, ws)?;
                        },
                        _ => {},
                    }
                    store_entry(op.action_hash, &op.action, entry, ws)?;
                    store_record(&op.action, ws)?;
                    Ok(())
                },
                None => {
                    proof {
                        assert(false);
                    }
                    Ok(())
                },
            }
        },
        DhtOpType::RegisterAgentActivity => {
            register_agent_activity(&op.action, op.action_hash, ws)?;
            store_record(&op.action, ws)?;
            Ok(())
        },
        DhtOpType::RegisterUpdatedContent => {
            register_updated_content(&op.action, ws)?;
            match &op.entry {
                Some(entry) => {
                    store_entry(op.action_hash, &op.action, entry, ws)?;
                    Ok(())
                },
                None => Ok(()),
            }
        },
        DhtOpType::RegisterUpdatedRecord => {
            register_updated_record(&op.action, ws)?;
            match &op.entry {
                Some(entry) => {
                    store_entry(op.action_hash, &op.action, entry, ws)?;
                    Ok(())
                },
                None => Ok(()),
            }
        },
        DhtOpType::RegisterDeletedBy => register_deleted_by(&op.action, ws),
        DhtOpType::RegisterDeletedEntryAction => register_deleted_entry_action(&op.action, ws),
        DhtOpType::RegisterAddLink => register_add_link(&op.action),
        DhtOpType::RegisterRemoveLink => register_delete_link(&op.action, ws),
    }
}

/// The fixed table from failure verdicts to pipeline outcomes: dependency
/// gaps are retried, everything else is terminally rejected.
pub open spec fn spec_handle_failed(error: ValidationOutcome) -> Outcome {
    match error {
        ValidationOutcome::ActionNotInCounterSigningSession(_) => Outcome::Rejected,
        ValidationOutcome::Counterfeit => Outcome::Rejected,
        ValidationOutcome::CounterSigningError => Outcome::Rejected,
        ValidationOutcome::DepMissingFromDht(_) => Outcome::MissingDhtDep,
        ValidationOutcome::EntryDefId { .. } => Outcome::Rejected,
        ValidationOutcome::EntryHashMismatch => Outcome::Rejected,
        ValidationOutcome::EntryTooLarge(_) => Outcome::Rejected,
        ValidationOutcome::EntryTypeMismatch => Outcome::Rejected,
        ValidationOutcome::EntryVisibility(_) => Outcome::Rejected,
        ValidationOutcome::NotCreateLink(_) => Outcome::Rejected,
        ValidationOutcome::NotNewEntry(_) => Outcome::Rejected,
        ValidationOutcome::NotHoldingDep(dep) => Outcome::AwaitingOpDep(dep),
        ValidationOutcome::PrevActionError(PrevActionError::MissingMeta(dep)) => {
            Outcome::AwaitingOpDep(AnyDhtHash::Action(dep))
        },
        ValidationOutcome::PrevActionError(_) => Outcome::Rejected,
        ValidationOutcome::PrivateEntry => Outcome::Rejected,
        ValidationOutcome::PreflightResponseSignature => Outcome::Rejected,
        ValidationOutcome::TagTooLarge(_) => Outcome::Rejected,
        ValidationOutcome::UpdateTypeMismatch(_, _) => Outcome::Rejected,
        ValidationOutcome::VerifySignature => Outcome::Rejected,
        ValidationOutcome::ZomeIndex { .. } => Outcome::Rejected,
    }
}

/// Map a failure verdict to the outcome the commit stage acts on.
/// Counterfeit records are dropped before they ever enter the pipeline, so
/// no caller holds that verdict here.
pub fn handle_failed(error: ValidationOutcome) -> (r: Outcome)
    requires
        !(error is Counterfeit),
    ensures
        r == spec_handle_failed(error),
{
    match error {
        ValidationOutcome::Counterfeit => {
            proof {
                assert(false);
            }
            Outcome::Rejected
        },
        ValidationOutcome::DepMissingFromDht(_) => Outcome::MissingDhtDep,
        ValidationOutcome::NotHoldingDep(dep) => Outcome::AwaitingOpDep(dep),
        ValidationOutcome::PrevActionError(PrevActionError::MissingMeta(dep)) => {
            Outcome::AwaitingOpDep(AnyDhtHash::Action(dep))
        },
        _ => Outcome::Rejected,
    }
}

/// The outcome system validation reaches for one operation: the first
/// failing check decides, and success is acceptance.
pub open spec fn spec_validate_op(op: DhtOp, ws: SysValidationWorkspace) -> Outcome {
    match spec_validate_op_inner(op, ws) {
        Ok(_) => Outcome::Accepted,
        Err(e) => spec_handle_failed(e),
    }
}

/// A missing session dependency of a stored record is always reported as
/// absent from the wider ledger.
proof fn lemma_session_deps_retrievable_errors(
    session: Seq<SessionAction>,
    ws: SysValidationWorkspace,
)
    ensures
        spec_session_deps_retrievable(session, ws) matches Err(e) ==> e is DepMissingFromDht,
    decreases session.len(),
{
    if session.len() > 0 {
        lemma_session_deps_retrievable_errors(session.drop_first(), ws);
    }
}

/// A missing session dependency of a stored entry is always reported as
/// either unheld or absent.
proof fn lemma_session_deps_held_errors(session: Seq<SessionAction>, ws: SysValidationWorkspace)
    ensures
        spec_session_deps_held(session, ws) matches Err(e) ==> (e is NotHoldingDep
            || e is DepMissingFromDht),
    decreases session.len(),
{
    if session.len() > 0 {
        lemma_session_deps_held_errors(session.drop_first(), ws);
    }
}

proof fn lemma_store_record_not_counterfeit(action: Action, ws: SysValidationWorkspace)
    ensures
        spec_store_record(action, ws) matches Err(e) ==> !(e is Counterfeit),
{
}

proof fn lemma_store_entry_not_counterfeit(
    action_hash: ActionHash,
    action: Action,
    entry: Entry,
    ws: SysValidationWorkspace,
)
    ensures
        spec_store_entry(action_hash, action, entry, ws) matches Err(e) ==> !(e is Counterfeit),
{
}

proof fn lemma_register_agent_activity_not_counterfeit(
    action: Action,
    action_hash: ActionHash,
    ws: SysValidationWorkspace,
)
    ensures
        spec_register_agent_activity(action, action_hash, ws) matches Err(e) ==> !(
        e is Counterfeit),
{
}

/// A queued operation cannot fail with `Counterfeit`: the signature and
/// author pre-check runs at ingestion, and a record that fails it is
/// dropped before any operation of it is stored.
pub proof fn lemma_inner_never_counterfeit(op: DhtOp, ws: SysValidationWorkspace)
    ensures
        spec_validate_op_inner(op, ws) matches Err(e) ==> !(e is Counterfeit),
{
    lemma_store_record_not_counterfeit(op.action, ws);
    lemma_register_agent_activity_not_counterfeit(op.action, op.action_hash, ws);
    let entry = op.entry.unwrap();
    lemma_store_entry_not_counterfeit(op.action_hash, op.action, entry, ws);
    match entry.content {
        EntryContent::CounterSign(session) => {
            lemma_session_deps_retrievable_errors(session@, ws);
            lemma_session_deps_held_errors(session@, ws);
        },
        _ => {},
    }
}

/// Validate one operation and classify the result.
pub fn validate_op(op: &DhtOp, ws: &SysValidationWorkspace) -> (r: Outcome)
    requires
        op_well_formed(*op),
    ensures
        r == spec_validate_op(*op, *ws),
{
    match validate_op_inner(op, ws) {
        Ok(_) => Outcome::Accepted,
        Err(e) => {
            proof {
                lemma_inner_never_counterfeit(*op, *ws);
            }
            handle_failed(e)
        },
    }
}

/// The single staging transition the commit stage applies to one row,
/// decided by the validation outcome and the operation's dependency:
/// acceptance advances the stage, a dependency gap re-files the row for a
/// later pass, and a rejection is terminal, integrated at once when
/// nothing depends on the operation, staged for the normal integration
/// path when something might.
pub open spec fn spec_apply_outcome(
    row: LimboRow,
    outcome: Outcome,
    dep: Dependency,
    now: i64,
) -> LimboRow {
    match outcome {
        Outcome::Accepted => spec_with_stage(row, ValidationLimboStatus::SysValidated),
        Outcome::AwaitingOpDep(d) => spec_with_stage(
            row,
            ValidationLimboStatus::AwaitingSysDeps(d),
        ),
        Outcome::MissingDhtDep => spec_with_stage(row, ValidationLimboStatus::Pending),
        Outcome::Rejected => if dep is Null {
            LimboRow {
                status: Some(ValidationStatus::Rejected),
                stage: ValidationLimboStatus::Pending,
                when_integrated: Some(now),
                ..row
            }
        } else {
            LimboRow {
                status: Some(ValidationStatus::Rejected),
                stage: ValidationLimboStatus::AwaitingIntegration,
                ..row
            }
        },
    }
}

/// What one pass leaves in an eligible row: the transition for the
/// outcome validation reaches on its operation.
pub open spec fn spec_commit_row(row: LimboRow, ws: SysValidationWorkspace, now: i64) -> LimboRow {
    spec_apply_outcome(
        row,
        spec_validate_op(row.op, ws),
        spec_get_dependency(row.op.kind, row.op.action),
        now,
    )
}

/// Commit the staging transition for one validated operation, as the
/// commit stage does for each member of a batch.
pub fn commit_op(store: &mut LimboStore, op_hash: OpHash, outcome: Outcome, dep: Dependency, now: i64)
    requires
        old(store).spec_contains(op_hash),
    ensures
        final(store).rows@ == old(store).rows@.update(
            idx_of(old(store).rows@, op_hash),
            spec_apply_outcome(
                old(store).rows@[idx_of(old(store).rows@, op_hash)],
                outcome,
                dep,
                now,
            ),
        ),
{
    match outcome {
        Outcome::Accepted => put_validation_limbo(
            store,
            op_hash,
            ValidationLimboStatus::SysValidated,
        ),
        Outcome::AwaitingOpDep(d) => put_validation_limbo(
            store,
            op_hash,
            ValidationLimboStatus::AwaitingSysDeps(d),
        ),
        Outcome::MissingDhtDep => put_validation_limbo(
            store,
            op_hash,
            ValidationLimboStatus::Pending,
        ),
        Outcome::Rejected => match dep {
            Dependency::Null => put_integrated(store, op_hash, ValidationStatus::Rejected, now),
            _ => put_integration_limbo(store, op_hash, ValidationStatus::Rejected),
        },
    }
}

/// One pass of the workflow: validate every eligible operation in the
/// store against the workspace and commit exactly one staging transition
/// each, at `now` microseconds since the epoch. Reports `Incomplete`
/// exactly when the pass started with a backlog at least one concurrency
/// window wide, so the caller knows to trigger another pass.
pub fn sys_validation_workflow(
    store: &mut LimboStore,
    ws: &SysValidationWorkspace,
    now: i64,
) -> (r: WorkComplete)
    requires
        old(store).wf(),
    ensures
        final(store).wf(),
        final(store).rows@.len() == old(store).rows@.len(),
        forall|i: int|
            0 <= i < old(store).rows@.len() && row_candidate(#[trigger] old(store).rows@[i])
                ==> final(store).rows@[i] == spec_commit_row(old(store).rows@[i], *ws, now),
        forall|i: int|
            0 <= i < old(store).rows@.len() && !row_candidate(#[trigger] old(store).rows@[i])
                ==> final(store).rows@[i] == old(store).rows@[i],
        r == (if count_candidates(old(store).rows@) >= NUM_CONCURRENT_OPS as int {
            WorkComplete::Incomplete
        } else {
            WorkComplete::Complete
        }),
{
    let n = store.rows.len();

    // Fetch: count the eligible backlog, which decides saturation.
    let mut backlog: usize = 0;
    let mut i: usize = 0;
    assert(store.rows@.take(0) =~= Seq::<LimboRow>::empty());
    while i < n
        invariant
            store.rows@ == old(store).rows@,
            n == store.rows@.len(),
            i <= n,
            backlog <= i,
            backlog == count_candidates(store.rows@.take(i as int)),
        decreases n - i,
    {
        proof {
            lemma_count_candidates_step(store.rows@, i as int);
        }
        if is_candidate(&store.rows[i]) {
            backlog = backlog + 1;
        }
        i = i + 1;
    }
    assert(store.rows@.take(n as int) =~= store.rows@);
    let saturated = backlog >= NUM_CONCURRENT_OPS;

    // Validate and commit: one transition per eligible row.
    let mut i: usize = 0;
    while i < n
        invariant
            store.rows@.len() == n,
            old(store).rows@.len() == n,
            i <= n,
            store.wf(),
            old(store).wf(),
            forall|j: int|
                0 <= j < n ==> (#[trigger] store.rows@[j]).op_hash == old(store).rows@[j].op_hash
                    && store.rows@[j].op == old(store).rows@[j].op,
            forall|j: int|
                0 <= j < i && row_candidate(#[trigger] old(store).rows@[j]) ==> store.rows@[j]
                    == spec_commit_row(old(store).rows@[j], *ws, now),
            forall|j: int|
                0 <= j < i && !row_candidate(#[trigger] old(store).rows@[j]) ==> store.rows@[j]
                    == old(store).rows@[j],
            forall|j: int| i <= j < n ==> (#[trigger] store.rows@[j]) == old(store).rows@[j],
        decreases n - i,
    {
        if is_candidate(&store.rows[i]) {
            let op_hash = store.rows[i].op_hash;
            let outcome = validate_op(&store.rows[i].op, ws);
            let dep = get_dependency(store.rows[i].op.kind, &store.rows[i].op.action);
            proof {
                assert(forall|j: int|
                    0 <= j < n && j != i ==> (#[trigger] store.rows@[j]).op_hash != op_hash);
                lemma_idx_of_prefix(store.rows@, op_hash, i as int);
            }
            commit_op(store, op_hash, outcome, dep, now);
            proof {
                assert(store.rows@[i as int] == spec_commit_row(
                    old(store).rows@[i as int],
                    *ws,
                    now,
                ));
            }
        }
        i = i + 1;
    }

    if saturated {
        WorkComplete::Incomplete
    } else {
        WorkComplete::Complete
    }
}

/// The signature and author pre-check, decided from the keystore's two
/// verdicts.
pub open spec fn spec_counterfeit_check(
    signature_valid: bool,
    author_key_valid: bool,
) -> Result<(), ValidationOutcome> {
    if !signature_valid {
        Err(ValidationOutcome::VerifySignature)
    } else if !author_key_valid {
        Err(ValidationOutcome::Counterfeit)
    } else {
        Ok(())
    }
}

/// Check whether a record is counterfeit, from the keystore's verdicts on
/// its signature and on its author key. A record failing this check is
/// dropped before it enters the pipeline: never stored, never retried.
pub fn counterfeit_check(signature_valid: bool, author_key_valid: bool) -> (r: Result<
    (),
    ValidationOutcome,
>)
    ensures
        r == spec_counterfeit_check(signature_valid, author_key_valid),
        r is Ok <==> (signature_valid && author_key_valid),
{
    if !signature_valid {
        Err(ValidationOutcome::VerifySignature)
    } else if !author_key_valid {
        Err(ValidationOutcome::Counterfeit)
    } else {
        Ok(())
    }
}

/// The per-action checks the direct path runs for one action: chain
/// structure, entry checks when a public entry rides along, and the
/// register checks its kind asks for.
pub open spec fn spec_validate_record_single(
    action: Action,
    action_hash: ActionHash,
    maybe_entry: Option<Entry>,
    ws: SysValidationWorkspace,
) -> Result<(), ValidationOutcome> {
    spec_chain(
        spec_store_record(action, ws),
        spec_chain(
            match maybe_entry {
                Some(entry) => match action.spec_entry_type() {
                    Some(entry_type) => if entry_type.spec_visibility() is Public {
                        spec_store_entry(action_hash, action, entry, ws)
                    } else {
                        Ok(())
                    },
                    None => Ok(()),
                },
                None => Ok(()),
            },
            match action.details {
                ActionDetails::Update { .. } => spec_register_updated_content(action, ws),
                ActionDetails::Delete { .. } => spec_register_deleted_entry_action(action, ws),
                ActionDetails::CreateLink { .. } => spec_register_add_link(action),
                ActionDetails::DeleteLink { .. } => spec_register_delete_link(action, ws),
                _ => Ok(()),
            },
        ),
    )
}

fn validate_record_single(
    action: &Action,
    action_hash: ActionHash,
    maybe_entry: Option<&Entry>,
    ws: &SysValidationWorkspace,
) -> (r: Result<(), ValidationOutcome>)
    ensures
        r == spec_validate_record_single(
            *action,
            action_hash,
            match maybe_entry {
                Some(entry) => Some(*entry),
                None => None,
            },
            *ws,
        ),
{
    store_record(action, ws)?;
    match maybe_entry {
        Some(entry) => {
            let entry_type: Option<EntryType> = match action.details {
                ActionDetails::Create { entry_type, .. } => Some(entry_type),
                ActionDetails::Update { entry_type, .. } => Some(entry_type),
                _ => None,
            };
            match entry_type {
                Some(et) => match et.visibility() {
                    EntryVisibility::Public => {
                        store_entry(action_hash, action, entry, ws)?;
                    },
                    EntryVisibility::Private => {},
                },
                None => {},
            }
        },
        None => {},
    }
    match action.details {
        ActionDetails::Update { .. } => register_updated_content(action, ws)?,
        ActionDetails::Delete { .. } => register_deleted_entry_action(action, ws)?,
        ActionDetails::CreateLink { .. } => register_add_link(action)?,
        ActionDetails::DeleteLink { .. } => register_delete_link(action, ws)?,
        _ => {},
    }
    Ok(())
}

/// The direct path's counter-signing fan-out: every action the session
/// implies is validated against the same entry, and the first failure
/// decides.
pub open spec fn spec_validate_session_actions(
    session: Seq<SessionAction>,
    entry: Entry,
    ws: SysValidationWorkspace,
) -> Result<(), ValidationOutcome>
    decreases session.len(),
{
    if session.len() == 0 {
        Ok(())
    } else if spec_validate_record_single(session[0].action, session[0].hash, Some(entry), ws)
        is Err {
        spec_validate_record_single(session[0].action, session[0].hash, Some(entry), ws)
    } else {
        spec_validate_session_actions(session.drop_first(), entry, ws)
    }
}

proof fn lemma_validate_session_actions_skip(
    session: Seq<SessionAction>,
    entry: Entry,
    ws: SysValidationWorkspace,
    i: int,
)
    requires
        0 <= i < session.len(),
        spec_validate_record_single(session[i].action, session[i].hash, Some(entry), ws) is Ok,
        spec_validate_session_actions(session, entry, ws) == spec_validate_session_actions(
            session.skip(i),
            entry,
            ws,
        ),
    ensures
        spec_validate_session_actions(session, entry, ws) == spec_validate_session_actions(
            session.skip(i + 1),
            entry,
            ws,
        ),
{
    assert(session.skip(i)[0] == session[i]);
    assert(session.skip(i).drop_first() =~= session.skip(i + 1));
}

fn validate_session_actions(
    session: &Vec<SessionAction>,
    entry: &Entry,
    ws: &SysValidationWorkspace,
) -> (r: Result<(), ValidationOutcome>)
    ensures
        r == spec_validate_session_actions(session@, *entry, *ws),
{
    let mut i: usize = 0;
    assert(session@.skip(0) =~= session@);
    while i < session.len()
        invariant
            i <= session@.len(),
            spec_validate_session_actions(session@, *entry, *ws) == spec_validate_session_actions(
                session@.skip(i as int),
                *entry,
                *ws,
            ),
        decreases session@.len() - i,
    {
        let sa = &session[i];
        assert(session@.skip(i as int)[0] == session@[i as int]);
        match validate_record_single(&sa.action, sa.hash, Some(entry), ws) {
            Ok(_) => {
                proof {
                    lemma_validate_session_actions_skip(session@, *entry, *ws, i as int);
                }
            },
            Err(e) => {
                return Err(e);
            },
        }
        i = i + 1;
    }
    assert(session@.skip(session@.len() as int) =~= Seq::<SessionAction>::empty());
    Ok(())
}

/// What the direct path decides for one already-assembled record, given
/// the keystore's verdicts: the counterfeit pre-check first, then the
/// per-action checks, fanned out over the whole session for a
/// counter-signed entry.
pub open spec fn spec_sys_validate_record(
    record: Record,
    ws: SysValidationWorkspace,
    signature_valid: bool,
    author_key_valid: bool,
) -> Result<(), ValidationOutcome> {
    spec_chain(
        spec_counterfeit_check(signature_valid, author_key_valid),
        match record.entry {
            Some(entry) => match entry.content {
                EntryContent::CounterSign(session) => spec_validate_session_actions(
                    session@,
                    entry,
                    ws,
                ),
                _ => spec_validate_record_single(
                    record.action,
                    record.action_hash,
                    record.entry,
                    ws,
                ),
            },
            None => spec_validate_record_single(
                record.action,
                record.action_hash,
                record.entry,
                ws,
            ),
        },
    )
}

/// Validate one already-assembled record directly, outside the queue:
/// the outcome is returned synchronously and no staging state is touched.
/// `signature_valid` and `author_key_valid` are the keystore's verdicts on
/// the record's signature and author.
pub fn sys_validate_record(
    record: &Record,
    ws: &SysValidationWorkspace,
    signature_valid: bool,
    author_key_valid: bool,
) -> (r: Result<(), ValidationOutcome>)
    ensures
        r == spec_sys_validate_record(*record, *ws, signature_valid, author_key_valid),
{
    counterfeit_check(signature_valid, author_key_valid)?;
    match &record.entry {
        Some(entry) => match &entry.content {
            EntryContent::CounterSign(session) => validate_session_actions(session, entry, ws),
            _ => validate_record_single(
                &record.action,
                record.action_hash,
                record.entry.as_ref(),
                ws,
            ),
        },
        None => validate_record_single(
            &record.action,
            record.action_hash,
            record.entry.as_ref(),
            ws,
        ),
    }
}

/// A rejected operation with no dependency is fully terminal in one step:
/// the commit writes the rejected status and integrates it at once.
pub proof fn lemma_rejected_null_dep_is_terminal(
    row: LimboRow,
    ws: SysValidationWorkspace,
    now: i64,
)
    requires
        spec_validate_op(row.op, ws) == Outcome::Rejected,
        spec_get_dependency(row.op.kind, row.op.action) == Dependency::Null,
    ensures
        spec_commit_row(row, ws, now).status == Some(ValidationStatus::Rejected),
        spec_commit_row(row, ws, now).when_integrated == Some(now),
{
}

/// A rejected operation with a dependency keeps the rejected status but
/// stays staged for the normal integration path, not yet integrated.
pub proof fn lemma_rejected_with_dep_awaits_integration(
    row: LimboRow,
    ws: SysValidationWorkspace,
    now: i64,
)
    requires
        spec_validate_op(row.op, ws) == Outcome::Rejected,
        spec_get_dependency(row.op.kind, row.op.action) != Dependency::Null,
    ensures
        spec_commit_row(row, ws, now).status == Some(ValidationStatus::Rejected),
        spec_commit_row(row, ws, now).stage == ValidationLimboStatus::AwaitingIntegration,
        spec_commit_row(row, ws, now).when_integrated == row.when_integrated,
{
}

/// A backlog that counts to zero has nothing eligible, so by the
/// workflow's contract a pass leaves every row unchanged and reports
/// `Complete`; running it again starts from the same state and does the
/// same.
pub proof fn lemma_empty_backlog_pass_is_noop(rows: Seq<LimboRow>)
    requires
        count_candidates(rows) == 0,
    ensures
        forall|i: int| 0 <= i < rows.len() ==> !row_candidate(#[trigger] rows[i]),
{
    crate::limbo::lemma_count_candidates_zero(rows);
}

/// An action whose predecessor is retrievable but does not sit exactly
/// one position back is rejected, never accepted: whichever
/// chain-structure check fails first, the verdict maps to rejection.
pub proof fn lemma_chain_violation_rejected(op: DhtOp, ws: SysValidationWorkspace)
    requires
        op.kind == DhtOpType::StoreRecord,
        op.action.prev_action is Some,
        ws.spec_retrieve(op.action.prev_action.unwrap()) is Some,
        ws.spec_retrieve(op.action.prev_action.unwrap()).unwrap().action.action_seq + 1
            != op.action.action_seq,
    ensures
        spec_validate_op(op, ws) == Outcome::Rejected,
{
}

/// An operation that waits on a dependency stays in the backlog: after
/// its commit the row is still an eligible candidate, so the next fetch
/// picks it up again.
pub proof fn lemma_missing_dep_reappears(
    row: LimboRow,
    ws: SysValidationWorkspace,
    now: i64,
)
    requires
        row_candidate(row),
        spec_validate_op(row.op, ws) is AwaitingOpDep || spec_validate_op(row.op, ws)
            is MissingDhtDep,
    ensures
        row_candidate(spec_commit_row(row, ws, now)),
{
}

/// A decided operation leaves the backlog: once validation accepts or
/// rejects it, the committed row is no longer a candidate, so a pass over
/// a backlog of decidable operations drains it.
pub proof fn lemma_decided_op_leaves_backlog(
    row: LimboRow,
    ws: SysValidationWorkspace,
    now: i64,
)
    requires
        spec_validate_op(row.op, ws) == Outcome::Accepted || spec_validate_op(row.op, ws)
            == Outcome::Rejected,
    ensures
        !row_candidate(spec_commit_row(row, ws, now)),
{
}

/// The held dependency each register operation waits for, by kind.
pub open spec fn spec_register_dep_address(op: DhtOp) -> ActionHash {
    match op.action.details {
        ActionDetails::Update { original_action_address, .. } => original_action_address,
        ActionDetails::Delete { deletes_address, .. } => deletes_address,
        ActionDetails::DeleteLink { link_add_address } => link_add_address,
        _ => ActionHash(0),
    }
}

/// A register operation whose dependency this authority does not hold is
/// never accepted: a fetchable dependency is awaited, one absent
/// everywhere parks the operation.
pub proof fn lemma_unheld_dependency_never_accepted(op: DhtOp, ws: SysValidationWorkspace)
    requires
        op_well_formed(op),
        op.kind == DhtOpType::RegisterUpdatedContent || op.kind
            == DhtOpType::RegisterUpdatedRecord || op.kind == DhtOpType::RegisterDeletedBy
            || op.kind == DhtOpType::RegisterDeletedEntryAction || op.kind
            == DhtOpType::RegisterRemoveLink,
        ws.spec_held(spec_register_dep_address(op)) is None,
    ensures
        spec_validate_op(op, ws) != Outcome::Accepted,
        ws.spec_retrieve(spec_register_dep_address(op)) is Some ==> spec_validate_op(op, ws)
            == Outcome::AwaitingOpDep(AnyDhtHash::Action(spec_register_dep_address(op))),
        ws.spec_retrieve(spec_register_dep_address(op)) is None ==> spec_validate_op(op, ws)
            == Outcome::MissingDhtDep,
{
}

} // verus!
