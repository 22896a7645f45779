//! Each validation check against the exact failure it names, plus the
//! mapping from failures to pipeline outcomes.

use sys_validation::data::Action;
use sys_validation::data::ActionDetails;
use sys_validation::data::ActionHash;
use sys_validation::data::AgentPubKey;
use sys_validation::data::AnyDhtHash;
use sys_validation::data::AppEntryDef;
use sys_validation::data::DhtOpType;
use sys_validation::data::DnaDef;
use sys_validation::data::DnaHash;
use sys_validation::data::Entry;
use sys_validation::data::EntryContent;
use sys_validation::data::EntryHash;
use sys_validation::data::EntryType;
use sys_validation::data::EntryVisibility;
use sys_validation::data::Record;
use sys_validation::data::SessionAction;
use sys_validation::data::ZomeDef;
use sys_validation::sys_validate::check_and_hold;
use sys_validation::sys_validate::check_and_hold_register_add_link;
use sys_validation::sys_validate::check_and_hold_register_agent_activity;
use sys_validation::sys_validate::check_app_entry_def;
use sys_validation::sys_validate::check_chain_rollback;
use sys_validation::sys_validate::check_countersigning_session_data;
use sys_validation::sys_validate::check_entry_hash;
use sys_validation::sys_validate::check_entry_size;
use sys_validation::sys_validate::check_entry_type;
use sys_validation::sys_validate::check_new_entry_action;
use sys_validation::sys_validate::check_not_private;
use sys_validation::sys_validate::check_prev_action;
use sys_validation::sys_validate::check_prev_seq;
use sys_validation::sys_validate::check_prev_timestamp;
use sys_validation::sys_validate::check_tag_size;
use sys_validation::sys_validate::check_valid_if_dna;
use sys_validation::sys_validate::update_check;
use sys_validation::sys_validate::DepCheck;
use sys_validation::sys_validate::PrevActionError;
use sys_validation::sys_validate::ValidationOutcome;
use sys_validation::sys_validate::MAX_ENTRY_SIZE;
use sys_validation::sys_validate::MAX_TAG_SIZE;
use sys_validation::types::get_dependency;
use sys_validation::types::Dependency;
use sys_validation::workflow::counterfeit_check;
use sys_validation::workflow::handle_failed;
use sys_validation::types::Outcome;
use sys_validation::workspace::ActivityRow;
use sys_validation::workspace::SysValidationWorkspace;

fn action(author: u64, seq: u32, ts: i64, prev: Option<u64>, details: ActionDetails) -> Action {
    Action {
        author: AgentPubKey(author),
        timestamp: ts,
        action_seq: seq,
        prev_action: prev.map(ActionHash),
        details,
    }
}

fn app_type(zome: u8, index: u8, visibility: EntryVisibility) -> EntryType {
    EntryType::App(AppEntryDef { zome_index: zome, entry_index: index, visibility })
}

fn create_details(et: EntryType, eh: u64) -> ActionDetails {
    ActionDetails::Create { entry_type: et, entry_hash: EntryHash(eh) }
}

fn bare_workspace() -> SysValidationWorkspace {
    SysValidationWorkspace::new(
        Vec::new(),
        Vec::new(),
        Vec::new(),
        DnaDef { hash: DnaHash(9), zomes: Vec::new() },
    )
}

fn record(hash: u64, a: Action) -> Record {
    Record { action_hash: ActionHash(hash), action: a, entry: None }
}

#[test]
fn prev_action_rules() {
    let root = action(1, 0, 100, None, ActionDetails::Dna(DnaHash(9)));
    assert_eq!(check_prev_action(&root), Ok(()));

    let rooted_with_prev = action(1, 0, 100, Some(4), ActionDetails::Dna(DnaHash(9)));
    assert_eq!(
        check_prev_action(&rooted_with_prev),
        Err(ValidationOutcome::PrevActionError(PrevActionError::InvalidRoot))
    );

    let root_off_zero = action(1, 3, 100, None, ActionDetails::Dna(DnaHash(9)));
    assert_eq!(
        check_prev_action(&root_off_zero),
        Err(ValidationOutcome::PrevActionError(PrevActionError::InvalidRoot))
    );

    let orphan = action(1, 2, 100, None, ActionDetails::AgentValidationPkg);
    assert_eq!(
        check_prev_action(&orphan),
        Err(ValidationOutcome::PrevActionError(PrevActionError::MissingPrev))
    );
}

#[test]
fn prev_timestamp_must_be_strictly_earlier() {
    let prev = action(1, 0, 100, None, ActionDetails::Dna(DnaHash(9)));
    let same_instant = action(1, 1, 100, Some(1), ActionDetails::AgentValidationPkg);
    assert_eq!(
        check_prev_timestamp(&same_instant, &prev),
        Err(ValidationOutcome::PrevActionError(PrevActionError::Timestamp))
    );
    let later = action(1, 1, 101, Some(1), ActionDetails::AgentValidationPkg);
    assert_eq!(check_prev_timestamp(&later, &prev), Ok(()));
}

#[test]
fn prev_seq_must_step_by_exactly_one() {
    let prev = action(1, 0, 100, None, ActionDetails::Dna(DnaHash(9)));
    let skipping = action(1, 5, 200, Some(1), ActionDetails::AgentValidationPkg);
    assert_eq!(
        check_prev_seq(&skipping, &prev),
        Err(ValidationOutcome::PrevActionError(PrevActionError::InvalidSeq {
            seq: 5,
            prev_seq: 0
        }))
    );
    let next = action(1, 1, 200, Some(1), ActionDetails::AgentValidationPkg);
    assert_eq!(check_prev_seq(&next, &prev), Ok(()));
}

#[test]
fn entry_type_must_fit_payload() {
    let app_entry = Entry { hash: EntryHash(1), size: 4, content: EntryContent::App };
    assert_eq!(
        check_entry_type(&app_type(0, 0, EntryVisibility::Public), &app_entry),
        Ok(())
    );
    assert_eq!(
        check_entry_type(&EntryType::AgentPubKey, &app_entry),
        Err(ValidationOutcome::EntryTypeMismatch)
    );
    let agent_entry = Entry {
        hash: EntryHash(1),
        size: 4,
        content: EntryContent::Agent(AgentPubKey(3)),
    };
    assert_eq!(check_entry_type(&EntryType::AgentPubKey, &agent_entry), Ok(()));
}

#[test]
fn app_entry_def_lookup() {
    let dna = DnaDef {
        hash: DnaHash(9),
        zomes: vec![ZomeDef { entry_defs: vec![EntryVisibility::Public, EntryVisibility::Private] }],
    };
    let ok = AppEntryDef { zome_index: 0, entry_index: 0, visibility: EntryVisibility::Public };
    assert_eq!(check_app_entry_def(&dna, &ok), Ok(EntryVisibility::Public));

    let bad_zome = AppEntryDef { zome_index: 3, entry_index: 0, visibility: EntryVisibility::Public };
    assert_eq!(
        check_app_entry_def(&dna, &bad_zome),
        Err(ValidationOutcome::ZomeIndex { zome_index: 3 })
    );

    let bad_def = AppEntryDef { zome_index: 0, entry_index: 7, visibility: EntryVisibility::Public };
    assert_eq!(
        check_app_entry_def(&dna, &bad_def),
        Err(ValidationOutcome::EntryDefId { zome_index: 0, entry_index: 7 })
    );

    let wrong_vis = AppEntryDef { zome_index: 0, entry_index: 1, visibility: EntryVisibility::Public };
    assert_eq!(
        check_app_entry_def(&dna, &wrong_vis),
        Err(ValidationOutcome::EntryVisibility(EntryVisibility::Public))
    );

    assert_eq!(
        check_not_private(EntryVisibility::Private),
        Err(ValidationOutcome::PrivateEntry)
    );
    assert_eq!(check_not_private(EntryVisibility::Public), Ok(()));
}

#[test]
fn entry_hash_must_match_declared() {
    let entry = Entry { hash: EntryHash(8), size: 4, content: EntryContent::App };
    assert_eq!(check_entry_hash(EntryHash(8), &entry), Ok(()));
    assert_eq!(
        check_entry_hash(EntryHash(9), &entry),
        Err(ValidationOutcome::EntryHashMismatch)
    );
}

#[test]
fn entry_size_boundary() {
    let at_limit = Entry { hash: EntryHash(1), size: MAX_ENTRY_SIZE, content: EntryContent::App };
    assert_eq!(check_entry_size(&at_limit), Ok(()));
    let over = Entry { hash: EntryHash(1), size: MAX_ENTRY_SIZE + 1, content: EntryContent::App };
    assert_eq!(
        check_entry_size(&over),
        Err(ValidationOutcome::EntryTooLarge(MAX_ENTRY_SIZE + 1))
    );
}

#[test]
fn tag_size_boundary() {
    assert_eq!(check_tag_size(MAX_TAG_SIZE), Ok(()));
    assert_eq!(
        check_tag_size(MAX_TAG_SIZE + 1),
        Err(ValidationOutcome::TagTooLarge(MAX_TAG_SIZE + 1))
    );
}

#[test]
fn new_entry_action_required() {
    let delete = action(
        1,
        2,
        100,
        Some(1),
        ActionDetails::Delete { deletes_address: ActionHash(4), deletes_entry_address: EntryHash(5) },
    );
    assert_eq!(
        check_new_entry_action(&delete),
        Err(ValidationOutcome::NotNewEntry(delete))
    );
}

#[test]
fn update_must_keep_entry_type() {
    let original_type = app_type(0, 0, EntryVisibility::Public);
    let update_type = app_type(0, 1, EntryVisibility::Public);
    let original = action(1, 1, 100, Some(1), create_details(original_type, 3));
    let update = action(
        1,
        2,
        200,
        Some(2),
        ActionDetails::Update {
            entry_type: update_type,
            entry_hash: EntryHash(4),
            original_action_address: ActionHash(2),
            original_entry_address: EntryHash(3),
        },
    );
    assert_eq!(
        update_check(&update, &original),
        Err(ValidationOutcome::UpdateTypeMismatch(original_type, update_type))
    );
    let faithful = action(
        1,
        2,
        200,
        Some(2),
        ActionDetails::Update {
            entry_type: original_type,
            entry_hash: EntryHash(4),
            original_action_address: ActionHash(2),
            original_entry_address: EntryHash(3),
        },
    );
    assert_eq!(update_check(&faithful, &original), Ok(()));
}

#[test]
fn countersign_membership() {
    let member = SessionAction {
        hash: ActionHash(21),
        action: action(1, 1, 100, Some(1), ActionDetails::AgentValidationPkg),
    };
    let session = vec![member];
    assert_eq!(check_countersigning_session_data(ActionHash(21), &session), Ok(()));
    assert_eq!(
        check_countersigning_session_data(ActionHash(22), &session),
        Err(ValidationOutcome::ActionNotInCounterSigningSession(ActionHash(22)))
    );
}

#[test]
fn dna_action_needs_an_empty_chain() {
    let root = action(1, 0, 100, None, ActionDetails::Dna(DnaHash(9)));
    let empty = bare_workspace();
    assert_eq!(check_valid_if_dna(&root, &empty), Ok(()));

    let busy = SysValidationWorkspace::new(
        Vec::new(),
        Vec::new(),
        vec![ActivityRow { author: AgentPubKey(1), action_seq: 0, action_hash: ActionHash(5) }],
        DnaDef { hash: DnaHash(9), zomes: Vec::new() },
    );
    assert_eq!(
        check_valid_if_dna(&root, &busy),
        Err(ValidationOutcome::PrevActionError(PrevActionError::InvalidRoot))
    );
}

#[test]
fn chain_rollback_detection() {
    let a = action(1, 4, 100, Some(1), ActionDetails::AgentValidationPkg);
    let clean = bare_workspace();
    assert_eq!(check_chain_rollback(&a, ActionHash(30), &clean), Ok(()));

    let forked = SysValidationWorkspace::new(
        Vec::new(),
        Vec::new(),
        vec![ActivityRow { author: AgentPubKey(1), action_seq: 4, action_hash: ActionHash(31) }],
        DnaDef { hash: DnaHash(9), zomes: Vec::new() },
    );
    assert_eq!(
        check_chain_rollback(&a, ActionHash(30), &forked),
        Err(ValidationOutcome::PrevActionError(PrevActionError::ChainFork { seq: 4 }))
    );
}

#[test]
fn holding_rules() {
    let held_action = action(1, 1, 100, Some(1), ActionDetails::AgentValidationPkg);
    let held = SysValidationWorkspace::new(
        vec![record(40, held_action)],
        Vec::new(),
        Vec::new(),
        DnaDef { hash: DnaHash(9), zomes: Vec::new() },
    );
    assert_eq!(check_and_hold(ActionHash(40), &held, &DepCheck::Nothing), Ok(()));

    let fetchable_only = SysValidationWorkspace::new(
        Vec::new(),
        vec![record(40, held_action)],
        Vec::new(),
        DnaDef { hash: DnaHash(9), zomes: Vec::new() },
    );
    assert_eq!(
        check_and_hold(ActionHash(40), &fetchable_only, &DepCheck::Nothing),
        Err(ValidationOutcome::NotHoldingDep(AnyDhtHash::Action(ActionHash(40))))
    );

    let absent = bare_workspace();
    assert_eq!(
        check_and_hold(ActionHash(40), &absent, &DepCheck::Nothing),
        Err(ValidationOutcome::DepMissingFromDht(AnyDhtHash::Action(ActionHash(40))))
    );
}

#[test]
fn delete_link_needs_a_link_creation() {
    let not_a_link = action(1, 1, 100, Some(1), ActionDetails::AgentValidationPkg);
    let ws = SysValidationWorkspace::new(
        vec![record(40, not_a_link)],
        Vec::new(),
        Vec::new(),
        DnaDef { hash: DnaHash(9), zomes: Vec::new() },
    );
    assert_eq!(
        check_and_hold_register_add_link(ActionHash(40), &ws),
        Err(ValidationOutcome::NotCreateLink(ActionHash(40)))
    );

    let link = action(1, 1, 100, Some(1), ActionDetails::CreateLink { tag_size: 5 });
    let ws_link = SysValidationWorkspace::new(
        vec![record(40, link)],
        Vec::new(),
        Vec::new(),
        DnaDef { hash: DnaHash(9), zomes: Vec::new() },
    );
    assert_eq!(check_and_hold_register_add_link(ActionHash(40), &ws_link), Ok(()));
}

#[test]
fn activity_authority_reports_missing_meta() {
    let prev = action(1, 0, 100, None, ActionDetails::Dna(DnaHash(9)));
    let fetchable_only = SysValidationWorkspace::new(
        Vec::new(),
        vec![record(40, prev)],
        Vec::new(),
        DnaDef { hash: DnaHash(9), zomes: Vec::new() },
    );
    assert_eq!(
        check_and_hold_register_agent_activity(ActionHash(40), &fetchable_only),
        Err(ValidationOutcome::PrevActionError(PrevActionError::MissingMeta(ActionHash(40))))
    );
}

#[test]
fn counterfeit_check_verdicts() {
    assert_eq!(counterfeit_check(true, true), Ok(()));
    assert_eq!(counterfeit_check(false, true), Err(ValidationOutcome::VerifySignature));
    assert_eq!(counterfeit_check(true, false), Err(ValidationOutcome::Counterfeit));
}

#[test]
fn failure_to_outcome_table() {
    assert_eq!(
        handle_failed(ValidationOutcome::NotHoldingDep(AnyDhtHash::Action(ActionHash(4)))),
        Outcome::AwaitingOpDep(AnyDhtHash::Action(ActionHash(4)))
    );
    assert_eq!(
        handle_failed(ValidationOutcome::PrevActionError(PrevActionError::MissingMeta(
            ActionHash(4)
        ))),
        Outcome::AwaitingOpDep(AnyDhtHash::Action(ActionHash(4)))
    );
    assert_eq!(
        handle_failed(ValidationOutcome::DepMissingFromDht(AnyDhtHash::Entry(EntryHash(4)))),
        Outcome::MissingDhtDep
    );
    assert_eq!(handle_failed(ValidationOutcome::TagTooLarge(2000)), Outcome::Rejected);
    assert_eq!(
        handle_failed(ValidationOutcome::PrevActionError(PrevActionError::Timestamp)),
        Outcome::Rejected
    );
    assert_eq!(handle_failed(ValidationOutcome::PrivateEntry), Outcome::Rejected);
}

#[test]
fn dependency_by_op_kind() {
    let update = action(
        1,
        2,
        200,
        Some(2),
        ActionDetails::Update {
            entry_type: EntryType::AgentPubKey,
            entry_hash: EntryHash(4),
            original_action_address: ActionHash(11),
            original_entry_address: EntryHash(12),
        },
    );
    let delete = action(
        1,
        3,
        300,
        Some(3),
        ActionDetails::Delete {
            deletes_address: ActionHash(13),
            deletes_entry_address: EntryHash(14),
        },
    );
    let remove_link = action(
        1,
        4,
        400,
        Some(4),
        ActionDetails::DeleteLink { link_add_address: ActionHash(15) },
    );
    let activity = action(1, 5, 500, Some(5), ActionDetails::AgentValidationPkg);

    assert_eq!(get_dependency(DhtOpType::StoreRecord, &update), Dependency::Null);
    assert_eq!(get_dependency(DhtOpType::StoreEntry, &update), Dependency::Null);
    assert_eq!(
        get_dependency(DhtOpType::RegisterAgentActivity, &activity),
        Dependency::Action(ActionHash(5))
    );
    assert_eq!(
        get_dependency(DhtOpType::RegisterUpdatedContent, &update),
        Dependency::Entry(EntryHash(12))
    );
    assert_eq!(
        get_dependency(DhtOpType::RegisterUpdatedRecord, &update),
        Dependency::Action(ActionHash(11))
    );
    assert_eq!(
        get_dependency(DhtOpType::RegisterDeletedBy, &delete),
        Dependency::Action(ActionHash(13))
    );
    assert_eq!(
        get_dependency(DhtOpType::RegisterDeletedEntryAction, &delete),
        Dependency::Entry(EntryHash(14))
    );
    assert_eq!(get_dependency(DhtOpType::RegisterAddLink, &remove_link), Dependency::Null);
    assert_eq!(
        get_dependency(DhtOpType::RegisterRemoveLink, &remove_link),
        Dependency::Action(ActionHash(15))
    );
}
