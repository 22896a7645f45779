//! The direct record entry point: synchronous validation of an
//! already-assembled record, including the counter-signing fan-out.

use sys_validation::data::Action;
use sys_validation::data::ActionDetails;
use sys_validation::data::ActionHash;
use sys_validation::data::AgentPubKey;
use sys_validation::data::AnyDhtHash;
use sys_validation::data::AppEntryDef;
use sys_validation::data::DhtOp;
use sys_validation::data::DhtOpType;
use sys_validation::data::DnaDef;
use sys_validation::data::DnaHash;
use sys_validation::data::Entry;
use sys_validation::data::EntryContent;
use sys_validation::data::EntryHash;
use sys_validation::data::EntryType;
use sys_validation::data::EntryVisibility;
use sys_validation::data::Record;
use sys_validation::data::SessionAction;
use sys_validation::data::ZomeDef;
use sys_validation::sys_validate::PrevActionError;
use sys_validation::sys_validate::ValidationOutcome;
use sys_validation::types::Outcome;
use sys_validation::workflow::sys_validate_record;
use sys_validation::workflow::validate_op;
use sys_validation::workspace::SysValidationWorkspace;

fn dna_def() -> DnaDef {
    DnaDef {
        hash: DnaHash(9),
        zomes: vec![ZomeDef { entry_defs: vec![EntryVisibility::Public] }],
    }
}

fn genesis() -> Record {
    Record {
        action_hash: ActionHash(1),
        action: Action {
            author: AgentPubKey(1),
            timestamp: 100,
            action_seq: 0,
            prev_action: None,
            details: ActionDetails::Dna(DnaHash(9)),
        },
        entry: None,
    }
}

fn public_app_type() -> EntryType {
    EntryType::App(AppEntryDef { zome_index: 0, entry_index: 0, visibility: EntryVisibility::Public })
}

fn create_record(hash: u64, entry_hash: u64, size: u64) -> Record {
    Record {
        action_hash: ActionHash(hash),
        action: Action {
            author: AgentPubKey(1),
            timestamp: 200,
            action_seq: 1,
            prev_action: Some(ActionHash(1)),
            details: ActionDetails::Create {
                entry_type: public_app_type(),
                entry_hash: EntryHash(entry_hash),
            },
        },
        entry: Some(Entry { hash: EntryHash(entry_hash), size, content: EntryContent::App }),
    }
}

#[test]
fn valid_record_passes_directly() {
    let ws = SysValidationWorkspace::new(vec![genesis()], Vec::new(), Vec::new(), dna_def());
    let record = create_record(2, 3, 100);
    assert_eq!(sys_validate_record(&record, &ws, true, true), Ok(()));
}

#[test]
fn bad_signature_is_reported_before_anything_else() {
    let ws = SysValidationWorkspace::new(vec![genesis()], Vec::new(), Vec::new(), dna_def());
    let record = create_record(2, 3, 100);
    assert_eq!(
        sys_validate_record(&record, &ws, false, true),
        Err(ValidationOutcome::VerifySignature)
    );
    assert_eq!(
        sys_validate_record(&record, &ws, true, false),
        Err(ValidationOutcome::Counterfeit)
    );
}

#[test]
fn direct_path_reports_chain_gaps_synchronously() {
    // No predecessor reachable anywhere: the direct path hands the
    // dependency gap back instead of staging anything.
    let ws = SysValidationWorkspace::new(Vec::new(), Vec::new(), Vec::new(), dna_def());
    let record = create_record(2, 3, 100);
    assert_eq!(
        sys_validate_record(&record, &ws, true, true),
        Err(ValidationOutcome::DepMissingFromDht(AnyDhtHash::Action(ActionHash(1))))
    );
}

#[test]
fn direct_path_rejects_declared_hash_mismatch() {
    let ws = SysValidationWorkspace::new(vec![genesis()], Vec::new(), Vec::new(), dna_def());
    let mut record = create_record(2, 3, 100);
    record.entry = Some(Entry { hash: EntryHash(99), size: 100, content: EntryContent::App });
    assert_eq!(
        sys_validate_record(&record, &ws, true, true),
        Err(ValidationOutcome::EntryHashMismatch)
    );
}

#[test]
fn countersigned_record_validates_every_session_action() {
    // Two signers: each session action must pass the full per-action
    // checks. The second one's chain position is broken, and its failure
    // decides the whole record.
    let ws = SysValidationWorkspace::new(vec![genesis()], Vec::new(), Vec::new(), dna_def());
    let sound = SessionAction {
        hash: ActionHash(21),
        action: Action {
            author: AgentPubKey(1),
            timestamp: 200,
            action_seq: 1,
            prev_action: Some(ActionHash(1)),
            details: ActionDetails::AgentValidationPkg,
        },
    };
    let broken = SessionAction {
        hash: ActionHash(22),
        action: Action {
            author: AgentPubKey(2),
            timestamp: 200,
            action_seq: 9,
            prev_action: Some(ActionHash(1)),
            details: ActionDetails::AgentValidationPkg,
        },
    };
    let entry = Entry {
        hash: EntryHash(30),
        size: 64,
        content: EntryContent::CounterSign(vec![sound, broken]),
    };
    let record = Record {
        action_hash: ActionHash(21),
        action: sound.action,
        entry: Some(entry),
    };
    assert_eq!(
        sys_validate_record(&record, &ws, true, true),
        Err(ValidationOutcome::PrevActionError(PrevActionError::InvalidSeq {
            seq: 9,
            prev_seq: 0
        }))
    );
}

#[test]
fn stored_countersigned_record_needs_every_session_dep() {
    // In the queue, a stored record with a counter-signed entry demands
    // that every implied action be retrievable; one absent anywhere is a
    // hard dependency failure, parked rather than awaited.
    let ws = SysValidationWorkspace::new(vec![genesis()], Vec::new(), Vec::new(), dna_def());
    let present = SessionAction {
        hash: ActionHash(1),
        action: genesis().action,
    };
    let absent = SessionAction {
        hash: ActionHash(404),
        action: genesis().action,
    };
    let entry = Entry {
        hash: EntryHash(30),
        size: 64,
        content: EntryContent::CounterSign(vec![present, absent]),
    };
    let op = DhtOp {
        kind: DhtOpType::StoreRecord,
        action_hash: ActionHash(23),
        action: Action {
            author: AgentPubKey(1),
            timestamp: 200,
            action_seq: 1,
            prev_action: Some(ActionHash(1)),
            details: ActionDetails::Create {
                entry_type: public_app_type(),
                entry_hash: EntryHash(30),
            },
        },
        entry: Some(entry),
    };
    assert_eq!(validate_op(&op, &ws), Outcome::MissingDhtDep);
}

#[test]
fn private_entry_op_is_rejected() {
    // A stored entry declaring a definition registered private.
    let dna = DnaDef {
        hash: DnaHash(9),
        zomes: vec![ZomeDef { entry_defs: vec![EntryVisibility::Private] }],
    };
    let ws = SysValidationWorkspace::new(vec![genesis()], Vec::new(), Vec::new(), dna);
    let declared = EntryType::App(AppEntryDef {
        zome_index: 0,
        entry_index: 0,
        visibility: EntryVisibility::Private,
    });
    let op = DhtOp {
        kind: DhtOpType::StoreEntry,
        action_hash: ActionHash(2),
        action: Action {
            author: AgentPubKey(1),
            timestamp: 200,
            action_seq: 1,
            prev_action: Some(ActionHash(1)),
            details: ActionDetails::Create { entry_type: declared, entry_hash: EntryHash(3) },
        },
        entry: Some(Entry { hash: EntryHash(3), size: 10, content: EntryContent::App }),
    };
    assert_eq!(validate_op(&op, &ws), Outcome::Rejected);
}
