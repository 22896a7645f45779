//! The validation workspace: everything the validator can ask of the
//! node's stores, materialized as plain data.
//!
//! The read path of the wider system answers three kinds of question, and
//! each is modeled by one field here: which records this authority already
//! holds validated (`held`), which further records a network round-trip
//! could retrieve (`fetchable`), and which agent-activity rows are already
//! integrated (`activity`). A record lookup prefers held data, exactly as
//! the layered read path does.

use vstd::prelude::*;

use crate::data::Action;
use crate::data::ActionHash;
use crate::data::AgentPubKey;
use crate::data::DnaDef;
use crate::data::Record;

verus! {

/// One integrated agent-activity row: which author placed which action at
/// which position of their chain.
#[derive(Clone, Copy, PartialEq, Eq, Structural, Debug)]
pub struct ActivityRow {
    pub author: AgentPubKey,
    pub action_seq: u32,
    pub action_hash: ActionHash,
}

/// The first record in `s` addressed by `h`, if any.
pub open spec fn find_record(s: Seq<Record>, h: ActionHash) -> Option<Record>
    decreases s.len(),
{
    if s.len() == 0 {
        None
    } else if s[0].action_hash == h {
        Some(s[0])
    } else {
        find_record(s.drop_first(), h)
    }
}

/// Skipping past records that do not match leaves the lookup unchanged.
proof fn lemma_find_record_skip(s: Seq<Record>, h: ActionHash, i: int)
    requires
        0 <= i < s.len(),
        s[i].action_hash != h,
        find_record(s, h) == find_record(s.skip(i), h),
    ensures
        find_record(s, h) == find_record(s.skip(i + 1), h),
{
    assert(s.skip(i).len() > 0);
    assert(s.skip(i)[0] == s[i]);
    assert(s.skip(i).drop_first() =~= s.skip(i + 1));
}

/// Search `s` front to back for the record addressed by `h`.
fn scan_records<'a>(s: &'a Vec<Record>, h: ActionHash) -> (r: Option<&'a Record>)
    ensures
        match r {
            Some(rec) => find_record(s@, h) == Some(*rec),
            None => find_record(s@, h) is None,
        },
{
    let mut i: usize = 0;
    assert(s@.skip(0) =~= s@);
    while i < s.len()
        invariant
            i <= s@.len(),
            find_record(s@, h) == find_record(s@.skip(i as int), h),
        decreases s@.len() - i,
    {
        if s[i].action_hash == h {
            assert(s@.skip(i as int)[0] == s@[i as int]);
            return Some(&s[i]);
        }
        proof {
            lemma_find_record_skip(s@, h, i as int);
        }
        i = i + 1;
    }
    assert(s@.skip(s@.len() as int) =~= Seq::<Record>::empty());
    None
}

/// What the validator can read while judging one operation. A single
/// workspace serves one application instance, whose definition it carries.
pub struct SysValidationWorkspace {
    /// Records this authority holds fully validated and integrated.
    pub held: Vec<Record>,
    /// Records a wider retrieval could reach but which are not held here.
    pub fetchable: Vec<Record>,
    /// Integrated agent-activity rows, for the chain queries.
    pub activity: Vec<ActivityRow>,
    /// The definition of the application this workspace validates for.
    pub dna_def: DnaDef,
}

impl SysValidationWorkspace {
    /// The record addressed by `h` if this authority holds it validated.
    pub open spec fn spec_held(self, h: ActionHash) -> Option<Record> {
        find_record(self.held@, h)
    }

    /// The record addressed by `h` if any reachable store has it: held
    /// data is preferred, the wider retrieval is the fallback.
    pub open spec fn spec_retrieve(self, h: ActionHash) -> Option<Record> {
        match find_record(self.held@, h) {
            Some(rec) => Some(rec),
            None => find_record(self.fetchable@, h),
        }
    }

    /// No integrated activity of `author` is on record.
    pub open spec fn spec_chain_empty(self, author: AgentPubKey) -> bool {
        forall|i: int|
            0 <= i < self.activity@.len() ==> (#[trigger] self.activity@[i]).author != author
    }

    /// No integrated action of `author` other than `hash` occupies chain
    /// position `seq`.
    pub open spec fn spec_seq_is_empty(
        self,
        author: AgentPubKey,
        seq: u32,
        hash: ActionHash,
    ) -> bool {
        forall|i: int|
            0 <= i < self.activity@.len() ==> !((#[trigger] self.activity@[i]).author == author
                && self.activity@[i].action_seq == seq && self.activity@[i].action_hash != hash)
    }

    pub fn new(
        held: Vec<Record>,
        fetchable: Vec<Record>,
        activity: Vec<ActivityRow>,
        dna_def: DnaDef,
    ) -> (ws: SysValidationWorkspace)
        ensures
            ws.held == held,
            ws.fetchable == fetchable,
            ws.activity == activity,
            ws.dna_def == dna_def,
    {
        SysValidationWorkspace { held, fetchable, activity, dna_def }
    }

    /// Look `h` up among the records this authority holds validated.
    pub fn held_record(&self, h: ActionHash) -> (r: Option<&Record>)
        ensures
            match r {
                Some(rec) => self.spec_held(h) == Some(*rec),
                None => self.spec_held(h) is None,
            },
    {
        scan_records(&self.held, h)
    }

    /// Retrieve the record addressed by `h` from any reachable store,
    /// preferring held data.
    pub fn retrieve_action(&self, h: ActionHash) -> (r: Option<&Record>)
        ensures
            match r {
                Some(rec) => self.spec_retrieve(h) == Some(*rec),
                None => self.spec_retrieve(h) is None,
            },
    {
        match scan_records(&self.held, h) {
            Some(rec) => Some(rec),
            None => scan_records(&self.fetchable, h),
        }
    }

    /// Has `author` no integrated activity on record yet?
    pub fn is_chain_empty(&self, author: &AgentPubKey) -> (r: bool)
        ensures
            r == self.spec_chain_empty(*author),
    {
        let mut i: usize = 0;
        while i < self.activity.len()
            invariant
                i <= self.activity@.len(),
                forall|j: int|
                    0 <= j < i ==> (#[trigger] self.activity@[j]).author != *author,
            decreases self.activity@.len() - i,
        {
            if self.activity[i].author == *author {
                return false;
            }
            i = i + 1;
        }
        true
    }

    /// Is chain position `action.action_seq` of `action.author` free of any
    /// integrated action other than the one addressed by `action_hash`?
    pub fn action_seq_is_empty(&self, action: &Action, action_hash: ActionHash) -> (r: bool)
        ensures
            r == self.spec_seq_is_empty(action.author, action.action_seq, action_hash),
    {
        let mut i: usize = 0;
        while i < self.activity.len()
            invariant
                i <= self.activity@.len(),
                forall|j: int|
                    0 <= j < i ==> !((#[trigger] self.activity@[j]).author == action.author
                        && self.activity@[j].action_seq == action.action_seq
                        && self.activity@[j].action_hash != action_hash),
            decreases self.activity@.len() - i,
        {
            let row = self.activity[i];
            if row.author == action.author && row.action_seq == action.action_seq
                && row.action_hash != action_hash {
                return false;
            }
            i = i + 1;
        }
        true
    }

    /// The definition of the application this workspace validates for.
    pub fn dna_def(&self) -> (d: &DnaDef)
        ensures
            *d == self.dna_def,
    {
        &self.dna_def
    }
}

} // verus!
