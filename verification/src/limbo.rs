//! The validation limbo store: one row per operation that is not yet fully
//! validated and integrated.
//!
//! The workflow's commit stage is the only writer of these rows, and each
//! pass applies exactly one staging transition per operation. The store is
//! keyed by operation hash; a row's operation is immutable, only its
//! staging fields move.

use vstd::prelude::*;

use crate::data::DhtOp;
use crate::data::OpHash;
use crate::data::op_well_formed;
use crate::types::ValidationLimboStatus;
use crate::types::ValidationStatus;

verus! {

/// One operation's row in the limbo store.
#[derive(Clone, PartialEq, Eq, Debug)]
pub struct LimboRow {
    pub op_hash: OpHash,
    pub op: DhtOp,
    pub stage: ValidationLimboStatus,
    pub status: Option<ValidationStatus>,
    /// Microseconds since the epoch, set once the operation is integrated.
    pub when_integrated: Option<i64>,
}

/// Is this row an eligible input for the next validation pass?
pub open spec fn row_candidate(row: LimboRow) -> bool {
    row.when_integrated is None && (row.stage is Pending || row.stage is AwaitingSysDeps)
}

/// How many rows of `rows` are eligible for the next pass.
pub open spec fn count_candidates(rows: Seq<LimboRow>) -> int
    decreases rows.len(),
{
    if rows.len() == 0 {
        0
    } else {
        count_candidates(rows.drop_last()) + if row_candidate(rows.last()) {
            1int
        } else {
            0int
        }
    }
}

/// Counting one more row adds one exactly when that row is a candidate.
pub proof fn lemma_count_candidates_step(rows: Seq<LimboRow>, i: int)
    requires
        0 <= i < rows.len(),
    ensures
        count_candidates(rows.take(i + 1)) == count_candidates(rows.take(i)) + if row_candidate(
            rows[i],
        ) {
            1int
        } else {
            0int
        },
{
    assert(rows.take(i + 1).drop_last() =~= rows.take(i));
    assert(rows.take(i + 1).last() == rows[i]);
}

/// A backlog that counts to zero has no candidate row at all.
pub proof fn lemma_count_candidates_zero(rows: Seq<LimboRow>)
    requires
        count_candidates(rows) == 0,
    ensures
        forall|i: int| 0 <= i < rows.len() ==> !row_candidate(#[trigger] rows[i]),
    decreases rows.len(),
{
    if rows.len() > 0 {
        lemma_count_candidates_nonneg(rows.drop_last());
        assert(count_candidates(rows.drop_last()) == 0);
        lemma_count_candidates_zero(rows.drop_last());
        assert forall|i: int| 0 <= i < rows.len() implies !row_candidate(#[trigger] rows[i]) by {
            if i < rows.len() - 1 {
                assert(rows[i] == rows.drop_last()[i]);
            } else {
                assert(rows[i] == rows.last());
            }
        }
    }
}

/// A count of rows never goes negative.
pub proof fn lemma_count_candidates_nonneg(rows: Seq<LimboRow>)
    ensures
        count_candidates(rows) >= 0,
    decreases rows.len(),
{
    if rows.len() > 0 {
        lemma_count_candidates_nonneg(rows.drop_last());
    }
}

/// Position of the first row keyed by `h`, or the length if none is.
pub open spec fn idx_of(rows: Seq<LimboRow>, h: OpHash) -> int
    decreases rows.len(),
{
    if rows.len() == 0 {
        0
    } else if rows[0].op_hash == h {
        0
    } else {
        1 + idx_of(rows.drop_first(), h)
    }
}

/// `idx_of` lands on the first row keyed by `h`.
pub proof fn lemma_idx_of(rows: Seq<LimboRow>, h: OpHash)
    ensures
        0 <= idx_of(rows, h) <= rows.len(),
        idx_of(rows, h) < rows.len() ==> rows[idx_of(rows, h)].op_hash == h,
        forall|j: int| 0 <= j < idx_of(rows, h) ==> (#[trigger] rows[j]).op_hash != h,
    decreases rows.len(),
{
    if rows.len() > 0 && rows[0].op_hash != h {
        lemma_idx_of(rows.drop_first(), h);
        assert forall|j: int| 0 <= j < idx_of(rows, h) implies (#[trigger] rows[j]).op_hash
            != h by {
            if j > 0 {
                assert(rows.drop_first()[j - 1] == rows[j]);
            }
        }
    }
}

/// If everything before `i` misses `h` and `i` either hits it or is the
/// end, then `i` is where `idx_of` lands.
pub proof fn lemma_idx_of_prefix(rows: Seq<LimboRow>, h: OpHash, i: int)
    requires
        0 <= i <= rows.len(),
        forall|j: int| 0 <= j < i ==> (#[trigger] rows[j]).op_hash != h,
        i < rows.len() ==> rows[i].op_hash == h,
    ensures
        idx_of(rows, h) == i,
    decreases rows.len(),
{
    if rows.len() > 0 {
        if i == 0 {
        } else {
            assert(rows[0].op_hash != h);
            assert(forall|j: int|
                0 <= j < rows.len() - 1 ==> #[trigger] rows.drop_first()[j] == rows[j + 1]);
            lemma_idx_of_prefix(rows.drop_first(), h, i - 1);
        }
    }
}

/// The staging area for operations between arrival and integration.
pub struct LimboStore {
    pub rows: Vec<LimboRow>,
}

impl LimboStore {
    /// Every row holds a well-formed operation, rows never repeat a key,
    /// and a row's key is its operation's own hash.
    pub open spec fn wf(self) -> bool {
        &&& forall|i: int|
            0 <= i < self.rows@.len() ==> op_well_formed((#[trigger] self.rows@[i]).op)
        &&& forall|i: int, j: int|
            0 <= i < j < self.rows@.len() ==> (#[trigger] self.rows@[i]).op_hash != (
            #[trigger] self.rows@[j]).op_hash
    }

    /// Is some row keyed by `h`?
    pub open spec fn spec_contains(self, h: OpHash) -> bool {
        idx_of(self.rows@, h) < self.rows@.len()
    }

    pub fn new() -> (s: LimboStore)
        ensures
            s.rows@.len() == 0,
            s.wf(),
    {
        LimboStore { rows: Vec::new() }
    }

    /// File a newly arrived operation, pending validation.
    pub fn insert_pending(&mut self, op_hash: OpHash, op: DhtOp)
        requires
            old(self).wf(),
            op_well_formed(op),
            !old(self).spec_contains(op_hash),
        ensures
            final(self).rows@ == old(self).rows@.push(
                LimboRow {
                    op_hash,
                    op,
                    stage: ValidationLimboStatus::Pending,
                    status: None,
                    when_integrated: None,
                },
            ),
            final(self).wf(),
    {
        proof {
            lemma_idx_of(self.rows@, op_hash);
        }
        let row = LimboRow {
            op_hash,
            op,
            stage: ValidationLimboStatus::Pending,
            status: None,
            when_integrated: None,
        };
        self.rows.push(row);
        proof {
            let rows = self.rows@;
            assert(forall|j: int|
                0 <= j < rows.len() - 1 ==> (#[trigger] rows[j]).op_hash != op_hash);
        }
    }

    /// The fetch query of a validation pass: the positions of every row
    /// eligible for it, in store order.
    pub fn ops_to_sys_validate(&self) -> (r: Vec<usize>)
        ensures
            r@.len() == count_candidates(self.rows@),
            forall|k: int|
                0 <= k < r@.len() ==> (#[trigger] r@[k]) < self.rows@.len() && row_candidate(
                    self.rows@[r@[k] as int],
                ),
            forall|k1: int, k2: int| 0 <= k1 < k2 < r@.len() ==> r@[k1] < r@[k2],
    {
        let mut r: Vec<usize> = Vec::new();
        let mut i: usize = 0;
        assert(self.rows@.take(0) =~= Seq::<LimboRow>::empty());
        while i < self.rows.len()
            invariant
                i <= self.rows@.len(),
                r@.len() == count_candidates(self.rows@.take(i as int)),
                forall|k: int|
                    0 <= k < r@.len() ==> (#[trigger] r@[k]) < i && row_candidate(
                        self.rows@[r@[k] as int],
                    ),
                forall|k1: int, k2: int| 0 <= k1 < k2 < r@.len() ==> r@[k1] < r@[k2],
            decreases self.rows@.len() - i,
        {
            proof {
                lemma_count_candidates_step(self.rows@, i as int);
            }
            if is_candidate(&self.rows[i]) {
                r.push(i);
            }
            i = i + 1;
        }
        assert(self.rows@.take(self.rows@.len() as int) =~= self.rows@);
        r
    }

    /// Position of the row keyed by `h`, if the store has one.
    pub fn find_index(&self, h: OpHash) -> (r: Option<usize>)
        ensures
            match r {
                Some(i) => i == idx_of(self.rows@, h) && i < self.rows@.len(),
                None => idx_of(self.rows@, h) == self.rows@.len(),
            },
    {
        let mut i: usize = 0;
        while i < self.rows.len()
            invariant
                i <= self.rows@.len(),
                forall|j: int| 0 <= j < i ==> (#[trigger] self.rows@[j]).op_hash != h,
            decreases self.rows@.len() - i,
        {
            if self.rows[i].op_hash == h {
                proof {
                    lemma_idx_of_prefix(self.rows@, h, i as int);
                }
                return Some(i);
            }
            i = i + 1;
        }
        proof {
            lemma_idx_of_prefix(self.rows@, h, self.rows@.len() as int);
        }
        None
    }
}

/// Is this row an eligible input for the next validation pass? This is
/// the filter the fetch stage applies to the store.
pub fn is_candidate(row: &LimboRow) -> (r: bool)
    ensures
        r == row_candidate(*row),
{
    row.when_integrated.is_none() && match row.stage {
        ValidationLimboStatus::Pending => true,
        ValidationLimboStatus::AwaitingSysDeps(_) => true,
        _ => false,
    }
}

/// Set only the staging state of `row`.
pub open spec fn spec_with_stage(row: LimboRow, stage: ValidationLimboStatus) -> LimboRow {
    LimboRow { stage, ..row }
}

/// Record a staging transition for the operation keyed by `hash`.
pub fn put_validation_limbo(store: &mut LimboStore, hash: OpHash, status: ValidationLimboStatus)
    requires
        old(store).spec_contains(hash),
    ensures
        final(store).rows@ == old(store).rows@.update(
            idx_of(old(store).rows@, hash),
            spec_with_stage(old(store).rows@[idx_of(old(store).rows@, hash)], status),
        ),
{
    proof {
        lemma_idx_of(store.rows@, hash);
    }
    match store.find_index(hash) {
        Some(i) => {
            store.rows[i].stage = status;
        },
        None => {
            proof {
                assert(false);
            }
        },
    }
}

/// Record a final status for an operation that must still pass through the
/// normal integration path.
pub fn put_integration_limbo(store: &mut LimboStore, hash: OpHash, status: ValidationStatus)
    requires
        old(store).spec_contains(hash),
    ensures
        final(store).rows@ == old(store).rows@.update(
            idx_of(old(store).rows@, hash),
            LimboRow {
                status: Some(status),
                stage: ValidationLimboStatus::AwaitingIntegration,
                ..old(store).rows@[idx_of(old(store).rows@, hash)]
            },
        ),
{
    proof {
        lemma_idx_of(store.rows@, hash);
    }
    match store.find_index(hash) {
        Some(i) => {
            store.rows[i].status = Some(status);
            store.rows[i].stage = ValidationLimboStatus::AwaitingIntegration;
            proof {
                assert(final(store).rows@ =~= old(store).rows@.update(
                    i as int,
                    LimboRow {
                        status: Some(status),
                        stage: ValidationLimboStatus::AwaitingIntegration,
                        ..old(store).rows@[i as int]
                    },
                ));
            }
        },
        None => {
            proof {
                assert(false);
            }
        },
    }
}

/// Record a final status and integrate the operation now, at `now`
/// microseconds since the epoch.
pub fn put_integrated(store: &mut LimboStore, hash: OpHash, status: ValidationStatus, now: i64)
    requires
        old(store).spec_contains(hash),
    ensures
        final(store).rows@ == old(store).rows@.update(
            idx_of(old(store).rows@, hash),
            LimboRow {
                status: Some(status),
                stage: ValidationLimboStatus::Pending,
                when_integrated: Some(now),
                ..old(store).rows@[idx_of(old(store).rows@, hash)]
            },
        ),
{
    proof {
        lemma_idx_of(store.rows@, hash);
    }
    match store.find_index(hash) {
        Some(i) => {
            store.rows[i].status = Some(status);
            store.rows[i].stage = ValidationLimboStatus::Pending;
            store.rows[i].when_integrated = Some(now);
            proof {
                assert(final(store).rows@ =~= old(store).rows@.update(
                    i as int,
                    LimboRow {
                        status: Some(status),
                        stage: ValidationLimboStatus::Pending,
                        when_integrated: Some(now),
                        ..old(store).rows@[i as int]
                    },
                ));
            }
        },
        None => {
            proof {
                assert(false);
            }
        },
    }
}

} // verus!
