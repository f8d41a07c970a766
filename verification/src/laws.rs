//! Properties of the weight combination rule.

use vstd::prelude::*;

use crate::instruction::record_of;
use crate::instruction::Instruction;
use crate::table::total_weight;
use crate::weight::sat_add64;
use crate::weight::sat_mul64;
use crate::weight::DbWeight;
use crate::weight::Weight;

verus! {

/// Saturating addition never falls below either operand.
proof fn lemma_sat_add64_lower(a: u64, b: u64)
    ensures
        sat_add64(a, b) >= a,
        sat_add64(a, b) >= b,
{
}

/// Adding to a component that already sits at the maximum leaves it there.
proof fn lemma_sat_add64_absorbs(b: u64)
    ensures
        sat_add64(u64::MAX, b) == u64::MAX,
        sat_add64(b, u64::MAX) == u64::MAX,
{
}

/// A maximal factor times a count of at least one saturates.
proof fn lemma_sat_mul64_absorbs(n: u64)
    requires
        n >= 1,
    ensures
        sat_mul64(u64::MAX, n) == u64::MAX,
{
    assert(u64::MAX * n >= u64::MAX * 1) by (nonlinear_arith)
        requires
            n >= 1,
    ;
}

/// Querying the table is deterministic and free of hidden state: any two
/// results obtained for the same instruction under the same database cost
/// are identical. Repeating a query therefore repeats its answer.
pub proof fn lemma_query_deterministic(i: Instruction, db: DbWeight, r1: Weight, r2: Weight)
    requires
        r1 == total_weight(record_of(i), db),
        r2 == total_weight(record_of(i), db),
    ensures
        r1 == r2,
{
}

/// Accumulation is monotonic: whatever the database cost, the total weight
/// of an instruction never falls below its base execution time, nor below
/// its estimated proof size.
pub proof fn lemma_query_dominates_base(i: Instruction, db: DbWeight)
    ensures
        total_weight(record_of(i), db).time >= record_of(i).base_time,
        total_weight(record_of(i), db).proof_size >= record_of(i).proof_size,
{
    let rec = record_of(i);
    lemma_sat_add64_lower(rec.base_time, sat_mul64(db.read.time, rec.db_reads));
    lemma_sat_add64_lower(
        sat_add64(rec.base_time, sat_mul64(db.read.time, rec.db_reads)),
        sat_mul64(db.write.time, rec.db_writes),
    );
    lemma_sat_add64_lower(rec.proof_size, sat_mul64(db.read.proof_size, rec.db_reads));
    lemma_sat_add64_lower(
        sat_add64(rec.proof_size, sat_mul64(db.read.proof_size, rec.db_reads)),
        sat_mul64(db.write.proof_size, rec.db_writes),
    );
}

/// The accumulation saturates instead of wrapping: if a single database read
/// already costs the maximal time and the instruction performs at least one
/// read, the total time is pinned at the maximum, never a wrapped-around
/// small value.
pub proof fn lemma_query_saturates(i: Instruction, db: DbWeight)
    requires
        db.read.time == u64::MAX,
        record_of(i).db_reads >= 1,
    ensures
        total_weight(record_of(i), db).time == u64::MAX,
{
    let rec = record_of(i);
    lemma_sat_mul64_absorbs(rec.db_reads);
    lemma_sat_add64_absorbs(rec.base_time);
    lemma_sat_add64_absorbs(sat_mul64(db.write.time, rec.db_writes));
}

} // verus!
