//! The weight table: one query per instruction, combining the fixed record
//! with the injected database access costs.

use vstd::prelude::*;

use crate::instruction::record;
use crate::instruction::record_of;
use crate::instruction::Instruction;
use crate::instruction::WeightRecord;
use crate::weight::sat_scale;
use crate::weight::sat_sum;
use crate::weight::DbWeight;
use crate::weight::Weight;

verus! {

/// The total weight of one execution of an instruction with record `rec`
/// under database costs `db`:
///
/// - `time = base_time + db_reads * db.read.time + db_writes * db.write.time`
/// - `proof_size = proof_size + db_reads * db.read.proof_size
///                            + db_writes * db.write.proof_size`
///
/// with every addition and multiplication saturating at `u64::MAX`.
pub open spec fn total_weight(rec: WeightRecord, db: DbWeight) -> Weight {
    sat_sum(
        sat_sum(
            Weight { time: rec.base_time, proof_size: rec.proof_size },
            sat_scale(db.read, rec.db_reads),
        ),
        sat_scale(db.write, rec.db_writes),
    )
}

/// Weight functions for the generic cross-consensus instruction set.
///
/// The table itself is fixed; the per-read and per-write database cost is
/// supplied at construction, so the same table serves runtimes with
/// different storage-cost configurations. Every query is a pure function of
/// the fixed constants and that cost, and never fails.
#[derive(Clone, Copy, Debug, PartialEq, Eq, Structural)]
pub struct WeightInfo {
    pub db_weight: DbWeight,
}

impl WeightInfo {
    /// A weight table that prices database access according to `db_weight`.
    pub fn new(db_weight: DbWeight) -> (r: WeightInfo)
        ensures
            r.db_weight == db_weight,
    {
        WeightInfo { db_weight }
    }

    /// The total weight of one execution of `i`.
    pub fn query(&self, i: Instruction) -> (r: Weight)
        ensures
            r == total_weight(record_of(i), self.db_weight),
    {
        let rec = record(i);
        Weight::from_parts(rec.base_time, rec.proof_size)
            .saturating_add(self.db_weight.reads(rec.db_reads))
            .saturating_add(self.db_weight.writes(rec.db_writes))
    }

    pub fn report_holding(&self) -> (r: Weight)
        ensures
            r == total_weight(record_of(Instruction::ReportHolding), self.db_weight),
    {
        self.query(Instruction::ReportHolding)
    }

    pub fn buy_execution(&self) -> (r: Weight)
        ensures
            r == total_weight(record_of(Instruction::BuyExecution), self.db_weight),
    {
        self.query(Instruction::BuyExecution)
    }

    pub fn query_response(&self) -> (r: Weight)
        ensures
            r == total_weight(record_of(Instruction::QueryResponse), self.db_weight),
    {
        self.query(Instruction::QueryResponse)
    }

    pub fn transact(&self) -> (r: Weight)
        ensures
            r == total_weight(record_of(Instruction::Transact), self.db_weight),
    {
        self.query(Instruction::Transact)
    }

    pub fn refund_surplus(&self) -> (r: Weight)
        ensures
            r == total_weight(record_of(Instruction::RefundSurplus), self.db_weight),
    {
        self.query(Instruction::RefundSurplus)
    }

    pub fn set_error_handler(&self) -> (r: Weight)
        ensures
            r == total_weight(record_of(Instruction::SetErrorHandler), self.db_weight),
    {
        self.query(Instruction::SetErrorHandler)
    }

    pub fn set_appendix(&self) -> (r: Weight)
        ensures
            r == total_weight(record_of(Instruction::SetAppendix), self.db_weight),
    {
        self.query(Instruction::SetAppendix)
    }

    pub fn clear_error(&self) -> (r: Weight)
        ensures
            r == total_weight(record_of(Instruction::ClearError), self.db_weight),
    {
        self.query(Instruction::ClearError)
    }

    pub fn descend_origin(&self) -> (r: Weight)
        ensures
            r == total_weight(record_of(Instruction::DescendOrigin), self.db_weight),
    {
        self.query(Instruction::DescendOrigin)
    }

    pub fn clear_origin(&self) -> (r: Weight)
        ensures
            r == total_weight(record_of(Instruction::ClearOrigin), self.db_weight),
    {
        self.query(Instruction::ClearOrigin)
    }

    pub fn report_error(&self) -> (r: Weight)
        ensures
            r == total_weight(record_of(Instruction::ReportError), self.db_weight),
    {
        self.query(Instruction::ReportError)
    }

    pub fn claim_asset(&self) -> (r: Weight)
        ensures
            r == total_weight(record_of(Instruction::ClaimAsset), self.db_weight),
    {
        self.query(Instruction::ClaimAsset)
    }

    pub fn trap(&self) -> (r: Weight)
        ensures
            r == total_weight(record_of(Instruction::Trap), self.db_weight),
    {
        self.query(Instruction::Trap)
    }

    pub fn subscribe_version(&self) -> (r: Weight)
        ensures
            r == total_weight(record_of(Instruction::SubscribeVersion), self.db_weight),
    {
        self.query(Instruction::SubscribeVersion)
    }

    pub fn unsubscribe_version(&self) -> (r: Weight)
        ensures
            r == total_weight(record_of(Instruction::UnsubscribeVersion), self.db_weight),
    {
        self.query(Instruction::UnsubscribeVersion)
    }

    pub fn initiate_reserve_withdraw(&self) -> (r: Weight)
        ensures
            r == total_weight(record_of(Instruction::InitiateReserveWithdraw), self.db_weight),
    {
        self.query(Instruction::InitiateReserveWithdraw)
    }

    pub fn burn_asset(&self) -> (r: Weight)
        ensures
            r == total_weight(record_of(Instruction::BurnAsset), self.db_weight),
    {
        self.query(Instruction::BurnAsset)
    }

    pub fn expect_asset(&self) -> (r: Weight)
        ensures
            r == total_weight(record_of(Instruction::ExpectAsset), self.db_weight),
    {
        self.query(Instruction::ExpectAsset)
    }

    pub fn expect_origin(&self) -> (r: Weight)
        ensures
            r == total_weight(record_of(Instruction::ExpectOrigin), self.db_weight),
    {
        self.query(Instruction::ExpectOrigin)
    }

    pub fn expect_error(&self) -> (r: Weight)
        ensures
            r == total_weight(record_of(Instruction::ExpectError), self.db_weight),
    {
        self.query(Instruction::ExpectError)
    }

    pub fn expect_transact_status(&self) -> (r: Weight)
        ensures
            r == total_weight(record_of(Instruction::ExpectTransactStatus), self.db_weight),
    {
        self.query(Instruction::ExpectTransactStatus)
    }

    pub fn query_pallet(&self) -> (r: Weight)
        ensures
            r == total_weight(record_of(Instruction::QueryPallet), self.db_weight),
    {
        self.query(Instruction::QueryPallet)
    }

    pub fn expect_pallet(&self) -> (r: Weight)
        ensures
            r == total_weight(record_of(Instruction::ExpectPallet), self.db_weight),
    {
        self.query(Instruction::ExpectPallet)
    }

    pub fn report_transact_status(&self) -> (r: Weight)
        ensures
            r == total_weight(record_of(Instruction::ReportTransactStatus), self.db_weight),
    {
        self.query(Instruction::ReportTransactStatus)
    }

    pub fn clear_transact_status(&self) -> (r: Weight)
        ensures
            r == total_weight(record_of(Instruction::ClearTransactStatus), self.db_weight),
    {
        self.query(Instruction::ClearTransactStatus)
    }

    pub fn set_topic(&self) -> (r: Weight)
        ensures
            r == total_weight(record_of(Instruction::SetTopic), self.db_weight),
    {
        self.query(Instruction::SetTopic)
    }

    pub fn clear_topic(&self) -> (r: Weight)
        ensures
            r == total_weight(record_of(Instruction::ClearTopic), self.db_weight),
    {
        self.query(Instruction::ClearTopic)
    }

    pub fn set_fees_mode(&self) -> (r: Weight)
        ensures
            r == total_weight(record_of(Instruction::SetFeesMode), self.db_weight),
    {
        self.query(Instruction::SetFeesMode)
    }

    pub fn unpaid_execution(&self) -> (r: Weight)
        ensures
            r == total_weight(record_of(Instruction::UnpaidExecution), self.db_weight),
    {
        self.query(Instruction::UnpaidExecution)
    }
}

} // verus!
