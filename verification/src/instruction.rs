//! The instruction set and the fixed cost record of each instruction.

use vstd::prelude::*;

verus! {

/// One cross-consensus message instruction whose execution cost is metered.
/// The execution engine dispatches exactly these instructions, so a weight
/// lookup can never miss: every variant has a record in `record_of`.
#[derive(Clone, Copy, Debug, PartialEq, Eq, Structural)]
pub enum Instruction {
    ReportHolding,
    BuyExecution,
    QueryResponse,
    Transact,
    RefundSurplus,
    SetErrorHandler,
    SetAppendix,
    ClearError,
    DescendOrigin,
    ClearOrigin,
    ReportError,
    ClaimAsset,
    Trap,
    SubscribeVersion,
    UnsubscribeVersion,
    InitiateReserveWithdraw,
    BurnAsset,
    ExpectAsset,
    ExpectOrigin,
    ExpectError,
    ExpectTransactStatus,
    QueryPallet,
    ExpectPallet,
    ReportTransactStatus,
    ClearTransactStatus,
    SetTopic,
    ClearTopic,
    SetFeesMode,
    UnpaidExecution,
}

/// The fixed cost record of one instruction: its base execution time in
/// picoseconds, its estimated storage-proof size in bytes, and how many
/// database reads and writes executing it incurs.
#[derive(Clone, Copy, Debug, PartialEq, Eq, Structural)]
pub struct WeightRecord {
    pub base_time: u64,
    pub proof_size: u64,
    pub db_reads: u64,
    pub db_writes: u64,
}

/// The cost record of each instruction. This mapping is total and fixed:
/// changing it means replacing the constants below wholesale.
pub open spec fn record_of(i: Instruction) -> WeightRecord {
    match i {
        Instruction::ReportHolding => WeightRecord {
            base_time: 35_000_000,
            proof_size: 3676,
            db_reads: 7,
            db_writes: 4,
        },
        Instruction::BuyExecution => WeightRecord {
            base_time: 3_227_000,
            proof_size: 0,
            db_reads: 0,
            db_writes: 0,
        },
        Instruction::QueryResponse => WeightRecord {
            base_time: 12_199_000,
            proof_size: 3634,
            db_reads: 1,
            db_writes: 0,
        },
        Instruction::Transact => WeightRecord {
            base_time: 12_740_000,
            proof_size: 0,
            db_reads: 0,
            db_writes: 0,
        },
        Instruction::RefundSurplus => WeightRecord {
            base_time: 3_200_000,
            proof_size: 0,
            db_reads: 0,
            db_writes: 0,
        },
        Instruction::SetErrorHandler => WeightRecord {
            base_time: 3_060_000,
            proof_size: 0,
            db_reads: 0,
            db_writes: 0,
        },
        Instruction::SetAppendix => WeightRecord {
            base_time: 3_048_000,
            proof_size: 0,
            db_reads: 0,
            db_writes: 0,
        },
        Instruction::ClearError => WeightRecord {
            base_time: 2_990_000,
            proof_size: 0,
            db_reads: 0,
            db_writes: 0,
        },
        Instruction::DescendOrigin => WeightRecord {
            base_time: 4_005_000,
            proof_size: 0,
            db_reads: 0,
            db_writes: 0,
        },
        Instruction::ClearOrigin => WeightRecord {
            base_time: 3_037_000,
            proof_size: 0,
            db_reads: 0,
            db_writes: 0,
        },
        Instruction::ReportError => WeightRecord {
            base_time: 29_561_000,
            proof_size: 3676,
            db_reads: 7,
            db_writes: 4,
        },
        Instruction::ClaimAsset => WeightRecord {
            base_time: 16_629_000,
            proof_size: 3691,
            db_reads: 1,
            db_writes: 1,
        },
        Instruction::Trap => WeightRecord {
            base_time: 3_014_000,
            proof_size: 0,
            db_reads: 0,
            db_writes: 0,
        },
        Instruction::SubscribeVersion => WeightRecord {
            base_time: 36_678_000,
            proof_size: 3676,
            db_reads: 8,
            db_writes: 5,
        },
        Instruction::UnsubscribeVersion => WeightRecord {
            base_time: 5_176_000,
            proof_size: 0,
            db_reads: 0,
            db_writes: 1,
        },
        Instruction::InitiateReserveWithdraw => WeightRecord {
            base_time: 33_514_000,
            proof_size: 3676,
            db_reads: 7,
            db_writes: 4,
        },
        Instruction::BurnAsset => WeightRecord {
            base_time: 4_827_000,
            proof_size: 0,
            db_reads: 0,
            db_writes: 0,
        },
        Instruction::ExpectAsset => WeightRecord {
            base_time: 3_239_000,
            proof_size: 0,
            db_reads: 0,
            db_writes: 0,
        },
        Instruction::ExpectOrigin => WeightRecord {
            base_time: 3_118_000,
            proof_size: 0,
            db_reads: 0,
            db_writes: 0,
        },
        Instruction::ExpectError => WeightRecord {
            base_time: 2_990_000,
            proof_size: 0,
            db_reads: 0,
            db_writes: 0,
        },
        Instruction::ExpectTransactStatus => WeightRecord {
            base_time: 3_240_000,
            proof_size: 0,
            db_reads: 0,
            db_writes: 0,
        },
        Instruction::QueryPallet => WeightRecord {
            base_time: 37_766_000,
            proof_size: 3676,
            db_reads: 7,
            db_writes: 4,
        },
        Instruction::ExpectPallet => WeightRecord {
            base_time: 8_957_000,
            proof_size: 0,
            db_reads: 0,
            db_writes: 0,
        },
        Instruction::ReportTransactStatus => WeightRecord {
            base_time: 29_937_000,
            proof_size: 3676,
            db_reads: 7,
            db_writes: 4,
        },
        Instruction::ClearTransactStatus => WeightRecord {
            base_time: 3_023_000,
            proof_size: 0,
            db_reads: 0,
            db_writes: 0,
        },
        Instruction::SetTopic => WeightRecord {
            base_time: 2_960_000,
            proof_size: 0,
            db_reads: 0,
            db_writes: 0,
        },
        Instruction::ClearTopic => WeightRecord {
            base_time: 3_022_000,
            proof_size: 0,
            db_reads: 0,
            db_writes: 0,
        },
        Instruction::SetFeesMode => WeightRecord {
            base_time: 3_021_000,
            proof_size: 0,
            db_reads: 0,
            db_writes: 0,
        },
        Instruction::UnpaidExecution => WeightRecord {
            base_time: 3_153_000,
            proof_size: 0,
            db_reads: 0,
            db_writes: 0,
        },
    }
}

/// The cost record of `i`, as executable code. The match is exhaustive over
/// every dispatchable instruction, so a lookup cannot fail.
pub fn record(i: Instruction) -> (r: WeightRecord)
    ensures
        r == record_of(i),
{
    match i {
        Instruction::ReportHolding => WeightRecord {
            base_time: 35_000_000,
            proof_size: 3676,
            db_reads: 7,
            db_writes: 4,
        },
        Instruction::BuyExecution => WeightRecord {
            base_time: 3_227_000,
            proof_size: 0,
            db_reads: 0,
            db_writes: 0,
        },
        Instruction::QueryResponse => WeightRecord {
            base_time: 12_199_000,
            proof_size: 3634,
            db_reads: 1,
            db_writes: 0,
        },
        Instruction::Transact => WeightRecord {
            base_time: 12_740_000,
            proof_size: 0,
            db_reads: 0,
            db_writes: 0,
        },
        Instruction::RefundSurplus => WeightRecord {
            base_time: 3_200_000,
            proof_size: 0,
            db_reads: 0,
            db_writes: 0,
        },
        Instruction::SetErrorHandler => WeightRecord {
            base_time: 3_060_000,
            proof_size: 0,
            db_reads: 0,
            db_writes: 0,
        },
        Instruction::SetAppendix => WeightRecord {
            base_time: 3_048_000,
            proof_size: 0,
            db_reads: 0,
            db_writes: 0,
        },
        Instruction::ClearError => WeightRecord {
            base_time: 2_990_000,
            proof_size: 0,
            db_reads: 0,
            db_writes: 0,
        },
        Instruction::DescendOrigin => WeightRecord {
            base_time: 4_005_000,
            proof_size: 0,
            db_reads: 0,
            db_writes: 0,
        },
        Instruction::ClearOrigin => WeightRecord {
            base_time: 3_037_000,
            proof_size: 0,
            db_reads: 0,
            db_writes: 0,
        },
        Instruction::ReportError => WeightRecord {
            base_time: 29_561_000,
            proof_size: 3676,
            db_reads: 7,
            db_writes: 4,
        },
        Instruction::ClaimAsset => WeightRecord {
            base_time: 16_629_000,
            proof_size: 3691,
            db_reads: 1,
            db_writes: 1,
        },
        Instruction::Trap => WeightRecord {
            base_time: 3_014_000,
            proof_size: 0,
            db_reads: 0,
            db_writes: 0,
        },
        Instruction::SubscribeVersion => WeightRecord {
            base_time: 36_678_000,
            proof_size: 3676,
            db_reads: 8,
            db_writes: 5,
        },
        Instruction::UnsubscribeVersion => WeightRecord {
            base_time: 5_176_000,
            proof_size: 0,
            db_reads: 0,
            db_writes: 1,
        },
        Instruction::InitiateReserveWithdraw => WeightRecord {
            base_time: 33_514_000,
            proof_size: 3676,
            db_reads: 7,
            db_writes: 4,
        },
        Instruction::BurnAsset => WeightRecord {
            base_time: 4_827_000,
            proof_size: 0,
            db_reads: 0,
            db_writes: 0,
        },
        Instruction::ExpectAsset => WeightRecord {
            base_time: 3_239_000,
            proof_size: 0,
            db_reads: 0,
            db_writes: 0,
        },
        Instruction::ExpectOrigin => WeightRecord {
            base_time: 3_118_000,
            proof_size: 0,
            db_reads: 0,
            db_writes: 0,
        },
        Instruction::ExpectError => WeightRecord {
            base_time: 2_990_000,
            proof_size: 0,
            db_reads: 0,
            db_writes: 0,
        },
        Instruction::ExpectTransactStatus => WeightRecord {
            base_time: 3_240_000,
            proof_size: 0,
            db_reads: 0,
            db_writes: 0,
        },
        Instruction::QueryPallet => WeightRecord {
            base_time: 37_766_000,
            proof_size: 3676,
            db_reads: 7,
            db_writes: 4,
        },
        Instruction::ExpectPallet => WeightRecord {
            base_time: 8_957_000,
            proof_size: 0,
            db_reads: 0,
            db_writes: 0,
        },
        Instruction::ReportTransactStatus => WeightRecord {
            base_time: 29_937_000,
            proof_size: 3676,
            db_reads: 7,
            db_writes: 4,
        },
        Instruction::ClearTransactStatus => WeightRecord {
            base_time: 3_023_000,
            proof_size: 0,
            db_reads: 0,
            db_writes: 0,
        },
        Instruction::SetTopic => WeightRecord {
            base_time: 2_960_000,
            proof_size: 0,
            db_reads: 0,
            db_writes: 0,
        },
        Instruction::ClearTopic => WeightRecord {
            base_time: 3_022_000,
            proof_size: 0,
            db_reads: 0,
            db_writes: 0,
        },
        Instruction::SetFeesMode => WeightRecord {
            base_time: 3_021_000,
            proof_size: 0,
            db_reads: 0,
            db_writes: 0,
        },
        Instruction::UnpaidExecution => WeightRecord {
            base_time: 3_153_000,
            proof_size: 0,
            db_reads: 0,
            db_writes: 0,
        },
    }
}

} // verus!
