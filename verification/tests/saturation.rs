use xcm_weights::table::WeightInfo;
use xcm_weights::weight::saturating_add64;
use xcm_weights::weight::saturating_mul64;
use xcm_weights::weight::DbWeight;
use xcm_weights::weight::Weight;

#[test]
fn saturating_add64_clamps_at_max() {
    assert_eq!(saturating_add64(u64::MAX, 1), u64::MAX);
    assert_eq!(saturating_add64(1, u64::MAX), u64::MAX);
    assert_eq!(saturating_add64(u64::MAX, u64::MAX), u64::MAX);
    assert_eq!(saturating_add64(u64::MAX - 1, 1), u64::MAX);
    assert_eq!(saturating_add64(2, 3), 5);
    assert_eq!(saturating_add64(0, 0), 0);
}

#[test]
fn saturating_mul64_clamps_at_max() {
    assert_eq!(saturating_mul64(u64::MAX, 2), u64::MAX);
    assert_eq!(saturating_mul64(u64::MAX, 1), u64::MAX);
    assert_eq!(saturating_mul64(u64::MAX, 0), 0);
    assert_eq!(saturating_mul64(1 << 32, 1 << 32), u64::MAX);
    assert_eq!(saturating_mul64(6, 7), 42);
}

#[test]
fn weight_saturating_add_is_componentwise() {
    let a = Weight::from_parts(u64::MAX - 10, 7);
    let b = Weight::from_parts(100, 5);
    let s = a.saturating_add(b);
    assert_eq!(s.time, u64::MAX);
    assert_eq!(s.proof_size, 12);
}

#[test]
fn maximal_read_time_saturates_queries_with_reads() {
    let db = DbWeight {
        read: Weight::from_parts(u64::MAX, 0),
        write: Weight::from_parts(100_000_000, 0),
    };
    let table = WeightInfo::new(db);
    // Every instruction that performs at least one read is pinned at the
    // maximum, never a wrapped-around small value.
    assert_eq!(table.report_holding().time, u64::MAX);
    assert_eq!(table.query_response().time, u64::MAX);
    assert_eq!(table.claim_asset().time, u64::MAX);
    assert_eq!(table.subscribe_version().time, u64::MAX);
    // One that performs no reads is unaffected on the time axis by the read
    // cost.
    assert_eq!(table.buy_execution().time, 3_227_000);
}

#[test]
fn maximal_write_proof_size_saturates_queries_with_writes() {
    let db = DbWeight {
        read: Weight::from_parts(25_000_000, 0),
        write: Weight::from_parts(100_000_000, u64::MAX),
    };
    let table = WeightInfo::new(db);
    assert_eq!(table.unsubscribe_version().proof_size, u64::MAX);
    assert_eq!(table.report_holding().proof_size, u64::MAX);
    assert_eq!(table.transact().proof_size, 0);
}

#[test]
fn db_weight_scaling() {
    let db = DbWeight {
        read: Weight::from_parts(3, 2),
        write: Weight::from_parts(11, 13),
    };
    assert_eq!(db.reads(0), Weight::from_parts(0, 0));
    assert_eq!(db.reads(5), Weight::from_parts(15, 10));
    assert_eq!(db.writes(2), Weight::from_parts(22, 26));
    assert_eq!(db.writes(u64::MAX), Weight::from_parts(u64::MAX, u64::MAX));
}
