use solochain_pallets::weights::{saturating_mul, RuntimeDbWeight, SubstrateWeight, Weight, WeightInfo};

fn rocks_db() -> RuntimeDbWeight {
    RuntimeDbWeight { read: 25_000_000, write: 100_000_000 }
}

#[test]
fn increment_costs_one_read_and_one_write() {
    let w = SubstrateWeight { db: rocks_db() };
    assert_eq!(w.increment(), Weight { ref_time: 131_000_000, proof_size: 0 });
}

#[test]
fn reset_costs_one_write() {
    let w = SubstrateWeight { db: rocks_db() };
    assert_eq!(w.reset(), Weight { ref_time: 105_000_000, proof_size: 0 });
}

#[test]
fn weights_saturate() {
    let w = SubstrateWeight { db: RuntimeDbWeight { read: u64::MAX, write: 1 } };
    assert_eq!(w.increment(), Weight { ref_time: u64::MAX, proof_size: 0 });
    assert_eq!(saturating_mul(u64::MAX, 2), u64::MAX);
    assert_eq!(saturating_mul(3, 4), 12);
    let a = Weight::from_parts(u64::MAX - 1, 5);
    assert_eq!(a.saturating_add(Weight::from_parts(3, 6)), Weight { ref_time: u64::MAX, proof_size: 11 });
    assert_eq!(rocks_db().reads(2), Weight { ref_time: 50_000_000, proof_size: 0 });
    assert_eq!(rocks_db().writes(3), Weight { ref_time: 300_000_000, proof_size: 0 });
}
