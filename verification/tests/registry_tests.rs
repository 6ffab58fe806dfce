use cess_ffi::registry::{
    cess_RegisteredAggregationProof, cess_RegisteredPoStProof, cess_RegisteredSealProof,
    RegisteredAggregationProof, RegisteredPoStProof, RegisteredSealProof,
};

const SEAL_VARIANTS: [RegisteredSealProof; 12] = [
    RegisteredSealProof::StackedDrg2KiBV1,
    RegisteredSealProof::StackedDrg8MiBV1,
    RegisteredSealProof::StackedDrg32MiBV1,
    RegisteredSealProof::StackedDrg512MiBV1,
    RegisteredSealProof::StackedDrg32GiBV1,
    RegisteredSealProof::StackedDrg64GiBV1,
    RegisteredSealProof::StackedDrg2KiBV1_1,
    RegisteredSealProof::StackedDrg8MiBV1_1,
    RegisteredSealProof::StackedDrg32MiBV1_1,
    RegisteredSealProof::StackedDrg512MiBV1_1,
    RegisteredSealProof::StackedDrg32GiBV1_1,
    RegisteredSealProof::StackedDrg64GiBV1_1,
];

const POST_VARIANTS: [RegisteredPoStProof; 12] = [
    RegisteredPoStProof::StackedDrgWinning2KiBV1,
    RegisteredPoStProof::StackedDrgWinning8MiBV1,
    RegisteredPoStProof::StackedDrgWinning32MiBV1,
    RegisteredPoStProof::StackedDrgWinning512MiBV1,
    RegisteredPoStProof::StackedDrgWinning32GiBV1,
    RegisteredPoStProof::StackedDrgWinning64GiBV1,
    RegisteredPoStProof::StackedDrgWindow2KiBV1,
    RegisteredPoStProof::StackedDrgWindow8MiBV1,
    RegisteredPoStProof::StackedDrgWindow32MiBV1,
    RegisteredPoStProof::StackedDrgWindow512MiBV1,
    RegisteredPoStProof::StackedDrgWindow32GiBV1,
    RegisteredPoStProof::StackedDrgWindow64GiBV1,
];

#[test]
fn seal_registry_round_trip_internal() {
    for v in SEAL_VARIANTS {
        let b = cess_RegisteredSealProof::from(v);
        assert_eq!(RegisteredSealProof::from(b), v);
    }
}

#[test]
fn seal_registry_round_trip_boundary() {
    for v in SEAL_VARIANTS {
        let b = cess_RegisteredSealProof::from(v);
        assert_eq!(cess_RegisteredSealProof::from(RegisteredSealProof::from(b)), b);
    }
}

#[test]
fn seal_registry_ordinal_stable() {
    for v in SEAL_VARIANTS {
        let first = cess_RegisteredSealProof::from(v);
        let second = cess_RegisteredSealProof::from(v);
        assert_eq!(first, second);
    }
}

#[test]
fn seal_registry_expected_variants() {
    assert_eq!(
        cess_RegisteredSealProof::from(RegisteredSealProof::StackedDrg2KiBV1),
        cess_RegisteredSealProof::StackedDrg2KiBV1
    );
    assert_eq!(
        cess_RegisteredSealProof::from(RegisteredSealProof::StackedDrg64GiBV1_1),
        cess_RegisteredSealProof::StackedDrg64GiBV1_1
    );
}

#[test]
fn post_registry_round_trip_internal() {
    for v in POST_VARIANTS {
        let b = cess_RegisteredPoStProof::from(v);
        assert_eq!(RegisteredPoStProof::from(b), v);
    }
}

#[test]
fn post_registry_round_trip_boundary() {
    for v in POST_VARIANTS {
        let b = cess_RegisteredPoStProof::from(v);
        assert_eq!(cess_RegisteredPoStProof::from(RegisteredPoStProof::from(b)), b);
    }
}

#[test]
fn post_registry_ordinal_stable() {
    for v in POST_VARIANTS {
        let first = cess_RegisteredPoStProof::from(v);
        let second = cess_RegisteredPoStProof::from(v);
        assert_eq!(first, second);
    }
}

#[test]
fn post_registry_expected_variants() {
    assert_eq!(
        cess_RegisteredPoStProof::from(RegisteredPoStProof::StackedDrgWindow32GiBV1),
        cess_RegisteredPoStProof::StackedDrgWindow32GiBV1
    );
    assert_eq!(
        RegisteredPoStProof::from(cess_RegisteredPoStProof::StackedDrgWinning2KiBV1),
        RegisteredPoStProof::StackedDrgWinning2KiBV1
    );
}

#[test]
fn aggregation_registry_round_trip() {
    let v = RegisteredAggregationProof::SnarkPackV1;
    let b = cess_RegisteredAggregationProof::from(v);
    assert_eq!(b, cess_RegisteredAggregationProof::SnarkPackV1);
    assert_eq!(RegisteredAggregationProof::from(b), v);
    assert_eq!(cess_RegisteredAggregationProof::from(v), cess_RegisteredAggregationProof::from(v));
}
