//! The enum bridge: bidirectional, exhaustive mappings between the
//! proving engine's registry enumerations and their boundary-safe
//! counterparts.
//!
//! Each mapping is a total function written as an exhaustive match with
//! no fallback arm, so that adding a variant on one side without its
//! counterpart is a build-time error.  The declaration order of each
//! boundary enumeration fixes the ordinals that callers see and must
//! stay stable once published.

use vstd::prelude::*;

verus! {

/// Seal proof registry on the proving-engine side: six sector size
/// classes in each of two protocol generations.
#[derive(Clone, Copy, Debug, PartialEq, Eq, Structural)]
pub enum RegisteredSealProof {
    StackedDrg2KiBV1,
    StackedDrg8MiBV1,
    StackedDrg32MiBV1,
    StackedDrg512MiBV1,
    StackedDrg32GiBV1,
    StackedDrg64GiBV1,
    StackedDrg2KiBV1_1,
    StackedDrg8MiBV1_1,
    StackedDrg32MiBV1_1,
    StackedDrg512MiBV1_1,
    StackedDrg32GiBV1_1,
    StackedDrg64GiBV1_1,
}

/// Seal proof registry in its boundary-safe layout.
#[derive(Clone, Copy, Debug, PartialEq, Eq, Structural)]
pub enum cess_RegisteredSealProof {
    StackedDrg2KiBV1,
    StackedDrg8MiBV1,
    StackedDrg32MiBV1,
    StackedDrg512MiBV1,
    StackedDrg32GiBV1,
    StackedDrg64GiBV1,
    StackedDrg2KiBV1_1,
    StackedDrg8MiBV1_1,
    StackedDrg32MiBV1_1,
    StackedDrg512MiBV1_1,
    StackedDrg32GiBV1_1,
    StackedDrg64GiBV1_1,
}

/// Proof-of-Spacetime registry on the proving-engine side:
/// Winning/Window, each over six sector size classes.
#[derive(Clone, Copy, Debug, PartialEq, Eq, Structural)]
pub enum RegisteredPoStProof {
    StackedDrgWinning2KiBV1,
    StackedDrgWinning8MiBV1,
    StackedDrgWinning32MiBV1,
    StackedDrgWinning512MiBV1,
    StackedDrgWinning32GiBV1,
    StackedDrgWinning64GiBV1,
    StackedDrgWindow2KiBV1,
    StackedDrgWindow8MiBV1,
    StackedDrgWindow32MiBV1,
    StackedDrgWindow512MiBV1,
    StackedDrgWindow32GiBV1,
    StackedDrgWindow64GiBV1,
}

/// Proof-of-Spacetime registry in its boundary-safe layout.
#[derive(Clone, Copy, Debug, PartialEq, Eq, Structural)]
pub enum cess_RegisteredPoStProof {
    StackedDrgWinning2KiBV1,
    StackedDrgWinning8MiBV1,
    StackedDrgWinning32MiBV1,
    StackedDrgWinning512MiBV1,
    StackedDrgWinning32GiBV1,
    StackedDrgWinning64GiBV1,
    StackedDrgWindow2KiBV1,
    StackedDrgWindow8MiBV1,
    StackedDrgWindow32MiBV1,
    StackedDrgWindow512MiBV1,
    StackedDrgWindow32GiBV1,
    StackedDrgWindow64GiBV1,
}

/// Aggregation proof registry on the proving-engine side.
#[derive(Clone, Copy, Debug, PartialEq, Eq, Structural)]
pub enum RegisteredAggregationProof {
    SnarkPackV1,
}

/// Aggregation proof registry in its boundary-safe layout.
#[derive(Clone, Copy, Debug, PartialEq, Eq, Structural)]
pub enum cess_RegisteredAggregationProof {
    SnarkPackV1,
}

/// What the boundary layout of a seal proof registry variant is.
pub open spec fn seal_to_boundary(v: RegisteredSealProof) -> cess_RegisteredSealProof {
    match v {
        RegisteredSealProof::StackedDrg2KiBV1 => cess_RegisteredSealProof::StackedDrg2KiBV1,
        RegisteredSealProof::StackedDrg8MiBV1 => cess_RegisteredSealProof::StackedDrg8MiBV1,
        RegisteredSealProof::StackedDrg32MiBV1 => cess_RegisteredSealProof::StackedDrg32MiBV1,
        RegisteredSealProof::StackedDrg512MiBV1 => cess_RegisteredSealProof::StackedDrg512MiBV1,
        RegisteredSealProof::StackedDrg32GiBV1 => cess_RegisteredSealProof::StackedDrg32GiBV1,
        RegisteredSealProof::StackedDrg64GiBV1 => cess_RegisteredSealProof::StackedDrg64GiBV1,
        RegisteredSealProof::StackedDrg2KiBV1_1 => cess_RegisteredSealProof::StackedDrg2KiBV1_1,
        RegisteredSealProof::StackedDrg8MiBV1_1 => cess_RegisteredSealProof::StackedDrg8MiBV1_1,
        RegisteredSealProof::StackedDrg32MiBV1_1 => cess_RegisteredSealProof::StackedDrg32MiBV1_1,
        RegisteredSealProof::StackedDrg512MiBV1_1 => cess_RegisteredSealProof::StackedDrg512MiBV1_1,
        RegisteredSealProof::StackedDrg32GiBV1_1 => cess_RegisteredSealProof::StackedDrg32GiBV1_1,
        RegisteredSealProof::StackedDrg64GiBV1_1 => cess_RegisteredSealProof::StackedDrg64GiBV1_1,
    }
}

/// What the proving-engine variant of a boundary seal proof registry
/// variant is.
pub open spec fn seal_to_internal(v: cess_RegisteredSealProof) -> RegisteredSealProof {
    match v {
        cess_RegisteredSealProof::StackedDrg2KiBV1 => RegisteredSealProof::StackedDrg2KiBV1,
        cess_RegisteredSealProof::StackedDrg8MiBV1 => RegisteredSealProof::StackedDrg8MiBV1,
        cess_RegisteredSealProof::StackedDrg32MiBV1 => RegisteredSealProof::StackedDrg32MiBV1,
        cess_RegisteredSealProof::StackedDrg512MiBV1 => RegisteredSealProof::StackedDrg512MiBV1,
        cess_RegisteredSealProof::StackedDrg32GiBV1 => RegisteredSealProof::StackedDrg32GiBV1,
        cess_RegisteredSealProof::StackedDrg64GiBV1 => RegisteredSealProof::StackedDrg64GiBV1,
        cess_RegisteredSealProof::StackedDrg2KiBV1_1 => RegisteredSealProof::StackedDrg2KiBV1_1,
        cess_RegisteredSealProof::StackedDrg8MiBV1_1 => RegisteredSealProof::StackedDrg8MiBV1_1,
        cess_RegisteredSealProof::StackedDrg32MiBV1_1 => RegisteredSealProof::StackedDrg32MiBV1_1,
        cess_RegisteredSealProof::StackedDrg512MiBV1_1 => RegisteredSealProof::StackedDrg512MiBV1_1,
        cess_RegisteredSealProof::StackedDrg32GiBV1_1 => RegisteredSealProof::StackedDrg32GiBV1_1,
        cess_RegisteredSealProof::StackedDrg64GiBV1_1 => RegisteredSealProof::StackedDrg64GiBV1_1,
    }
}

/// What the boundary layout of a Proof-of-Spacetime registry variant is.
pub open spec fn post_to_boundary(v: RegisteredPoStProof) -> cess_RegisteredPoStProof {
    match v {
        RegisteredPoStProof::StackedDrgWinning2KiBV1 => cess_RegisteredPoStProof::StackedDrgWinning2KiBV1,
        RegisteredPoStProof::StackedDrgWinning8MiBV1 => cess_RegisteredPoStProof::StackedDrgWinning8MiBV1,
        RegisteredPoStProof::StackedDrgWinning32MiBV1 => cess_RegisteredPoStProof::StackedDrgWinning32MiBV1,
        RegisteredPoStProof::StackedDrgWinning512MiBV1 => cess_RegisteredPoStProof::StackedDrgWinning512MiBV1,
        RegisteredPoStProof::StackedDrgWinning32GiBV1 => cess_RegisteredPoStProof::StackedDrgWinning32GiBV1,
        RegisteredPoStProof::StackedDrgWinning64GiBV1 => cess_RegisteredPoStProof::StackedDrgWinning64GiBV1,
        RegisteredPoStProof::StackedDrgWindow2KiBV1 => cess_RegisteredPoStProof::StackedDrgWindow2KiBV1,
        RegisteredPoStProof::StackedDrgWindow8MiBV1 => cess_RegisteredPoStProof::StackedDrgWindow8MiBV1,
        RegisteredPoStProof::StackedDrgWindow32MiBV1 => cess_RegisteredPoStProof::StackedDrgWindow32MiBV1,
        RegisteredPoStProof::StackedDrgWindow512MiBV1 => cess_RegisteredPoStProof::StackedDrgWindow512MiBV1,
        RegisteredPoStProof::StackedDrgWindow32GiBV1 => cess_RegisteredPoStProof::StackedDrgWindow32GiBV1,
        RegisteredPoStProof::StackedDrgWindow64GiBV1 => cess_RegisteredPoStProof::StackedDrgWindow64GiBV1,
    }
}

/// What the proving-engine variant of a boundary Proof-of-Spacetime
/// registry variant is.
pub open spec fn post_to_internal(v: cess_RegisteredPoStProof) -> RegisteredPoStProof {
    match v {
        cess_RegisteredPoStProof::StackedDrgWinning2KiBV1 => RegisteredPoStProof::StackedDrgWinning2KiBV1,
        cess_RegisteredPoStProof::StackedDrgWinning8MiBV1 => RegisteredPoStProof::StackedDrgWinning8MiBV1,
        cess_RegisteredPoStProof::StackedDrgWinning32MiBV1 => RegisteredPoStProof::StackedDrgWinning32MiBV1,
        cess_RegisteredPoStProof::StackedDrgWinning512MiBV1 => RegisteredPoStProof::StackedDrgWinning512MiBV1,
        cess_RegisteredPoStProof::StackedDrgWinning32GiBV1 => RegisteredPoStProof::StackedDrgWinning32GiBV1,
        cess_RegisteredPoStProof::StackedDrgWinning64GiBV1 => RegisteredPoStProof::StackedDrgWinning64GiBV1,
        cess_RegisteredPoStProof::StackedDrgWindow2KiBV1 => RegisteredPoStProof::StackedDrgWindow2KiBV1,
        cess_RegisteredPoStProof::StackedDrgWindow8MiBV1 => RegisteredPoStProof::StackedDrgWindow8MiBV1,
        cess_RegisteredPoStProof::StackedDrgWindow32MiBV1 => RegisteredPoStProof::StackedDrgWindow32MiBV1,
        cess_RegisteredPoStProof::StackedDrgWindow512MiBV1 => RegisteredPoStProof::StackedDrgWindow512MiBV1,
        cess_RegisteredPoStProof::StackedDrgWindow32GiBV1 => RegisteredPoStProof::StackedDrgWindow32GiBV1,
        cess_RegisteredPoStProof::StackedDrgWindow64GiBV1 => RegisteredPoStProof::StackedDrgWindow64GiBV1,
    }
}

/// What the boundary layout of an aggregation proof registry variant is.
pub open spec fn agg_to_boundary(v: RegisteredAggregationProof) -> cess_RegisteredAggregationProof {
    match v {
        RegisteredAggregationProof::SnarkPackV1 => cess_RegisteredAggregationProof::SnarkPackV1,
    }
}

/// What the proving-engine variant of a boundary aggregation proof
/// registry variant is.
pub open spec fn agg_to_internal(v: cess_RegisteredAggregationProof) -> RegisteredAggregationProof {
    match v {
        cess_RegisteredAggregationProof::SnarkPackV1 => RegisteredAggregationProof::SnarkPackV1,
    }
}

impl From<RegisteredSealProof> for cess_RegisteredSealProof {
    fn from(other: RegisteredSealProof) -> (r: Self) {
        match other {
            RegisteredSealProof::StackedDrg2KiBV1 => cess_RegisteredSealProof::StackedDrg2KiBV1,
            RegisteredSealProof::StackedDrg8MiBV1 => cess_RegisteredSealProof::StackedDrg8MiBV1,
            RegisteredSealProof::StackedDrg32MiBV1 => cess_RegisteredSealProof::StackedDrg32MiBV1,
            RegisteredSealProof::StackedDrg512MiBV1 => cess_RegisteredSealProof::StackedDrg512MiBV1,
            RegisteredSealProof::StackedDrg32GiBV1 => cess_RegisteredSealProof::StackedDrg32GiBV1,
            RegisteredSealProof::StackedDrg64GiBV1 => cess_RegisteredSealProof::StackedDrg64GiBV1,
            RegisteredSealProof::StackedDrg2KiBV1_1 => cess_RegisteredSealProof::StackedDrg2KiBV1_1,
            RegisteredSealProof::StackedDrg8MiBV1_1 => cess_RegisteredSealProof::StackedDrg8MiBV1_1,
            RegisteredSealProof::StackedDrg32MiBV1_1 => {
                cess_RegisteredSealProof::StackedDrg32MiBV1_1
            },
            RegisteredSealProof::StackedDrg512MiBV1_1 => {
                cess_RegisteredSealProof::StackedDrg512MiBV1_1
            },
            RegisteredSealProof::StackedDrg32GiBV1_1 => {
                cess_RegisteredSealProof::StackedDrg32GiBV1_1
            },
            RegisteredSealProof::StackedDrg64GiBV1_1 => {
                cess_RegisteredSealProof::StackedDrg64GiBV1_1
            },
        }
    }
}

impl vstd::std_specs::convert::FromSpecImpl<RegisteredSealProof> for cess_RegisteredSealProof {
    open spec fn obeys_from_spec() -> bool {
        true
    }

    open spec fn from_spec(other: RegisteredSealProof) -> Self {
        seal_to_boundary(other)
    }
}

impl From<cess_RegisteredSealProof> for RegisteredSealProof {
    fn from(other: cess_RegisteredSealProof) -> (r: Self) {
        match other {
            cess_RegisteredSealProof::StackedDrg2KiBV1 => RegisteredSealProof::StackedDrg2KiBV1,
            cess_RegisteredSealProof::StackedDrg8MiBV1 => RegisteredSealProof::StackedDrg8MiBV1,
            cess_RegisteredSealProof::StackedDrg32MiBV1 => RegisteredSealProof::StackedDrg32MiBV1,
            cess_RegisteredSealProof::StackedDrg512MiBV1 => RegisteredSealProof::StackedDrg512MiBV1,
            cess_RegisteredSealProof::StackedDrg32GiBV1 => RegisteredSealProof::StackedDrg32GiBV1,
            cess_RegisteredSealProof::StackedDrg64GiBV1 => RegisteredSealProof::StackedDrg64GiBV1,
            cess_RegisteredSealProof::StackedDrg2KiBV1_1 => RegisteredSealProof::StackedDrg2KiBV1_1,
            cess_RegisteredSealProof::StackedDrg8MiBV1_1 => RegisteredSealProof::StackedDrg8MiBV1_1,
            cess_RegisteredSealProof::StackedDrg32MiBV1_1 => {
                RegisteredSealProof::StackedDrg32MiBV1_1
            },
            cess_RegisteredSealProof::StackedDrg512MiBV1_1 => {
                RegisteredSealProof::StackedDrg512MiBV1_1
            },
            cess_RegisteredSealProof::StackedDrg32GiBV1_1 => {
                RegisteredSealProof::StackedDrg32GiBV1_1
            },
            cess_RegisteredSealProof::StackedDrg64GiBV1_1 => {
                RegisteredSealProof::StackedDrg64GiBV1_1
            },
        }
    }
}

impl vstd::std_specs::convert::FromSpecImpl<cess_RegisteredSealProof> for RegisteredSealProof {
    open spec fn obeys_from_spec() -> bool {
        true
    }

    open spec fn from_spec(other: cess_RegisteredSealProof) -> Self {
        seal_to_internal(other)
    }
}

impl From<RegisteredPoStProof> for cess_RegisteredPoStProof {
    fn from(other: RegisteredPoStProof) -> (r: Self) {
        match other {
            RegisteredPoStProof::StackedDrgWinning2KiBV1 => {
                cess_RegisteredPoStProof::StackedDrgWinning2KiBV1
            },
            RegisteredPoStProof::StackedDrgWinning8MiBV1 => {
                cess_RegisteredPoStProof::StackedDrgWinning8MiBV1
            },
            RegisteredPoStProof::StackedDrgWinning32MiBV1 => {
                cess_RegisteredPoStProof::StackedDrgWinning32MiBV1
            },
            RegisteredPoStProof::StackedDrgWinning512MiBV1 => {
                cess_RegisteredPoStProof::StackedDrgWinning512MiBV1
            },
            RegisteredPoStProof::StackedDrgWinning32GiBV1 => {
                cess_RegisteredPoStProof::StackedDrgWinning32GiBV1
            },
            RegisteredPoStProof::StackedDrgWinning64GiBV1 => {
                cess_RegisteredPoStProof::StackedDrgWinning64GiBV1
            },
            RegisteredPoStProof::StackedDrgWindow2KiBV1 => {
                cess_RegisteredPoStProof::StackedDrgWindow2KiBV1
            },
            RegisteredPoStProof::StackedDrgWindow8MiBV1 => {
                cess_RegisteredPoStProof::StackedDrgWindow8MiBV1
            },
            RegisteredPoStProof::StackedDrgWindow32MiBV1 => {
                cess_RegisteredPoStProof::StackedDrgWindow32MiBV1
            },
            RegisteredPoStProof::StackedDrgWindow512MiBV1 => {
                cess_RegisteredPoStProof::StackedDrgWindow512MiBV1
            },
            RegisteredPoStProof::StackedDrgWindow32GiBV1 => {
                cess_RegisteredPoStProof::StackedDrgWindow32GiBV1
            },
            RegisteredPoStProof::StackedDrgWindow64GiBV1 => {
                cess_RegisteredPoStProof::StackedDrgWindow64GiBV1
            },
        }
    }
}

impl vstd::std_specs::convert::FromSpecImpl<RegisteredPoStProof> for cess_RegisteredPoStProof {
    open spec fn obeys_from_spec() -> bool {
        true
    }

    open spec fn from_spec(other: RegisteredPoStProof) -> Self {
        post_to_boundary(other)
    }
}

impl From<cess_RegisteredPoStProof> for RegisteredPoStProof {
    fn from(other: cess_RegisteredPoStProof) -> (r: Self) {
        match other {
            cess_RegisteredPoStProof::StackedDrgWinning2KiBV1 => {
                RegisteredPoStProof::StackedDrgWinning2KiBV1
            },
            cess_RegisteredPoStProof::StackedDrgWinning8MiBV1 => {
                RegisteredPoStProof::StackedDrgWinning8MiBV1
            },
            cess_RegisteredPoStProof::StackedDrgWinning32MiBV1 => {
                RegisteredPoStProof::StackedDrgWinning32MiBV1
            },
            cess_RegisteredPoStProof::StackedDrgWinning512MiBV1 => {
                RegisteredPoStProof::StackedDrgWinning512MiBV1
            },
            cess_RegisteredPoStProof::StackedDrgWinning32GiBV1 => {
                RegisteredPoStProof::StackedDrgWinning32GiBV1
            },
            cess_RegisteredPoStProof::StackedDrgWinning64GiBV1 => {
                RegisteredPoStProof::StackedDrgWinning64GiBV1
            },
            cess_RegisteredPoStProof::StackedDrgWindow2KiBV1 => {
                RegisteredPoStProof::StackedDrgWindow2KiBV1
            },
            cess_RegisteredPoStProof::StackedDrgWindow8MiBV1 => {
                RegisteredPoStProof::StackedDrgWindow8MiBV1
            },
            cess_RegisteredPoStProof::StackedDrgWindow32MiBV1 => {
                RegisteredPoStProof::StackedDrgWindow32MiBV1
            },
            cess_RegisteredPoStProof::StackedDrgWindow512MiBV1 => {
                RegisteredPoStProof::StackedDrgWindow512MiBV1
            },
            cess_RegisteredPoStProof::StackedDrgWindow32GiBV1 => {
                RegisteredPoStProof::StackedDrgWindow32GiBV1
            },
            cess_RegisteredPoStProof::StackedDrgWindow64GiBV1 => {
                RegisteredPoStProof::StackedDrgWindow64GiBV1
            },
        }
    }
}

impl vstd::std_specs::convert::FromSpecImpl<cess_RegisteredPoStProof> for RegisteredPoStProof {
    open spec fn obeys_from_spec() -> bool {
        true
    }

    open spec fn from_spec(other: cess_RegisteredPoStProof) -> Self {
        post_to_internal(other)
    }
}

impl From<RegisteredAggregationProof> for cess_RegisteredAggregationProof {
    fn from(other: RegisteredAggregationProof) -> (r: Self) {
        match other {
            RegisteredAggregationProof::SnarkPackV1 => {
                cess_RegisteredAggregationProof::SnarkPackV1
            },
        }
    }
}

impl vstd::std_specs::convert::FromSpecImpl<RegisteredAggregationProof> for cess_RegisteredAggregationProof {
    open spec fn obeys_from_spec() -> bool {
        true
    }

    open spec fn from_spec(other: RegisteredAggregationProof) -> Self {
        agg_to_boundary(other)
    }
}

impl From<cess_RegisteredAggregationProof> for RegisteredAggregationProof {
    fn from(other: cess_RegisteredAggregationProof) -> (r: Self) {
        match other {
            cess_RegisteredAggregationProof::SnarkPackV1 => {
                RegisteredAggregationProof::SnarkPackV1
            },
        }
    }
}

impl vstd::std_specs::convert::FromSpecImpl<cess_RegisteredAggregationProof> for RegisteredAggregationProof {
    open spec fn obeys_from_spec() -> bool {
        true
    }

    open spec fn from_spec(other: cess_RegisteredAggregationProof) -> Self {
        agg_to_internal(other)
    }
}

/// Round trip over the seal proof registry: crossing the boundary and
/// coming back is the identity, in both directions.
pub proof fn lemma_seal_registry_round_trip(v: RegisteredSealProof, b: cess_RegisteredSealProof)
    ensures
        seal_to_internal(seal_to_boundary(v)) == v,
        seal_to_boundary(seal_to_internal(b)) == b,
{
}

/// Round trip over the Proof-of-Spacetime registry: crossing the
/// boundary and coming back is the identity, in both directions.
pub proof fn lemma_post_registry_round_trip(v: RegisteredPoStProof, b: cess_RegisteredPoStProof)
    ensures
        post_to_internal(post_to_boundary(v)) == v,
        post_to_boundary(post_to_internal(b)) == b,
{
}

/// Round trip over the aggregation proof registry: crossing the
/// boundary and coming back is the identity, in both directions.
pub proof fn lemma_agg_registry_round_trip(
    v: RegisteredAggregationProof,
    b: cess_RegisteredAggregationProof,
)
    ensures
        agg_to_internal(agg_to_boundary(v)) == v,
        agg_to_boundary(agg_to_internal(b)) == b,
{
}

} // verus!
