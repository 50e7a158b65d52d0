//! The three levels and their order.

use std::cmp::Ordering;
use vstd::prelude::*;
use vstd::std_specs::cmp::PartialOrdSpec;

verus! {

/// How much a command reports.
///
/// The levels are ordered `Quite < Terse < Verbose`.
#[derive(Clone, Copy, Debug, PartialEq, Eq, Structural, Ord)]
pub enum Verbosity {
    /// No output.
    Quite,
    /// Minimal reporting.
    Terse,
    /// Extended reporting.
    Verbose,
}

/// How two positions in the order compare.
pub open spec fn rank_order(a: u8, b: u8) -> Ordering {
    if a < b {
        Ordering::Less
    } else if a == b {
        Ordering::Equal
    } else {
        Ordering::Greater
    }
}

impl Verbosity {
    /// The level's position in the order: 0 for `Quite`, 1 for `Terse`,
    /// 2 for `Verbose`.
    pub open spec fn spec_rank(self) -> u8 {
        match self {
            Verbosity::Quite => 0u8,
            Verbosity::Terse => 1u8,
            Verbosity::Verbose => 2u8,
        }
    }

    /// The level's position in the order.
    #[verifier::when_used_as_spec(spec_rank)]
    pub fn rank(self) -> (r: u8)
        ensures
            r == self.spec_rank(),
    {
        match self {
            Verbosity::Quite => 0u8,
            Verbosity::Terse => 1u8,
            Verbosity::Verbose => 2u8,
        }
    }

    /// Whether this level reports at least as much as `floor` does: whether
    /// it stands at or above `floor` in the order.
    pub open spec fn spec_at_least(self, floor: Verbosity) -> bool {
        self.rank() >= floor.rank()
    }

    /// Whether this level reports at least as much as `floor` does.
    #[verifier::when_used_as_spec(spec_at_least)]
    pub fn at_least(self, floor: Verbosity) -> (r: bool)
        ensures
            r == self.spec_at_least(floor),
    {
        self.rank() >= floor.rank()
    }

    /// A level is at least `Terse` exactly when it is not `Quite`, at
    /// least `Verbose` exactly when it is `Verbose`, and every level is at
    /// least `Quite`.
    pub proof fn lemma_at_least_by_level(v: Verbosity)
        ensures
            v.at_least(Verbosity::Quite),
            v.at_least(Verbosity::Terse) <==> v != Verbosity::Quite,
            v.at_least(Verbosity::Verbose) <==> v == Verbosity::Verbose,
    {
    }

    /// The comparison is a total order: two levels compare as equal
    /// exactly when they are the same level, turning a comparison round
    /// turns its answer round, and `<` carries over from `a`, `b` and
    /// `b`, `c` to `a`, `c`.
    pub proof fn lemma_order_total(a: Verbosity, b: Verbosity, c: Verbosity)
        ensures
            a.partial_cmp_spec(&b) == Some(Ordering::Equal) <==> a == b,
            a.partial_cmp_spec(&b) == Some(Ordering::Less) <==> b.partial_cmp_spec(&a) == Some(
                Ordering::Greater,
            ),
            a.partial_cmp_spec(&b) == Some(Ordering::Less) && b.partial_cmp_spec(&c) == Some(
                Ordering::Less,
            ) ==> a.partial_cmp_spec(&c) == Some(Ordering::Less),
    {
    }

    /// `at_least` is the order read from the other side: a level is at
    /// least `floor` exactly when it does not compare as less than `floor`.
    pub proof fn lemma_at_least_is_order(v: Verbosity, floor: Verbosity)
        ensures
            v.at_least(floor) <==> v.partial_cmp_spec(&floor) != Some(Ordering::Less),
    {
    }
}

impl PartialOrd for Verbosity {
    fn partial_cmp(&self, other: &Verbosity) -> (r: Option<Ordering>) {
        let a: u8 = self.rank();
        let b: u8 = other.rank();
        if a < b {
            Some(Ordering::Less)
        } else if a == b {
            Some(Ordering::Equal)
        } else {
            Some(Ordering::Greater)
        }
    }
}

impl vstd::std_specs::cmp::PartialOrdSpecImpl for Verbosity {
    open spec fn obeys_partial_cmp_spec() -> bool {
        true
    }

    open spec fn partial_cmp_spec(&self, other: &Verbosity) -> Option<Ordering> {
        Some(rank_order(self.rank(), other.rank()))
    }
}

} // verus!
