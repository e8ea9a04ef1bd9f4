//! The optimization levels of a generator.

use core::cmp::Ordering;
use vstd::prelude::*;

verus! {

/// How much should each generator trade compile performance for runtime
/// performance?
#[derive(Debug, Clone, Copy, PartialEq, Eq, Ord, Hash, Structural)]
pub enum Optimization {
    /// Only perform register allocation and machine code generation.
    L0,
    /// More compact and faster code than [`Optimization::L0`],
    /// at practically the same compilation speed.
    L1,
    /// Additional common sub-expression elimination and sparse conditional
    /// constant propagation. Note that this is the default.
    L2,
    /// Additional register renaming and loop-invariant code motion.
    /// [`Optimization::L2`] is about 50% faster than this.
    L3,
}

impl Optimization {
    /// The number by which the native library knows this level.
    pub open spec fn spec_code(self) -> u32 {
        match self {
            Optimization::L0 => 0,
            Optimization::L1 => 1,
            Optimization::L2 => 2,
            Optimization::L3 => 3,
        }
    }

    /// How two levels compare: by their numbers.
    pub open spec fn ordering(self, other: Optimization) -> Ordering {
        if self.spec_code() < other.spec_code() {
            Ordering::Less
        } else if self.spec_code() == other.spec_code() {
            Ordering::Equal
        } else {
            Ordering::Greater
        }
    }

    /// The number by which the native library knows this level.
    #[must_use]
    pub fn code(self) -> (code: u32)
        ensures
            code == self.spec_code(),
    {
        match self {
            Optimization::L0 => 0,
            Optimization::L1 => 1,
            Optimization::L2 => 2,
            Optimization::L3 => 3,
        }
    }

    /// No two levels share a number, and no number is above 3.
    pub proof fn lemma_code_injective(self, other: Optimization)
        ensures
            self.spec_code() <= 3,
            self.spec_code() == other.spec_code() <==> self == other,
    {
    }

    /// The levels are totally ordered: of two levels exactly one of
    /// less, equal and greater holds, equal only of a level and itself, and
    /// less carries over a middle level.
    pub proof fn lemma_total_order(self, other: Optimization, third: Optimization)
        ensures
            self.ordering(other) == Ordering::Equal <==> self == other,
            self.ordering(other) == Ordering::Less <==> other.ordering(self)
                == Ordering::Greater,
            self.ordering(other) == Ordering::Less && other.ordering(third) == Ordering::Less
                ==> self.ordering(third) == Ordering::Less,
    {
    }
}

impl Default for Optimization {
    fn default() -> (level: Optimization)
        ensures
            level == Optimization::L2,
    {
        Optimization::L2
    }
}

impl PartialOrd for Optimization {
    fn partial_cmp(&self, other: &Optimization) -> (order: Option<Ordering>) {
        let mine: u32 = self.code();
        let theirs: u32 = other.code();
        if mine < theirs {
            Some(Ordering::Less)
        } else if mine == theirs {
            Some(Ordering::Equal)
        } else {
            Some(Ordering::Greater)
        }
    }
}

impl vstd::std_specs::cmp::PartialOrdSpecImpl for Optimization {
    open spec fn obeys_partial_cmp_spec() -> bool {
        true
    }

    open spec fn partial_cmp_spec(&self, other: &Optimization) -> Option<Ordering> {
        Some(self.ordering(*other))
    }
}

} // verus!
