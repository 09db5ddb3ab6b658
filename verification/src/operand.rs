//! The model of a right-hand operand.
//!
//! The host hands the singletons arbitrary values. The algebra never looks
//! inside such a value; it reads a fixed, small collection of facts about it:
//! whether the host considers it set-like, whether it is iterable, whether it
//! is truthy, what its length is (if one can be determined), and whether it is
//! the universal-set singleton itself. [`Operand`] records exactly those
//! facts, as plain values, so that every decision the algebra makes is a pure,
//! verified function of them.

use vstd::prelude::*;

verus! {

/// The facts the algebra reads about an arbitrary host value.
///
/// The embedding layer fills one of these in by querying the host, then calls
/// the library. Every combination of fields is accepted by every operation;
/// [`Operand::wf`] names the combinations that an actual host value can
/// produce, and the proved laws assume no more than that.
#[derive(Clone, Debug, PartialEq, Eq)]
pub struct Operand {
    /// The concrete runtime type name of the value, carried into
    /// operand-type errors for diagnosability.
    pub runtime_type: String,
    /// The value satisfies the host's structural set capability
    /// (membership test, iteration, length-or-overflow).
    pub set_like: bool,
    /// The host can produce an iterator for the value.
    pub iterable: bool,
    /// The host considers the value truthy; for a set, that it is non-empty.
    pub truthy: bool,
    /// The value's length, or `None` when no finite length can be
    /// determined (an unbounded set's length request overflows).
    pub len: Option<usize>,
    /// The value is the universal-set singleton itself.
    pub universe: bool,
}

impl Operand {
    /// The field combinations that a coherent host value can actually
    /// exhibit: the universal set is an unbounded, non-empty set; anything
    /// set-like is iterable; and a set's truthiness agrees with its length,
    /// an unbounded set counting as non-empty.
    pub open spec fn wf(self) -> bool {
        &&& self.universe ==> self.set_like && self.len is None && self.truthy
        &&& self.set_like ==> self.iterable
        &&& self.set_like ==> (self.len matches Some(n) ==> (self.truthy <==> n > 0))
        &&& self.set_like && self.len is None ==> self.truthy
    }
}

/// The operand is a set whose length is determined and zero: as a set value,
/// it is empty.
pub open spec fn is_empty_operand(o: Operand) -> bool {
    o.len == Some(0usize)
}

/// The facts an operand carries when the value handed in is the empty-set
/// singleton itself: a falsy, zero-length set that is not the universal set.
pub open spec fn is_empty_singleton_operand(o: Operand) -> bool {
    o.set_like && o.iterable && !o.truthy && o.len == Some(0usize) && !o.universe
}

/// The facts an operand carries when the value handed in is the
/// universal-set singleton itself: a truthy set of undeterminable length.
pub open spec fn is_universe_singleton_operand(o: Operand) -> bool {
    o.set_like && o.iterable && o.truthy && o.len is None && o.universe
}

} // verus!
