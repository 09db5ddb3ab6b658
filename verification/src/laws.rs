//! The algebraic laws of the two singletons, proved of the dispatcher in
//! [`crate::algebra`]. Each executable protocol method is proved equal to
//! the dispatcher at its own variant, so every law below holds of the
//! executable methods as well.

use vstd::prelude::*;

use crate::algebra::CompareOp;
use crate::algebra::SetError;
use crate::algebra::SetOutcome;
use crate::algebra::SymbolicSet;
use crate::algebra::complement_spec;
use crate::algebra::contains_spec;
use crate::algebra::difference_spec;
use crate::algebra::empty_compare_spec;
use crate::algebra::intersection_spec;
use crate::algebra::isdisjoint_spec;
use crate::algebra::length_spec;
use crate::algebra::reverse_difference_spec;
use crate::algebra::symmetric_difference_spec;
use crate::algebra::union_spec;
use crate::operand::Operand;
use crate::operand::is_empty_operand;
use crate::operand::is_empty_singleton_operand;
use crate::operand::is_universe_singleton_operand;

verus! {

/// Membership is constant: the empty set contains no value and the
/// universal set contains every value.
pub proof fn lemma_membership()
    ensures
        !contains_spec(SymbolicSet::Empty),
        contains_spec(SymbolicSet::Universe),
{
}

/// Against an operand that is a genuine empty set, the empty-set singleton
/// compares exactly as that native empty set compares with itself: equal,
/// mutually included, and in no strict order. With its hash fixed to the
/// native empty set's hash, the singleton is indistinguishable from that
/// native value wherever behaviour overlaps.
pub proof fn lemma_empty_matches_native_empty(o: Operand)
    requires
        o.set_like,
        is_empty_operand(o),
    ensures
        empty_compare_spec(o, CompareOp::Eq) == Ok::<bool, SetError>(true),
        empty_compare_spec(o, CompareOp::Ne) == Ok::<bool, SetError>(false),
        empty_compare_spec(o, CompareOp::Le) == Ok::<bool, SetError>(true),
        empty_compare_spec(o, CompareOp::Ge) == Ok::<bool, SetError>(true),
        empty_compare_spec(o, CompareOp::Lt) == Ok::<bool, SetError>(false),
        empty_compare_spec(o, CompareOp::Gt) == Ok::<bool, SetError>(false),
{
}

/// Cardinality: the empty set's length is zero; the universal set has no
/// finite length, only the unbounded-cardinality failure.
pub proof fn lemma_cardinality()
    ensures
        length_spec(SymbolicSet::Empty) == Ok::<usize, SetError>(0usize),
        length_spec(SymbolicSet::Universe) == Err::<usize, SetError>(
            SetError::UnboundedCardinality,
        ),
{
}

/// The empty set absorbs under intersection: for every set-like operand the
/// result is the empty set.
pub proof fn lemma_empty_intersection(o: Operand)
    requires
        o.set_like,
    ensures
        intersection_spec(SymbolicSet::Empty, o) == Ok::<SetOutcome, SetError>(SetOutcome::Empty),
{
}

/// The empty set is neutral under union: a non-empty set-like operand comes
/// back itself, and an empty one comes back as the empty-set singleton — an
/// equal set value.
pub proof fn lemma_empty_union(o: Operand)
    requires
        o.wf(),
        o.set_like,
    ensures
        !is_empty_operand(o) ==> union_spec(SymbolicSet::Empty, o) == Ok::<SetOutcome, SetError>(
            SetOutcome::Other,
        ),
        is_empty_operand(o) ==> union_spec(SymbolicSet::Empty, o) == Ok::<SetOutcome, SetError>(
            SetOutcome::Empty,
        ),
{
}

/// The universal set is neutral under intersection: a non-empty set-like
/// operand comes back itself, and an empty one comes back as the empty-set
/// singleton — an equal set value.
pub proof fn lemma_universe_intersection(o: Operand)
    requires
        o.wf(),
        o.set_like,
    ensures
        !is_empty_operand(o) ==> intersection_spec(SymbolicSet::Universe, o) == Ok::<
            SetOutcome,
            SetError,
        >(SetOutcome::Other),
        is_empty_operand(o) ==> intersection_spec(SymbolicSet::Universe, o) == Ok::<
            SetOutcome,
            SetError,
        >(SetOutcome::Empty),
{
}

/// The universal set absorbs under union: for every set-like operand the
/// result is the universal set.
pub proof fn lemma_universe_union(o: Operand)
    requires
        o.set_like,
    ensures
        union_spec(SymbolicSet::Universe, o) == Ok::<SetOutcome, SetError>(SetOutcome::Universe),
{
}

/// Difference between the singletons themselves, each handed to the other as
/// an operand: subtracting the empty set from the universal set leaves the
/// universal set, and subtracting the universal set from either singleton
/// leaves the empty set.
pub proof fn lemma_singleton_differences(e: Operand, u: Operand)
    requires
        is_empty_singleton_operand(e),
        is_universe_singleton_operand(u),
    ensures
        difference_spec(SymbolicSet::Universe, e) == Ok::<SetOutcome, SetError>(
            SetOutcome::Universe,
        ),
        difference_spec(SymbolicSet::Empty, u) == Ok::<SetOutcome, SetError>(SetOutcome::Empty),
        difference_spec(SymbolicSet::Universe, u) == Ok::<SetOutcome, SetError>(SetOutcome::Empty),
{
}

/// The reflected differences: subtracting the empty set from any set-like
/// operand gives that operand back (an empty one as the empty-set
/// singleton), and subtracting the universal set from any set-like operand
/// leaves nothing.
pub proof fn lemma_reverse_differences(o: Operand)
    requires
        o.wf(),
        o.set_like,
    ensures
        !is_empty_operand(o) ==> reverse_difference_spec(SymbolicSet::Empty, o) == Ok::<
            SetOutcome,
            SetError,
        >(SetOutcome::Other),
        is_empty_operand(o) ==> reverse_difference_spec(SymbolicSet::Empty, o) == Ok::<
            SetOutcome,
            SetError,
        >(SetOutcome::Empty),
        reverse_difference_spec(SymbolicSet::Universe, o) == Ok::<SetOutcome, SetError>(
            SetOutcome::Empty,
        ),
{
}

/// The operator coincidences: on the empty set, symmetric difference and
/// reverse difference behave exactly as union, and difference exactly as
/// intersection; on the universal set, difference dispatches exactly as
/// symmetric difference — for every operand, errors included.
pub proof fn lemma_operator_coincidences(o: Operand)
    ensures
        symmetric_difference_spec(SymbolicSet::Empty, o) == union_spec(SymbolicSet::Empty, o),
        reverse_difference_spec(SymbolicSet::Empty, o) == union_spec(SymbolicSet::Empty, o),
        difference_spec(SymbolicSet::Empty, o) == intersection_spec(SymbolicSet::Empty, o),
        difference_spec(SymbolicSet::Universe, o) == symmetric_difference_spec(
            SymbolicSet::Universe,
            o,
        ),
{
}

/// Complement swaps the two singletons and is an involution: taking it twice
/// gives back the set one started from.
pub proof fn lemma_complement_involutive(s: SymbolicSet)
    ensures
        complement_spec(complement_spec(s)) == s,
        complement_spec(SymbolicSet::Empty) == SymbolicSet::Universe,
        complement_spec(SymbolicSet::Universe) == SymbolicSet::Empty,
{
}

/// Disjointness: the empty set is disjoint from everything iterable or
/// set-like, and the universal set is disjoint from exactly the empty
/// set-like operands.
pub proof fn lemma_disjointness(o: Operand)
    ensures
        o.iterable || o.set_like ==> isdisjoint_spec(SymbolicSet::Empty, o) == Ok::<
            bool,
            SetError,
        >(true),
        o.set_like ==> isdisjoint_spec(SymbolicSet::Universe, o) == Ok::<bool, SetError>(
            is_empty_operand(o),
        ),
{
}

} // verus!
