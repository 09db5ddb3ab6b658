//! The universal-set singleton.

use vstd::prelude::*;

use crate::algebra::CompareOp;
use crate::algebra::SetError;
use crate::algebra::SetOutcome;
use crate::algebra::SymbolicSet;
use crate::algebra::complement_spec;
use crate::algebra::contains_spec;
use crate::algebra::difference_spec;
use crate::algebra::formal_label;
use crate::algebra::informal_label;
use crate::algebra::intersection_spec;
use crate::algebra::isdisjoint_spec;
use crate::algebra::length_spec;
use crate::algebra::operand_error;
use crate::algebra::reverse_difference_spec;
use crate::algebra::symmetric_difference_spec;
use crate::algebra::truthiness_spec;
use crate::algebra::union_spec;
use crate::algebra::universe_compare_spec;
use crate::empty::EmptyIterator;
use crate::empty::EmptyType;
use crate::hashing::HASH_UNIVERSE;
use crate::hashing::hash_spec;
use crate::operand::Operand;

verus! {

/// The universal-set singleton. It is stateless; every value of this type is
/// the same set.
#[derive(Clone, Copy, Debug, PartialEq, Eq, Structural)]
pub struct UniverseType;

impl UniverseType {
    /// The variant of the algebra dispatcher this singleton realizes.
    pub open spec fn variant(self) -> SymbolicSet {
        SymbolicSet::Universe
    }

    /// The informal display form of the singleton's name.
    pub fn __str__(&self) -> (r: String)
        ensures
            r@ == informal_label(self.variant()),
    {
        "U".to_owned()
    }

    /// The formal representation form of the singleton's name.
    pub fn __repr__(&self) -> (r: String)
        ensures
            r@ == formal_label(self.variant()),
    {
        "Universe".to_owned()
    }

    /// The singleton is truthy.
    pub fn __bool__(&self) -> (r: bool)
        ensures
            r == truthiness_spec(self.variant()),
            r,
    {
        true
    }

    /// The universal set contains every value, whatever is asked about.
    pub fn __contains__(&self, _item: &Operand) -> (r: bool)
        ensures
            r == contains_spec(self.variant()),
            r,
    {
        true
    }

    /// The universal set's size is not representable as a finite quantity: a
    /// length request always fails with the unbounded-cardinality error,
    /// never an approximation.
    pub fn __len__(&self) -> (r: Result<usize, SetError>)
        ensures
            r == length_spec(self.variant()),
            r == Err::<usize, SetError>(SetError::UnboundedCardinality),
    {
        Err(SetError::UnboundedCardinality)
    }

    /// Enumerating an unbounded domain is undefined: an iteration request
    /// always fails with the same unbounded-cardinality error. The success
    /// type only names what an iterator would be; no value of it is ever
    /// produced here.
    pub fn __iter__(&self) -> (r: Result<EmptyIterator, SetError>)
        ensures
            r == Err::<EmptyIterator, SetError>(SetError::UnboundedCardinality),
    {
        Err(SetError::UnboundedCardinality)
    }

    /// The fixed hash constant: the bitwise complement of the empty set's.
    pub fn _hash(&self) -> (r: i64)
        ensures
            r == hash_spec(self.variant()),
            r == HASH_UNIVERSE,
    {
        HASH_UNIVERSE
    }

    /// The hash used by the host protocol: the same fixed constant.
    pub fn __hash__(&self) -> (r: i64)
        ensures
            r == hash_spec(self.variant()),
            r == HASH_UNIVERSE,
    {
        HASH_UNIVERSE
    }

    /// A rich comparison of the universal set against an arbitrary operand.
    /// Equality is identity — it holds of exactly the universal-set
    /// singleton itself; in the subset order nothing strictly contains the
    /// universal set and the universal set contains everything; a
    /// non-set-like operand is an operand-type error on the four order
    /// comparisons.
    pub fn __richcmp__(&self, other: &Operand, op: CompareOp) -> (r: Result<bool, SetError>)
        ensures
            r == universe_compare_spec(*other, op),
    {
        let eq: bool = other.universe;
        match op {
            CompareOp::Eq => Ok(eq),
            CompareOp::Ne => Ok(!eq),
            CompareOp::Le => if other.set_like {
                Ok(eq)
            } else {
                Err(operand_error(other))
            },
            CompareOp::Gt => if other.set_like {
                Ok(!eq)
            } else {
                Err(operand_error(other))
            },
            CompareOp::Lt => if other.set_like {
                Ok(false)
            } else {
                Err(operand_error(other))
            },
            CompareOp::Ge => if other.set_like {
                Ok(true)
            } else {
                Err(operand_error(other))
            },
        }
    }

    /// Intersection: the universal set is neutral, handing back a non-empty
    /// set-like operand and collapsing an empty one to the empty-set
    /// singleton.
    pub fn __and__(&self, other: &Operand) -> (r: Result<SetOutcome, SetError>)
        ensures
            r == intersection_spec(self.variant(), *other),
    {
        if !other.set_like {
            Err(operand_error(other))
        } else if other.truthy {
            Ok(SetOutcome::Other)
        } else {
            Ok(SetOutcome::Empty)
        }
    }

    /// Union: the universal set absorbs every set-like operand.
    pub fn __or__(&self, other: &Operand) -> (r: Result<SetOutcome, SetError>)
        ensures
            r == union_spec(self.variant(), *other),
    {
        if other.set_like {
            Ok(SetOutcome::Universe)
        } else {
            Err(operand_error(other))
        }
    }

    /// Symmetric difference. An operand of undeterminable length is treated
    /// as the universal set itself, yielding the empty set; an empty operand
    /// yields the universal set; a finite non-empty operand is the
    /// deliberately unimplemented case and fails loudly with its own error,
    /// never a guessed value.
    pub fn __xor__(&self, other: &Operand) -> (r: Result<SetOutcome, SetError>)
        ensures
            r == symmetric_difference_spec(self.variant(), *other),
    {
        if !other.set_like {
            return Err(operand_error(other));
        }
        match other.len {
            None => Ok(SetOutcome::Empty),
            Some(n) => if n == 0 {
                Ok(SetOutcome::Universe)
            } else {
                Err(SetError::UnimplementedCase)
            },
        }
    }

    /// Difference: for the universal set it dispatches exactly as symmetric
    /// difference does, unimplemented case included.
    pub fn __sub__(&self, other: &Operand) -> (r: Result<SetOutcome, SetError>)
        ensures
            r == difference_spec(self.variant(), *other),
    {
        self.__xor__(other)
    }

    /// Reverse difference, `other - self`: subtracting everything leaves
    /// nothing, so any set-like operand yields the empty set.
    pub fn __rsub__(&self, other: &Operand) -> (r: Result<SetOutcome, SetError>)
        ensures
            r == reverse_difference_spec(self.variant(), *other),
    {
        if other.set_like {
            Ok(SetOutcome::Empty)
        } else {
            Err(operand_error(other))
        }
    }

    /// The universal set is disjoint from exactly the empty set-like
    /// operands; one whose length cannot be determined counts as non-empty.
    pub fn isdisjoint(&self, other: &Operand) -> (r: Result<bool, SetError>)
        ensures
            r == isdisjoint_spec(self.variant(), *other),
    {
        if !other.set_like {
            return Err(operand_error(other));
        }
        match other.len {
            Some(n) => Ok(n == 0),
            None => Ok(false),
        }
    }

    /// The complement of the universal set is the empty set.
    pub fn complement(&self) -> (r: EmptyType)
        ensures
            r.variant() == complement_spec(self.variant()),
    {
        EmptyType
    }
}

} // verus!
