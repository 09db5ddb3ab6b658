//! The empty-set singleton and its finite, restartable, zero-element
//! iterator.

use vstd::prelude::*;

use crate::algebra::CompareOp;
use crate::algebra::SetError;
use crate::algebra::SetOutcome;
use crate::algebra::SymbolicSet;
use crate::algebra::complement_spec;
use crate::algebra::contains_spec;
use crate::algebra::difference_spec;
use crate::algebra::empty_compare_spec;
use crate::algebra::formal_label;
use crate::algebra::informal_label;
use crate::algebra::intersection_spec;
use crate::algebra::isdisjoint_spec;
use crate::algebra::length_spec;
use crate::algebra::operand_error;
use crate::algebra::reverse_difference_spec;
use crate::algebra::symmetric_difference_spec;
use crate::algebra::truthiness_spec;
use crate::algebra::union_spec;
use crate::hashing::HASH_EMPTY;
use crate::hashing::hash_spec;
use crate::operand::Operand;
use crate::universe::UniverseType;

verus! {

/// The empty-set singleton. It is stateless; every value of this type is the
/// same set.
#[derive(Clone, Copy, Debug, PartialEq, Eq, Structural)]
pub struct EmptyType;

/// The result of iterating the empty set: a lazy sequence of zero elements.
/// It carries no state, so iterating it any number of times, in any order,
/// yields nothing every time.
#[derive(Clone, Copy, Debug, PartialEq, Eq, Structural)]
pub struct EmptyIterator;

impl EmptyIterator {
    /// The iterator is its own iterator, as the host iteration protocol asks.
    pub fn __iter__(&self) -> (r: &EmptyIterator)
        ensures
            r == self,
    {
        self
    }

    /// The next element: there is none, of any element type, on any call —
    /// which is what makes the sequence finite, empty, and restartable.
    pub fn __next__<T>(&self) -> (r: Option<T>)
        ensures
            r is None,
    {
        None
    }
}

impl EmptyType {
    /// The variant of the algebra dispatcher this singleton realizes.
    pub open spec fn variant(self) -> SymbolicSet {
        SymbolicSet::Empty
    }

    /// The informal display form of the singleton's name.
    pub fn __str__(&self) -> (r: String)
        ensures
            r@ == informal_label(self.variant()),
    {
        "∅".to_owned()
    }

    /// The formal representation form of the singleton's name.
    pub fn __repr__(&self) -> (r: String)
        ensures
            r@ == formal_label(self.variant()),
    {
        "Empty".to_owned()
    }

    /// The singleton is falsy.
    pub fn __bool__(&self) -> (r: bool)
        ensures
            r == truthiness_spec(self.variant()),
            !r,
    {
        false
    }

    /// The empty set contains no value, whatever is asked about.
    pub fn __contains__(&self, _item: &Operand) -> (r: bool)
        ensures
            r == contains_spec(self.variant()),
            !r,
    {
        false
    }

    /// The empty set's length is zero.
    pub fn __len__(&self) -> (r: usize)
        ensures
            Ok::<usize, SetError>(r) == length_spec(self.variant()),
            r == 0,
    {
        0
    }

    /// Iteration over the empty set: a fresh zero-element iterator.
    pub fn __iter__(&self) -> (r: EmptyIterator)
        ensures
            r == EmptyIterator,
    {
        EmptyIterator
    }

    /// The fixed hash constant, bit-identical to the host's native hash of
    /// an empty immutable set.
    pub fn _hash(&self) -> (r: i64)
        ensures
            r == hash_spec(self.variant()),
            r == HASH_EMPTY,
    {
        HASH_EMPTY
    }

    /// The hash used by the host protocol: the same fixed constant.
    pub fn __hash__(&self) -> (r: i64)
        ensures
            r == hash_spec(self.variant()),
            r == HASH_EMPTY,
    {
        HASH_EMPTY
    }

    /// A rich comparison of the empty set against an arbitrary operand: the
    /// exact outcome of comparing a genuine empty finite set against it, an
    /// operand that cannot be so compared propagating its operand-type error.
    pub fn __richcmp__(&self, other: &Operand, op: CompareOp) -> (r: Result<bool, SetError>)
        ensures
            r == empty_compare_spec(*other, op),
    {
        let other_empty: bool = match other.len {
            Some(n) => n == 0,
            None => false,
        };
        match op {
            CompareOp::Eq => Ok(other.set_like && other_empty),
            CompareOp::Ne => Ok(!(other.set_like && other_empty)),
            CompareOp::Lt => if other.set_like {
                Ok(!other_empty)
            } else {
                Err(operand_error(other))
            },
            CompareOp::Le => if other.set_like {
                Ok(true)
            } else {
                Err(operand_error(other))
            },
            CompareOp::Gt => if other.set_like {
                Ok(false)
            } else {
                Err(operand_error(other))
            },
            CompareOp::Ge => if other.set_like {
                Ok(other_empty)
            } else {
                Err(operand_error(other))
            },
        }
    }

    /// Intersection: the empty set absorbs every set-like operand.
    pub fn __and__(&self, other: &Operand) -> (r: Result<SetOutcome, SetError>)
        ensures
            r == intersection_spec(self.variant(), *other),
    {
        if other.set_like {
            Ok(SetOutcome::Empty)
        } else {
            Err(operand_error(other))
        }
    }

    /// Union: the empty set is neutral, handing back a non-empty set-like
    /// operand and collapsing an empty one to the empty-set singleton.
    pub fn __or__(&self, other: &Operand) -> (r: Result<SetOutcome, SetError>)
        ensures
            r == union_spec(self.variant(), *other),
    {
        if !other.set_like {
            Err(operand_error(other))
        } else if other.truthy {
            Ok(SetOutcome::Other)
        } else {
            Ok(SetOutcome::Empty)
        }
    }

    /// Symmetric difference: for the empty set it coincides with union.
    pub fn __xor__(&self, other: &Operand) -> (r: Result<SetOutcome, SetError>)
        ensures
            r == symmetric_difference_spec(self.variant(), *other),
    {
        self.__or__(other)
    }

    /// Difference: subtracting anything from the empty set leaves it empty,
    /// so it coincides with intersection.
    pub fn __sub__(&self, other: &Operand) -> (r: Result<SetOutcome, SetError>)
        ensures
            r == difference_spec(self.variant(), *other),
    {
        self.__and__(other)
    }

    /// Reverse difference, `other - self`: subtracting the empty set changes
    /// nothing, so it coincides with union.
    pub fn __rsub__(&self, other: &Operand) -> (r: Result<SetOutcome, SetError>)
        ensures
            r == reverse_difference_spec(self.variant(), *other),
    {
        self.__or__(other)
    }

    /// The empty set is disjoint from everything iterable or set-like; a
    /// value that is neither cannot be asked about at all.
    pub fn isdisjoint(&self, other: &Operand) -> (r: Result<bool, SetError>)
        ensures
            r == isdisjoint_spec(self.variant(), *other),
    {
        if other.iterable || other.set_like {
            Ok(true)
        } else {
            Err(operand_error(other))
        }
    }

    /// The complement of the empty set is the universal set.
    pub fn complement(&self) -> (r: UniverseType)
        ensures
            r.variant() == complement_spec(self.variant()),
    {
        UniverseType
    }
}

} // verus!
