//! The algebra dispatcher: the mathematical meaning of every comparison and
//! operator, shared by both singletons.
//!
//! Each operation is a spec function from the symbolic variant and the
//! operand's facts to the exact outcome. The executable protocol methods on
//! [`crate::empty::EmptyType`] and [`crate::universe::UniverseType`] are each
//! proved equal to the dispatcher at their own variant, and the algebraic laws
//! in [`crate::laws`] are proved of the dispatcher itself.

use vstd::prelude::*;

use crate::operand::Operand;
use crate::operand::is_empty_operand;

verus! {

/// The closed two-variant type behind both singletons. Behaviour varies only
/// by which variant is matched.
#[derive(Clone, Copy, Debug, PartialEq, Eq, Structural)]
pub enum SymbolicSet {
    Empty,
    Universe,
}

/// What a binary operator hands back: one of the two singletons, or the
/// right-hand operand itself, untouched.
#[derive(Clone, Copy, Debug, PartialEq, Eq, Structural)]
pub enum SetOutcome {
    /// The empty-set singleton.
    Empty,
    /// The universal-set singleton.
    Universe,
    /// The right-hand operand, returned as it was given.
    Other,
}

/// The six rich comparisons.
#[derive(Clone, Copy, Debug, PartialEq, Eq, Structural)]
pub enum CompareOp {
    Lt,
    Le,
    Eq,
    Ne,
    Gt,
    Ge,
}

/// The three failures an operation can report. None is ever caught or
/// defaulted inside the library; each is handed to the caller at once.
#[derive(Clone, Debug, PartialEq, Eq)]
pub enum SetError {
    /// A binary operator, comparison, or `isdisjoint` call received a
    /// right-hand value that fails the required capability; the payload is
    /// the offending operand's concrete runtime type name.
    OperandType(String),
    /// Length or iteration was requested of the universal set, whose
    /// cardinality is not representable as a finite quantity.
    UnboundedCardinality,
    /// Symmetric difference or difference of the universal set against a
    /// finite non-empty set: a case deliberately left open, which must fail
    /// loudly rather than return a guessed value.
    UnimplementedCase,
}

/// The operand-type error for `o`, carrying its runtime type name.
pub open spec fn operand_type_error(o: Operand) -> SetError {
    SetError::OperandType(o.runtime_type)
}

/// Builds the operand-type error for `o`: exactly [`operand_type_error`].
pub fn operand_error(o: &Operand) -> (e: SetError)
    ensures
        e == operand_type_error(*o),
{
    SetError::OperandType(o.runtime_type.clone())
}

/// The informal, display form of each singleton's name.
pub open spec fn informal_label(s: SymbolicSet) -> Seq<char> {
    match s {
        SymbolicSet::Empty => "∅"@,
        SymbolicSet::Universe => "U"@,
    }
}

/// The formal, representation form of each singleton's name.
pub open spec fn formal_label(s: SymbolicSet) -> Seq<char> {
    match s {
        SymbolicSet::Empty => "Empty"@,
        SymbolicSet::Universe => "Universe"@,
    }
}

/// Whether the singleton is truthy: the empty set is falsy, the universal
/// set truthy.
pub open spec fn truthiness_spec(s: SymbolicSet) -> bool {
    match s {
        SymbolicSet::Empty => false,
        SymbolicSet::Universe => true,
    }
}

/// Whether the singleton contains a value: never for the empty set, always
/// for the universal set — independent of the value asked about.
pub open spec fn contains_spec(s: SymbolicSet) -> bool {
    match s {
        SymbolicSet::Empty => false,
        SymbolicSet::Universe => true,
    }
}

/// The singleton's length: zero for the empty set; for the universal set an
/// unbounded-cardinality failure, never an approximation.
pub open spec fn length_spec(s: SymbolicSet) -> Result<usize, SetError> {
    match s {
        SymbolicSet::Empty => Ok(0usize),
        SymbolicSet::Universe => Err(SetError::UnboundedCardinality),
    }
}

/// The complement of each singleton: the operation is an involution.
pub open spec fn complement_spec(s: SymbolicSet) -> SymbolicSet {
    match s {
        SymbolicSet::Empty => SymbolicSet::Universe,
        SymbolicSet::Universe => SymbolicSet::Empty,
    }
}

/// Intersection. The empty set absorbs every set-like operand; the universal
/// set is neutral, handing back the operand (an empty operand collapses to
/// the empty-set singleton, an equal set value).
pub open spec fn intersection_spec(s: SymbolicSet, o: Operand) -> Result<SetOutcome, SetError> {
    if !o.set_like {
        Err(operand_type_error(o))
    } else {
        match s {
            SymbolicSet::Empty => Ok(SetOutcome::Empty),
            SymbolicSet::Universe => if o.truthy {
                Ok(SetOutcome::Other)
            } else {
                Ok(SetOutcome::Empty)
            },
        }
    }
}

/// Union. The empty set is neutral, handing back a non-empty operand and
/// collapsing an empty one to the empty-set singleton; the universal set
/// absorbs every set-like operand.
pub open spec fn union_spec(s: SymbolicSet, o: Operand) -> Result<SetOutcome, SetError> {
    if !o.set_like {
        Err(operand_type_error(o))
    } else {
        match s {
            SymbolicSet::Empty => if o.truthy {
                Ok(SetOutcome::Other)
            } else {
                Ok(SetOutcome::Empty)
            },
            SymbolicSet::Universe => Ok(SetOutcome::Universe),
        }
    }
}

/// Symmetric difference. For the empty set it coincides with union. For the
/// universal set: an operand of undeterminable length is treated as the
/// universal set itself (yielding the empty set); an empty operand yields the
/// universal set; a finite non-empty operand is the deliberately unimplemented
/// case and fails loudly.
pub open spec fn symmetric_difference_spec(s: SymbolicSet, o: Operand) -> Result<
    SetOutcome,
    SetError,
> {
    match s {
        SymbolicSet::Empty => union_spec(s, o),
        SymbolicSet::Universe => if !o.set_like {
            Err(operand_type_error(o))
        } else {
            match o.len {
                None => Ok(SetOutcome::Empty),
                Some(n) => if n == 0 {
                    Ok(SetOutcome::Universe)
                } else {
                    Err(SetError::UnimplementedCase)
                },
            }
        },
    }
}

/// Difference. Subtracting anything from the empty set leaves it empty, so
/// for the empty set it coincides with intersection; for the universal set it
/// dispatches exactly as symmetric difference does, unimplemented case
/// included.
pub open spec fn difference_spec(s: SymbolicSet, o: Operand) -> Result<SetOutcome, SetError> {
    match s {
        SymbolicSet::Empty => intersection_spec(s, o),
        SymbolicSet::Universe => symmetric_difference_spec(s, o),
    }
}

/// Reverse difference, the reflected operand order: `o - s`. Subtracting the
/// empty set changes nothing, so that side coincides with union; subtracting
/// the universal set leaves nothing.
pub open spec fn reverse_difference_spec(s: SymbolicSet, o: Operand) -> Result<
    SetOutcome,
    SetError,
> {
    match s {
        SymbolicSet::Empty => union_spec(s, o),
        SymbolicSet::Universe => if o.set_like {
            Ok(SetOutcome::Empty)
        } else {
            Err(operand_type_error(o))
        },
    }
}

/// The rich comparisons of the empty set: exactly the outcomes of comparing a
/// genuine empty finite set against the operand. Equality holds of precisely
/// the empty set-like operands; the subset order makes the empty set below
/// everything; a non-set-like operand gives `false`/`true` for equality and
/// inequality and an operand-type error for the four order comparisons.
pub open spec fn empty_compare_spec(o: Operand, op: CompareOp) -> Result<bool, SetError> {
    match op {
        CompareOp::Eq => Ok(o.set_like && is_empty_operand(o)),
        CompareOp::Ne => Ok(!(o.set_like && is_empty_operand(o))),
        CompareOp::Lt => if o.set_like {
            Ok(!is_empty_operand(o))
        } else {
            Err(operand_type_error(o))
        },
        CompareOp::Le => if o.set_like {
            Ok(true)
        } else {
            Err(operand_type_error(o))
        },
        CompareOp::Gt => if o.set_like {
            Ok(false)
        } else {
            Err(operand_type_error(o))
        },
        CompareOp::Ge => if o.set_like {
            Ok(is_empty_operand(o))
        } else {
            Err(operand_type_error(o))
        },
    }
}

/// The rich comparisons of the universal set. Equality is identity: it holds
/// of exactly the universal-set singleton itself, never of a value. For a
/// set-like operand, nothing strictly contains the universal set and the
/// universal set contains everything; a non-set-like operand is an
/// operand-type error on the four order comparisons.
pub open spec fn universe_compare_spec(o: Operand, op: CompareOp) -> Result<bool, SetError> {
    match op {
        CompareOp::Eq => Ok(o.universe),
        CompareOp::Ne => Ok(!o.universe),
        CompareOp::Le => if o.set_like {
            Ok(o.universe)
        } else {
            Err(operand_type_error(o))
        },
        CompareOp::Gt => if o.set_like {
            Ok(!o.universe)
        } else {
            Err(operand_type_error(o))
        },
        CompareOp::Lt => if o.set_like {
            Ok(false)
        } else {
            Err(operand_type_error(o))
        },
        CompareOp::Ge => if o.set_like {
            Ok(true)
        } else {
            Err(operand_type_error(o))
        },
    }
}

/// The rich comparisons of either singleton.
pub open spec fn compare_spec(s: SymbolicSet, o: Operand, op: CompareOp) -> Result<bool, SetError> {
    match s {
        SymbolicSet::Empty => empty_compare_spec(o, op),
        SymbolicSet::Universe => universe_compare_spec(o, op),
    }
}

/// Disjointness. The empty set is disjoint from everything iterable or
/// set-like; the universal set is disjoint from exactly the empty set-like
/// operands, an operand of undeterminable length counting as non-empty.
pub open spec fn isdisjoint_spec(s: SymbolicSet, o: Operand) -> Result<bool, SetError> {
    match s {
        SymbolicSet::Empty => if o.iterable || o.set_like {
            Ok(true)
        } else {
            Err(operand_type_error(o))
        },
        SymbolicSet::Universe => if o.set_like {
            Ok(is_empty_operand(o))
        } else {
            Err(operand_type_error(o))
        },
    }
}

} // verus!
