use symbolic_sets::algebra::CompareOp;
use symbolic_sets::algebra::SetError;
use symbolic_sets::algebra::SetOutcome;
use symbolic_sets::empty::EmptyType;
use symbolic_sets::hashing::HASH_EMPTY;
use symbolic_sets::hashing::HASH_UNIVERSE;
use symbolic_sets::operand::Operand;
use symbolic_sets::universe::UniverseType;

/// A genuine finite set of `n` elements, as the host would describe it.
fn set_of_len(n: usize) -> Operand {
    Operand {
        runtime_type: "set".to_string(),
        set_like: true,
        iterable: true,
        truthy: n > 0,
        len: Some(n),
        universe: false,
    }
}

/// A set whose length request overflows: an unbounded set that is not the
/// universal-set singleton.
fn unbounded_set() -> Operand {
    Operand {
        runtime_type: "BigSet".to_string(),
        set_like: true,
        iterable: true,
        truthy: true,
        len: None,
        universe: false,
    }
}

/// The universal-set singleton handed back in as an operand.
fn universe_operand() -> Operand {
    Operand {
        runtime_type: "UniverseType".to_string(),
        set_like: true,
        iterable: true,
        truthy: true,
        len: None,
        universe: true,
    }
}

/// An integer: truthy, but neither iterable nor set-like.
fn int_operand() -> Operand {
    Operand {
        runtime_type: "int".to_string(),
        set_like: false,
        iterable: false,
        truthy: true,
        len: None,
        universe: false,
    }
}

/// A list: iterable but not set-like.
fn list_operand(n: usize) -> Operand {
    Operand {
        runtime_type: "list".to_string(),
        set_like: false,
        iterable: true,
        truthy: n > 0,
        len: Some(n),
        universe: false,
    }
}

#[test]
fn empty_contains_nothing() {
    assert!(!EmptyType.__contains__(&int_operand()));
    assert!(!EmptyType.__contains__(&set_of_len(0)));
    assert!(!EmptyType.__contains__(&universe_operand()));
}

#[test]
fn universe_contains_everything() {
    assert!(UniverseType.__contains__(&int_operand()));
    assert!(UniverseType.__contains__(&set_of_len(0)));
    assert!(UniverseType.__contains__(&universe_operand()));
}

#[test]
fn empty_equals_native_empty_set() {
    let native_empty = set_of_len(0);
    assert_eq!(EmptyType.__richcmp__(&native_empty, CompareOp::Eq), Ok(true));
    assert_eq!(EmptyType.__richcmp__(&native_empty, CompareOp::Ne), Ok(false));
    assert_eq!(EmptyType.__richcmp__(&native_empty, CompareOp::Le), Ok(true));
    assert_eq!(EmptyType.__richcmp__(&native_empty, CompareOp::Ge), Ok(true));
    assert_eq!(EmptyType.__richcmp__(&native_empty, CompareOp::Lt), Ok(false));
    assert_eq!(EmptyType.__richcmp__(&native_empty, CompareOp::Gt), Ok(false));
}

#[test]
fn empty_compared_with_nonempty_set() {
    let s = set_of_len(2);
    assert_eq!(EmptyType.__richcmp__(&s, CompareOp::Eq), Ok(false));
    assert_eq!(EmptyType.__richcmp__(&s, CompareOp::Ne), Ok(true));
    assert_eq!(EmptyType.__richcmp__(&s, CompareOp::Le), Ok(true));
    assert_eq!(EmptyType.__richcmp__(&s, CompareOp::Lt), Ok(true));
    assert_eq!(EmptyType.__richcmp__(&s, CompareOp::Ge), Ok(false));
    assert_eq!(EmptyType.__richcmp__(&s, CompareOp::Gt), Ok(false));
}

#[test]
fn empty_compared_with_non_set() {
    let five = int_operand();
    assert_eq!(EmptyType.__richcmp__(&five, CompareOp::Eq), Ok(false));
    assert_eq!(EmptyType.__richcmp__(&five, CompareOp::Ne), Ok(true));
    assert_eq!(
        EmptyType.__richcmp__(&five, CompareOp::Lt),
        Err(SetError::OperandType("int".to_string()))
    );
    assert_eq!(
        EmptyType.__richcmp__(&five, CompareOp::Ge),
        Err(SetError::OperandType("int".to_string()))
    );
}

#[test]
fn universe_comparisons_are_identity() {
    let u = universe_operand();
    let s = set_of_len(3);
    assert_eq!(UniverseType.__richcmp__(&u, CompareOp::Eq), Ok(true));
    assert_eq!(UniverseType.__richcmp__(&u, CompareOp::Ne), Ok(false));
    assert_eq!(UniverseType.__richcmp__(&s, CompareOp::Eq), Ok(false));
    assert_eq!(UniverseType.__richcmp__(&s, CompareOp::Ne), Ok(true));
    assert_eq!(UniverseType.__richcmp__(&u, CompareOp::Le), Ok(true));
    assert_eq!(UniverseType.__richcmp__(&s, CompareOp::Le), Ok(false));
    assert_eq!(UniverseType.__richcmp__(&s, CompareOp::Lt), Ok(false));
    assert_eq!(UniverseType.__richcmp__(&u, CompareOp::Lt), Ok(false));
    assert_eq!(UniverseType.__richcmp__(&s, CompareOp::Ge), Ok(true));
    assert_eq!(UniverseType.__richcmp__(&s, CompareOp::Gt), Ok(true));
    assert_eq!(UniverseType.__richcmp__(&u, CompareOp::Gt), Ok(false));
    assert_eq!(
        UniverseType.__richcmp__(&int_operand(), CompareOp::Le),
        Err(SetError::OperandType("int".to_string()))
    );
}

#[test]
fn hash_constants_exact() {
    assert_eq!(EmptyType.__hash__(), 133146708735736);
    assert_eq!(EmptyType._hash(), HASH_EMPTY);
    assert_eq!(UniverseType.__hash__(), HASH_UNIVERSE);
    assert_eq!(UniverseType._hash(), -133146708735737);
}

#[test]
fn hash_words_are_complementary() {
    assert_eq!((HASH_EMPTY as u64) ^ (HASH_UNIVERSE as u64), u64::MAX);
}

#[test]
fn empty_len_is_zero() {
    assert_eq!(EmptyType.__len__(), 0);
}

#[test]
fn universe_len_is_unbounded() {
    assert_eq!(UniverseType.__len__(), Err(SetError::UnboundedCardinality));
}

#[test]
fn empty_iteration_is_restartable() {
    let it = EmptyType.__iter__();
    assert_eq!(it.__iter__().__next__::<u32>(), None);
    assert_eq!(it.__next__::<u32>(), None);
    let again = EmptyType.__iter__();
    assert_eq!(again.__next__::<u32>(), None);
    assert_eq!(again.__next__::<u32>(), None);
}

#[test]
fn universe_iteration_fails() {
    assert_eq!(UniverseType.__iter__(), Err(SetError::UnboundedCardinality));
}

#[test]
fn truthiness() {
    assert!(!EmptyType.__bool__());
    assert!(UniverseType.__bool__());
}

#[test]
fn display_forms() {
    assert_eq!(EmptyType.__str__(), "∅");
    assert_eq!(EmptyType.__repr__(), "Empty");
    assert_eq!(UniverseType.__str__(), "U");
    assert_eq!(UniverseType.__repr__(), "Universe");
}

#[test]
fn empty_intersection_absorbs() {
    assert_eq!(EmptyType.__and__(&set_of_len(3)), Ok(SetOutcome::Empty));
    assert_eq!(EmptyType.__and__(&set_of_len(0)), Ok(SetOutcome::Empty));
    assert_eq!(EmptyType.__and__(&universe_operand()), Ok(SetOutcome::Empty));
}

#[test]
fn empty_union_is_neutral() {
    assert_eq!(EmptyType.__or__(&set_of_len(3)), Ok(SetOutcome::Other));
    assert_eq!(EmptyType.__or__(&set_of_len(0)), Ok(SetOutcome::Empty));
}

#[test]
fn universe_intersection_is_neutral() {
    assert_eq!(UniverseType.__and__(&set_of_len(3)), Ok(SetOutcome::Other));
    assert_eq!(UniverseType.__and__(&set_of_len(0)), Ok(SetOutcome::Empty));
}

#[test]
fn universe_union_absorbs() {
    assert_eq!(UniverseType.__or__(&set_of_len(3)), Ok(SetOutcome::Universe));
    assert_eq!(UniverseType.__or__(&set_of_len(0)), Ok(SetOutcome::Universe));
    assert_eq!(UniverseType.__or__(&universe_operand()), Ok(SetOutcome::Universe));
}

#[test]
fn singleton_differences() {
    let empty_op = set_of_len(0);
    let universe_op = universe_operand();
    assert_eq!(UniverseType.__sub__(&empty_op), Ok(SetOutcome::Universe));
    assert_eq!(EmptyType.__sub__(&universe_op), Ok(SetOutcome::Empty));
    assert_eq!(UniverseType.__sub__(&universe_op), Ok(SetOutcome::Empty));
}

#[test]
fn reverse_differences() {
    assert_eq!(EmptyType.__rsub__(&set_of_len(3)), Ok(SetOutcome::Other));
    assert_eq!(EmptyType.__rsub__(&set_of_len(0)), Ok(SetOutcome::Empty));
    assert_eq!(UniverseType.__rsub__(&set_of_len(3)), Ok(SetOutcome::Empty));
    assert_eq!(UniverseType.__rsub__(&set_of_len(0)), Ok(SetOutcome::Empty));
    assert_eq!(UniverseType.__rsub__(&unbounded_set()), Ok(SetOutcome::Empty));
}

#[test]
fn non_set_operand_is_a_type_error() {
    let five = int_operand();
    let expected = Err(SetError::OperandType("int".to_string()));
    assert_eq!(EmptyType.__and__(&five), expected);
    assert_eq!(UniverseType.__and__(&five), expected);
    assert_eq!(EmptyType.__or__(&five), expected);
    assert_eq!(UniverseType.__or__(&five), expected);
    assert_eq!(EmptyType.__xor__(&five), expected);
    assert_eq!(UniverseType.__xor__(&five), expected);
    assert_eq!(EmptyType.__sub__(&five), expected);
    assert_eq!(UniverseType.__sub__(&five), expected);
    assert_eq!(EmptyType.__rsub__(&five), expected);
    assert_eq!(UniverseType.__rsub__(&five), expected);
}

#[test]
fn complement_swaps_and_is_involutive() {
    assert_eq!(EmptyType.complement(), UniverseType);
    assert_eq!(UniverseType.complement(), EmptyType);
    assert_eq!(EmptyType.complement().complement(), EmptyType);
    assert_eq!(UniverseType.complement().complement(), UniverseType);
}

#[test]
fn empty_is_disjoint_from_any_iterable() {
    assert_eq!(EmptyType.isdisjoint(&list_operand(4)), Ok(true));
    assert_eq!(EmptyType.isdisjoint(&set_of_len(3)), Ok(true));
    assert_eq!(EmptyType.isdisjoint(&universe_operand()), Ok(true));
    assert_eq!(
        EmptyType.isdisjoint(&int_operand()),
        Err(SetError::OperandType("int".to_string()))
    );
}

#[test]
fn universe_is_disjoint_only_from_empty_sets() {
    assert_eq!(UniverseType.isdisjoint(&set_of_len(0)), Ok(true));
    assert_eq!(UniverseType.isdisjoint(&set_of_len(3)), Ok(false));
    assert_eq!(UniverseType.isdisjoint(&unbounded_set()), Ok(false));
    assert_eq!(
        UniverseType.isdisjoint(&list_operand(0)),
        Err(SetError::OperandType("list".to_string()))
    );
}

#[test]
fn empty_symmetric_difference_yields_operand() {
    assert_eq!(EmptyType.__xor__(&set_of_len(3)), Ok(SetOutcome::Other));
    assert_eq!(EmptyType.__xor__(&set_of_len(0)), Ok(SetOutcome::Empty));
}

#[test]
fn universe_symmetric_difference_unimplemented_case() {
    assert_eq!(
        UniverseType.__xor__(&set_of_len(3)),
        Err(SetError::UnimplementedCase)
    );
    assert_eq!(UniverseType.__xor__(&set_of_len(0)), Ok(SetOutcome::Universe));
    assert_eq!(UniverseType.__xor__(&unbounded_set()), Ok(SetOutcome::Empty));
    assert_eq!(
        UniverseType.__sub__(&set_of_len(1)),
        Err(SetError::UnimplementedCase)
    );
}
