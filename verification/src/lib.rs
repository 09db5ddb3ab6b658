//! Two canonical, immutable symbolic set values — the empty set and the
//! universal set — exposed through a host set protocol: membership, iteration,
//! length, hashing, the six rich comparisons, the five binary algebra
//! operators, `isdisjoint`, and complement.
//!
//! The library is the decision core: every operation is a pure function of the
//! symbolic set variant and of the facts known about the right-hand operand
//! (see [`operand::Operand`]). Querying those facts from a live host value,
//! and wiring the singletons into a host module, is the embedding layer's job.

pub mod algebra;
pub mod empty;
pub mod hashing;
pub mod laws;
pub mod operand;
pub mod universe;
