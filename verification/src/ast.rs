use vstd::prelude::*;

use crate::operator::{BinaryOperator, LogicalOperator};

verus! {

/// The slice of an expression node that this crate reads: whether the node
/// is a binary expression, a logical expression, or anything else, and, for
/// the two binary-like shapes, the operator identity it carries.
///
/// Every other expression shape of the language (literals, calls, member
/// accesses, ...) is `Other`: the flattening policy never looks inside an
/// operand, only at operator identities.
#[allow(inconsistent_fields)]
#[derive(Debug, Clone, Copy, PartialEq, Eq, Structural)]
pub enum Expression {
    /// A binary expression node, exposing its operator.
    Binary { operator: BinaryOperator },
    /// A logical expression node, exposing its operator.
    Logical { operator: LogicalOperator },
    /// Any expression shape that carries no binary-like operator.
    Other,
}

/// A class-private field name, legal as the left operand of a relational
/// membership test. It never carries a binary or logical operator of its
/// own, so this crate reads nothing of it.
#[derive(Debug, Clone, Copy)]
pub struct PrivateIdentifier {}

} // verus!
