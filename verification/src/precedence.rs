use vstd::prelude::*;

verus! {

/// Grammar-defined precedence level of a binary or logical operator.
///
/// Levels are listed from loosest-binding to tightest-binding. Two operators
/// share a level exactly when the grammar groups them at the same rank; the
/// flattening policy only ever compares levels for equality.
#[derive(Debug, Clone, Copy, PartialEq, Eq, Structural)]
pub enum Precedence {
    Coalesce,
    LogicalOr,
    LogicalAnd,
    BitwiseOr,
    BitwiseXor,
    BitwiseAnd,
    Equality,
    Relational,
    Shift,
    Additive,
    Multiplicative,
    Exponential,
}

/// An operator identity that has a place in the precedence table.
///
/// Every implementor's table is total: each operator has exactly one level.
pub trait GetPrecedence {
    /// The precedence level, as contracts speak of it.
    spec fn spec_precedence(&self) -> Precedence;

    /// Look up the precedence level.
    fn precedence(&self) -> (p: Precedence)
        ensures
            p == self.spec_precedence(),
    ;
}

} // verus!
