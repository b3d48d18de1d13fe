use vstd::prelude::*;

use crate::precedence::{GetPrecedence, Precedence};

verus! {

/// A binary operator token: arithmetic, comparison, bitwise, shift, or
/// relational (including the keyword forms `in` and `instanceof`).
#[derive(Debug, Clone, Copy, PartialEq, Eq, Structural)]
pub enum BinaryOperator {
    Equality,
    Inequality,
    StrictEquality,
    StrictInequality,
    LessThan,
    LessEqualThan,
    GreaterThan,
    GreaterEqualThan,
    ShiftLeft,
    ShiftRight,
    ShiftRightZeroFill,
    Addition,
    Subtraction,
    Multiplication,
    Division,
    Remainder,
    BitwiseOr,
    BitwiseXor,
    BitwiseAnd,
    In,
    Instanceof,
    Exponential,
}

/// A logical operator token: `&&`, `||`, or the nullish-coalescing `??`.
#[derive(Debug, Clone, Copy, PartialEq, Eq, Structural)]
pub enum LogicalOperator {
    Or,
    And,
    Coalesce,
}

impl BinaryOperator {
    /// Membership in the equality family (`==`, `!=`, `===`, `!==`).
    pub open spec fn spec_is_equality(self) -> bool {
        match self {
            BinaryOperator::Equality
            | BinaryOperator::Inequality
            | BinaryOperator::StrictEquality
            | BinaryOperator::StrictInequality => true,
            _ => false,
        }
    }

    /// Does this operator belong to the equality family?
    pub fn is_equality(self) -> (r: bool)
        ensures
            r == self.spec_is_equality(),
    {
        match self {
            BinaryOperator::Equality
            | BinaryOperator::Inequality
            | BinaryOperator::StrictEquality
            | BinaryOperator::StrictInequality => true,
            _ => false,
        }
    }

    /// Membership in the multiplicative family (`*`, `/`, `%`).
    pub open spec fn spec_is_multiplicative(self) -> bool {
        match self {
            BinaryOperator::Multiplication
            | BinaryOperator::Division
            | BinaryOperator::Remainder => true,
            _ => false,
        }
    }

    /// Does this operator belong to the multiplicative family?
    pub fn is_multiplicative(self) -> (r: bool)
        ensures
            r == self.spec_is_multiplicative(),
    {
        match self {
            BinaryOperator::Multiplication
            | BinaryOperator::Division
            | BinaryOperator::Remainder => true,
            _ => false,
        }
    }

    /// Membership in the bitshift family (`<<`, `>>`, `>>>`).
    pub open spec fn spec_is_bitshift(self) -> bool {
        match self {
            BinaryOperator::ShiftLeft
            | BinaryOperator::ShiftRight
            | BinaryOperator::ShiftRightZeroFill => true,
            _ => false,
        }
    }

    /// Does this operator belong to the bitshift family?
    pub fn is_bitshift(self) -> (r: bool)
        ensures
            r == self.spec_is_bitshift(),
    {
        match self {
            BinaryOperator::ShiftLeft
            | BinaryOperator::ShiftRight
            | BinaryOperator::ShiftRightZeroFill => true,
            _ => false,
        }
    }

    /// Is this the exponentiation operator `**`?
    pub open spec fn spec_is_exponential(self) -> bool {
        self == BinaryOperator::Exponential
    }

    /// Is this the exponentiation operator?
    pub fn is_exponential(self) -> (r: bool)
        ensures
            r == self.spec_is_exponential(),
    {
        match self {
            BinaryOperator::Exponential => true,
            _ => false,
        }
    }

    /// The source-syntax spelling of the operator.
    pub open spec fn spec_as_str(self) -> Seq<char> {
        match self {
            BinaryOperator::Equality => "=="@,
            BinaryOperator::Inequality => "!="@,
            BinaryOperator::StrictEquality => "==="@,
            BinaryOperator::StrictInequality => "!=="@,
            BinaryOperator::LessThan => "<"@,
            BinaryOperator::LessEqualThan => "<="@,
            BinaryOperator::GreaterThan => ">"@,
            BinaryOperator::GreaterEqualThan => ">="@,
            BinaryOperator::ShiftLeft => "<<"@,
            BinaryOperator::ShiftRight => ">>"@,
            BinaryOperator::ShiftRightZeroFill => ">>>"@,
            BinaryOperator::Addition => "+"@,
            BinaryOperator::Subtraction => "-"@,
            BinaryOperator::Multiplication => "*"@,
            BinaryOperator::Division => "/"@,
            BinaryOperator::Remainder => "%"@,
            BinaryOperator::BitwiseOr => "|"@,
            BinaryOperator::BitwiseXor => "^"@,
            BinaryOperator::BitwiseAnd => "&"@,
            BinaryOperator::In => "in"@,
            BinaryOperator::Instanceof => "instanceof"@,
            BinaryOperator::Exponential => "**"@,
        }
    }

    /// The literal source-syntax spelling of the operator.
    pub fn as_str(self) -> (s: &'static str)
        ensures
            s@ == self.spec_as_str(),
    {
        match self {
            BinaryOperator::Equality => "==",
            BinaryOperator::Inequality => "!=",
            BinaryOperator::StrictEquality => "===",
            BinaryOperator::StrictInequality => "!==",
            BinaryOperator::LessThan => "<",
            BinaryOperator::LessEqualThan => "<=",
            BinaryOperator::GreaterThan => ">",
            BinaryOperator::GreaterEqualThan => ">=",
            BinaryOperator::ShiftLeft => "<<",
            BinaryOperator::ShiftRight => ">>",
            BinaryOperator::ShiftRightZeroFill => ">>>",
            BinaryOperator::Addition => "+",
            BinaryOperator::Subtraction => "-",
            BinaryOperator::Multiplication => "*",
            BinaryOperator::Division => "/",
            BinaryOperator::Remainder => "%",
            BinaryOperator::BitwiseOr => "|",
            BinaryOperator::BitwiseXor => "^",
            BinaryOperator::BitwiseAnd => "&",
            BinaryOperator::In => "in",
            BinaryOperator::Instanceof => "instanceof",
            BinaryOperator::Exponential => "**",
        }
    }
}

impl LogicalOperator {
    /// The source-syntax spelling of the operator.
    pub open spec fn spec_as_str(self) -> Seq<char> {
        match self {
            LogicalOperator::Or => "||"@,
            LogicalOperator::And => "&&"@,
            LogicalOperator::Coalesce => "??"@,
        }
    }

    /// The literal source-syntax spelling of the operator.
    pub fn as_str(self) -> (s: &'static str)
        ensures
            s@ == self.spec_as_str(),
    {
        match self {
            LogicalOperator::Or => "||",
            LogicalOperator::And => "&&",
            LogicalOperator::Coalesce => "??",
        }
    }
}

impl GetPrecedence for BinaryOperator {
    open spec fn spec_precedence(&self) -> Precedence {
        match *self {
            BinaryOperator::Equality
            | BinaryOperator::Inequality
            | BinaryOperator::StrictEquality
            | BinaryOperator::StrictInequality => Precedence::Equality,
            BinaryOperator::LessThan
            | BinaryOperator::LessEqualThan
            | BinaryOperator::GreaterThan
            | BinaryOperator::GreaterEqualThan
            | BinaryOperator::In
            | BinaryOperator::Instanceof => Precedence::Relational,
            BinaryOperator::ShiftLeft
            | BinaryOperator::ShiftRight
            | BinaryOperator::ShiftRightZeroFill => Precedence::Shift,
            BinaryOperator::Addition | BinaryOperator::Subtraction => Precedence::Additive,
            BinaryOperator::Multiplication
            | BinaryOperator::Division
            | BinaryOperator::Remainder => Precedence::Multiplicative,
            BinaryOperator::BitwiseOr => Precedence::BitwiseOr,
            BinaryOperator::BitwiseXor => Precedence::BitwiseXor,
            BinaryOperator::BitwiseAnd => Precedence::BitwiseAnd,
            BinaryOperator::Exponential => Precedence::Exponential,
        }
    }

    fn precedence(&self) -> (p: Precedence) {
        match *self {
            BinaryOperator::Equality
            | BinaryOperator::Inequality
            | BinaryOperator::StrictEquality
            | BinaryOperator::StrictInequality => Precedence::Equality,
            BinaryOperator::LessThan
            | BinaryOperator::LessEqualThan
            | BinaryOperator::GreaterThan
            | BinaryOperator::GreaterEqualThan
            | BinaryOperator::In
            | BinaryOperator::Instanceof => Precedence::Relational,
            BinaryOperator::ShiftLeft
            | BinaryOperator::ShiftRight
            | BinaryOperator::ShiftRightZeroFill => Precedence::Shift,
            BinaryOperator::Addition | BinaryOperator::Subtraction => Precedence::Additive,
            BinaryOperator::Multiplication
            | BinaryOperator::Division
            | BinaryOperator::Remainder => Precedence::Multiplicative,
            BinaryOperator::BitwiseOr => Precedence::BitwiseOr,
            BinaryOperator::BitwiseXor => Precedence::BitwiseXor,
            BinaryOperator::BitwiseAnd => Precedence::BitwiseAnd,
            BinaryOperator::Exponential => Precedence::Exponential,
        }
    }
}

impl GetPrecedence for LogicalOperator {
    open spec fn spec_precedence(&self) -> Precedence {
        match *self {
            LogicalOperator::Or => Precedence::LogicalOr,
            LogicalOperator::And => Precedence::LogicalAnd,
            LogicalOperator::Coalesce => Precedence::Coalesce,
        }
    }

    fn precedence(&self) -> (p: Precedence) {
        match *self {
            LogicalOperator::Or => Precedence::LogicalOr,
            LogicalOperator::And => Precedence::LogicalAnd,
            LogicalOperator::Coalesce => Precedence::Coalesce,
        }
    }
}

/// The exponentiation operator is the unique operator at the
/// highest-precedence (tightest-binding) level of the table.
pub proof fn lemma_exponential_unique(op: BinaryOperator)
    ensures
        op.spec_precedence() == Precedence::Exponential <==> op.spec_is_exponential(),
{
}

} // verus!
