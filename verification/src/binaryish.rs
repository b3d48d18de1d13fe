use vstd::prelude::*;

use crate::ast::{Expression, PrivateIdentifier};
use crate::operator::{BinaryOperator, LogicalOperator};
use crate::precedence::{GetPrecedence, Precedence};

verus! {

/// The operator of a binary-like expression node: either a binary operator
/// or a logical operator, unified into one comparable value.
///
/// The tag always matches the family of the wrapped identity, because a
/// value is only ever built by wrapping a `BinaryOperator` or a
/// `LogicalOperator` in the variant of its own family.
#[derive(Debug, Clone, Copy, PartialEq, Eq, Structural)]
pub enum BinaryishOperator {
    BinaryOperator(BinaryOperator),
    LogicalOperator(LogicalOperator),
}

impl From<BinaryOperator> for BinaryishOperator {
    fn from(op: BinaryOperator) -> Self {
        BinaryishOperator::BinaryOperator(op)
    }
}

impl vstd::std_specs::convert::FromSpecImpl<BinaryOperator> for BinaryishOperator {
    open spec fn obeys_from_spec() -> bool {
        true
    }

    open spec fn from_spec(op: BinaryOperator) -> Self {
        BinaryishOperator::BinaryOperator(op)
    }
}

impl From<LogicalOperator> for BinaryishOperator {
    fn from(op: LogicalOperator) -> Self {
        BinaryishOperator::LogicalOperator(op)
    }
}

impl vstd::std_specs::convert::FromSpecImpl<LogicalOperator> for BinaryishOperator {
    open spec fn obeys_from_spec() -> bool {
        true
    }

    open spec fn from_spec(op: LogicalOperator) -> Self {
        BinaryishOperator::LogicalOperator(op)
    }
}

impl GetPrecedence for BinaryishOperator {
    open spec fn spec_precedence(&self) -> Precedence {
        match *self {
            BinaryishOperator::BinaryOperator(op) => op.spec_precedence(),
            BinaryishOperator::LogicalOperator(op) => op.spec_precedence(),
        }
    }

    fn precedence(&self) -> (p: Precedence) {
        match self {
            BinaryishOperator::BinaryOperator(op) => op.precedence(),
            BinaryishOperator::LogicalOperator(op) => op.precedence(),
        }
    }
}

impl BinaryishOperator {
    /// Membership in the binary (arithmetic/comparison/bitwise) family, as
    /// opposed to the logical family.
    pub open spec fn spec_is_binary(self) -> bool {
        self is BinaryOperator
    }

    /// Does the wrapped identity belong to the binary family?
    pub fn is_binary(self) -> (r: bool)
        ensures
            r == self.spec_is_binary(),
    {
        match self {
            BinaryishOperator::BinaryOperator(_) => true,
            BinaryishOperator::LogicalOperator(_) => false,
        }
    }

    /// Is this the exponentiation operator?
    pub open spec fn spec_is_exponential(self) -> bool {
        self matches BinaryishOperator::BinaryOperator(op) && op.spec_is_exponential()
    }

    /// Does the wrapped identity belong to the equality family?
    pub open spec fn spec_is_equality(self) -> bool {
        self matches BinaryishOperator::BinaryOperator(op) && op.spec_is_equality()
    }

    /// Does the wrapped identity belong to the multiplicative family?
    pub open spec fn spec_is_multiplicative(self) -> bool {
        self matches BinaryishOperator::BinaryOperator(op) && op.spec_is_multiplicative()
    }

    /// Does the wrapped identity belong to the bitshift family?
    pub open spec fn spec_is_bitshift(self) -> bool {
        self matches BinaryishOperator::BinaryOperator(op) && op.spec_is_bitshift()
    }

    /// The flattening policy. Rules are tried in order; the first match
    /// decides:
    ///
    /// 1. different precedence: never flatten;
    /// 2. exponentiation parent: never flatten;
    /// 3. equality child under equality parent: never flatten;
    /// 4. differing multiplicative operators: never flatten;
    /// 5. bitshift parent: never flatten;
    /// 6. otherwise: flatten.
    pub open spec fn spec_should_flatten(self, parent_op: Self) -> bool {
        if self.spec_precedence() != parent_op.spec_precedence() {
            false
        } else if parent_op.spec_is_exponential() {
            false
        } else if self.spec_is_equality() && parent_op.spec_is_equality() {
            false
        } else if self.spec_is_multiplicative() && parent_op.spec_is_multiplicative()
            && self != parent_op {
            false
        } else if parent_op.spec_is_bitshift() {
            false
        } else {
            true
        }
    }

    /// May a nested binary-like node with operator `self` be printed at the
    /// same visual grouping level as its parent node with operator
    /// `parent_op`, rather than isolated in a group of its own?
    pub fn should_flatten(self, parent_op: Self) -> (r: bool)
        ensures
            r == self.spec_should_flatten(parent_op),
    {
        if self.precedence() != parent_op.precedence() {
            return false;
        }

        if let BinaryishOperator::BinaryOperator(op) = parent_op {
            if op.is_exponential() {
                return false;
            }
        }

        let self_equality = match self {
            BinaryishOperator::BinaryOperator(op) => op.is_equality(),
            BinaryishOperator::LogicalOperator(_) => false,
        };
        let parent_equality = match parent_op {
            BinaryishOperator::BinaryOperator(op) => op.is_equality(),
            BinaryishOperator::LogicalOperator(_) => false,
        };
        if self_equality && parent_equality {
            return false;
        }

        let self_multiplicative = match self {
            BinaryishOperator::BinaryOperator(op) => op.is_multiplicative(),
            BinaryishOperator::LogicalOperator(_) => false,
        };
        let parent_multiplicative = match parent_op {
            BinaryishOperator::BinaryOperator(op) => op.is_multiplicative(),
            BinaryishOperator::LogicalOperator(_) => false,
        };
        if self_multiplicative && parent_multiplicative && self != parent_op {
            return false;
        }

        let parent_bitshift = match parent_op {
            BinaryishOperator::BinaryOperator(op) => op.is_bitshift(),
            BinaryishOperator::LogicalOperator(_) => false,
        };
        if parent_bitshift {
            return false;
        }

        true
    }

    /// The source-syntax spelling of the wrapped operator.
    pub open spec fn spec_as_str(self) -> Seq<char> {
        match self {
            BinaryishOperator::BinaryOperator(op) => op.spec_as_str(),
            BinaryishOperator::LogicalOperator(op) => op.spec_as_str(),
        }
    }

    /// The literal source-syntax spelling of the wrapped operator,
    /// whichever family it belongs to.
    pub fn as_str(self) -> (s: &'static str)
        ensures
            s@ == self.spec_as_str(),
    {
        match self {
            BinaryishOperator::BinaryOperator(op) => op.as_str(),
            BinaryishOperator::LogicalOperator(op) => op.as_str(),
        }
    }
}

/// The left operand of a binary-like node: either an arbitrary expression
/// or a private-field identifier, borrowed from the surrounding expression
/// tree for the duration of one formatting pass.
#[derive(Clone, Copy)]
pub enum BinaryishLeft<'a> {
    Expression(&'a Expression),
    PrivateIdentifier(&'a PrivateIdentifier),
}

impl<'a> From<&'a Expression> for BinaryishLeft<'a> {
    fn from(e: &'a Expression) -> Self {
        BinaryishLeft::Expression(e)
    }
}

impl<'a> vstd::std_specs::convert::FromSpecImpl<&'a Expression> for BinaryishLeft<'a> {
    open spec fn obeys_from_spec() -> bool {
        true
    }

    open spec fn from_spec(e: &'a Expression) -> Self {
        BinaryishLeft::Expression(e)
    }
}

impl<'a> From<&'a PrivateIdentifier> for BinaryishLeft<'a> {
    fn from(e: &'a PrivateIdentifier) -> Self {
        BinaryishLeft::PrivateIdentifier(e)
    }
}

impl<'a> vstd::std_specs::convert::FromSpecImpl<&'a PrivateIdentifier> for BinaryishLeft<'a> {
    open spec fn obeys_from_spec() -> bool {
        true
    }

    open spec fn from_spec(e: &'a PrivateIdentifier) -> Self {
        BinaryishLeft::PrivateIdentifier(e)
    }
}

impl<'a> BinaryishLeft<'a> {
    /// The operator of the wrapped node, when the wrapped node is itself a
    /// binary or logical expression; `None` for every other expression
    /// shape and for a private-field identifier.
    pub open spec fn spec_operator(self) -> Option<BinaryishOperator> {
        match self {
            BinaryishLeft::Expression(e) => match *e {
                Expression::Binary { operator } => Some(
                    BinaryishOperator::BinaryOperator(operator),
                ),
                Expression::Logical { operator } => Some(
                    BinaryishOperator::LogicalOperator(operator),
                ),
                Expression::Other => None,
            },
            BinaryishLeft::PrivateIdentifier(_) => None,
        }
    }

    /// The operator of the wrapped node, if it is a binary-like node.
    pub fn operator(&self) -> (r: Option<BinaryishOperator>)
        ensures
            r == self.spec_operator(),
    {
        match *self {
            BinaryishLeft::Expression(e) => match *e {
                Expression::Binary { operator } => Some(
                    BinaryishOperator::BinaryOperator(operator),
                ),
                Expression::Logical { operator } => Some(
                    BinaryishOperator::LogicalOperator(operator),
                ),
                Expression::Other => None,
            },
            BinaryishLeft::PrivateIdentifier(_) => None,
        }
    }
}

/// Operators at different precedence levels never flatten.
pub proof fn lemma_unequal_precedence_never_flattens(
    child: BinaryishOperator,
    parent: BinaryishOperator,
)
    requires
        child.spec_precedence() != parent.spec_precedence(),
    ensures
        !child.spec_should_flatten(parent),
{
}

/// No child ever flattens under an exponentiation parent.
pub proof fn lemma_exponential_parent_never_flattens(
    child: BinaryishOperator,
    parent: BinaryishOperator,
)
    requires
        parent.spec_is_exponential(),
    ensures
        !child.spec_should_flatten(parent),
{
}

/// An equality-family child never flattens under an equality-family parent,
/// whether the two concrete operators are equal or not.
pub proof fn lemma_equality_pair_never_flattens(
    child: BinaryishOperator,
    parent: BinaryishOperator,
)
    requires
        child.spec_is_equality(),
        parent.spec_is_equality(),
    ensures
        !child.spec_should_flatten(parent),
{
}

/// Two differing multiplicative operators never flatten.
pub proof fn lemma_differing_multiplicative_never_flattens(m1: BinaryOperator, m2: BinaryOperator)
    requires
        m1.spec_is_multiplicative(),
        m2.spec_is_multiplicative(),
        m1 != m2,
    ensures
        !BinaryishOperator::BinaryOperator(m1).spec_should_flatten(
            BinaryishOperator::BinaryOperator(m2),
        ),
{
}

/// A multiplicative operator flattens under itself.
pub proof fn lemma_repeated_multiplicative_flattens(m: BinaryOperator)
    requires
        m.spec_is_multiplicative(),
    ensures
        BinaryishOperator::BinaryOperator(m).spec_should_flatten(
            BinaryishOperator::BinaryOperator(m),
        ),
{
}

/// No child ever flattens under a bitshift parent.
pub proof fn lemma_bitshift_parent_never_flattens(
    child: BinaryishOperator,
    parent: BinaryishOperator,
)
    requires
        parent.spec_is_bitshift(),
    ensures
        !child.spec_should_flatten(parent),
{
}

/// An operator flattens under itself, unless it is the exponentiation
/// operator, an equality-family operator, or a bitshift operator.
pub proof fn lemma_repeated_operator_flattens(op: BinaryishOperator)
    requires
        !op.spec_is_exponential(),
        !op.spec_is_equality(),
        !op.spec_is_bitshift(),
    ensures
        op.spec_should_flatten(op),
{
}

/// Wrapping an operator identity preserves its family: a binary operator
/// yields a binary classifier, a logical operator does not.
pub proof fn lemma_wrapped_family(b: BinaryOperator, l: LogicalOperator)
    ensures
        BinaryishOperator::BinaryOperator(b).spec_is_binary(),
        !BinaryishOperator::LogicalOperator(l).spec_is_binary(),
{
}

/// A left operand exposes an operator exactly when it wraps a binary or
/// logical expression node; every other expression shape, and a
/// private-field identifier, exposes none.
pub proof fn lemma_left_operator_shape(left: BinaryishLeft<'_>)
    ensures
        left.spec_operator() is Some <==> (left matches BinaryishLeft::Expression(e)
            && (*e is Binary || *e is Logical)),
{
}

} // verus!
