//! Operator-precedence decisions for pretty-printing binary and logical
//! expression chains.
//!
//! The crate models the closed set of binary and logical operators of a
//! C-like expression language, their grammar-defined precedence levels, and
//! the policy that decides whether a nested binary-like expression may be
//! printed at the same visual grouping level as its parent (`should_flatten`).

pub mod ast;
pub mod binaryish;
pub mod operator;
pub mod precedence;

pub use ast::{Expression, PrivateIdentifier};
pub use binaryish::{BinaryishLeft, BinaryishOperator};
pub use operator::{BinaryOperator, LogicalOperator};
pub use precedence::{GetPrecedence, Precedence};
