use binaryish::{
    BinaryOperator, BinaryishLeft, BinaryishOperator, Expression, GetPrecedence, LogicalOperator,
    Precedence, PrivateIdentifier,
};

#[test]
fn binary_family_is_binary() {
    assert!(BinaryishOperator::from(BinaryOperator::Addition).is_binary());
    assert!(BinaryishOperator::from(BinaryOperator::Instanceof).is_binary());
    assert!(BinaryishOperator::from(BinaryOperator::Exponential).is_binary());
}

#[test]
fn logical_family_is_not_binary() {
    assert!(!BinaryishOperator::from(LogicalOperator::And).is_binary());
    assert!(!BinaryishOperator::from(LogicalOperator::Or).is_binary());
    assert!(!BinaryishOperator::from(LogicalOperator::Coalesce).is_binary());
}

#[test]
fn conversion_wraps_identity() {
    assert_eq!(
        BinaryishOperator::from(BinaryOperator::Addition),
        BinaryishOperator::BinaryOperator(BinaryOperator::Addition)
    );
    assert_eq!(
        BinaryishOperator::from(LogicalOperator::Coalesce),
        BinaryishOperator::LogicalOperator(LogicalOperator::Coalesce)
    );
}

#[test]
fn classifier_equality_follows_wrapped_identity() {
    let a = BinaryishOperator::from(BinaryOperator::Addition);
    let b = BinaryishOperator::from(BinaryOperator::Addition);
    let c = BinaryishOperator::from(BinaryOperator::Subtraction);
    assert_eq!(a, b);
    assert_ne!(a, c);
}

#[test]
fn precedence_levels_group_families() {
    assert_eq!(
        BinaryOperator::Addition.precedence(),
        BinaryOperator::Subtraction.precedence()
    );
    assert_eq!(
        BinaryOperator::LessThan.precedence(),
        BinaryOperator::Instanceof.precedence()
    );
    assert_eq!(
        BinaryOperator::Equality.precedence(),
        BinaryOperator::StrictInequality.precedence()
    );
    assert_ne!(
        BinaryOperator::Multiplication.precedence(),
        BinaryOperator::Addition.precedence()
    );
    assert_ne!(
        LogicalOperator::And.precedence(),
        LogicalOperator::Or.precedence()
    );
    assert_ne!(
        LogicalOperator::Or.precedence(),
        LogicalOperator::Coalesce.precedence()
    );
    assert_eq!(BinaryOperator::Exponential.precedence(), Precedence::Exponential);
}

#[test]
fn unified_precedence_matches_family_precedence() {
    assert_eq!(
        BinaryishOperator::from(BinaryOperator::BitwiseOr).precedence(),
        BinaryOperator::BitwiseOr.precedence()
    );
    assert_eq!(
        BinaryishOperator::from(LogicalOperator::And).precedence(),
        LogicalOperator::And.precedence()
    );
}

#[test]
fn classifiers_pick_their_family() {
    assert!(BinaryOperator::StrictInequality.is_equality());
    assert!(!BinaryOperator::LessThan.is_equality());
    assert!(BinaryOperator::Remainder.is_multiplicative());
    assert!(!BinaryOperator::Addition.is_multiplicative());
    assert!(BinaryOperator::ShiftRightZeroFill.is_bitshift());
    assert!(!BinaryOperator::BitwiseAnd.is_bitshift());
    assert!(BinaryOperator::Exponential.is_exponential());
    assert!(!BinaryOperator::Multiplication.is_exponential());
}

#[test]
fn binary_operator_spellings() {
    assert_eq!(BinaryOperator::Equality.as_str(), "==");
    assert_eq!(BinaryOperator::StrictInequality.as_str(), "!==");
    assert_eq!(BinaryOperator::ShiftRightZeroFill.as_str(), ">>>");
    assert_eq!(BinaryOperator::Addition.as_str(), "+");
    assert_eq!(BinaryOperator::Remainder.as_str(), "%");
    assert_eq!(BinaryOperator::In.as_str(), "in");
    assert_eq!(BinaryOperator::Instanceof.as_str(), "instanceof");
    assert_eq!(BinaryOperator::Exponential.as_str(), "**");
}

#[test]
fn logical_operator_spellings() {
    assert_eq!(LogicalOperator::Or.as_str(), "||");
    assert_eq!(LogicalOperator::And.as_str(), "&&");
    assert_eq!(LogicalOperator::Coalesce.as_str(), "??");
}

#[test]
fn unified_spelling_matches_family_spelling() {
    assert_eq!(BinaryishOperator::from(BinaryOperator::Exponential).as_str(), "**");
    assert_eq!(BinaryishOperator::from(LogicalOperator::Coalesce).as_str(), "??");
}

#[test]
fn left_binary_expression_exposes_operator() {
    let e = Expression::Binary { operator: BinaryOperator::Addition };
    let left = BinaryishLeft::from(&e);
    assert_eq!(
        left.operator(),
        Some(BinaryishOperator::BinaryOperator(BinaryOperator::Addition))
    );
}

#[test]
fn left_logical_expression_exposes_operator() {
    let e = Expression::Logical { operator: LogicalOperator::Coalesce };
    let left = BinaryishLeft::from(&e);
    assert_eq!(
        left.operator(),
        Some(BinaryishOperator::LogicalOperator(LogicalOperator::Coalesce))
    );
}

#[test]
fn left_other_expression_exposes_no_operator() {
    let e = Expression::Other;
    let left = BinaryishLeft::from(&e);
    assert_eq!(left.operator(), None);
}

#[test]
fn left_private_identifier_exposes_no_operator() {
    let ident = PrivateIdentifier {};
    let left = BinaryishLeft::from(&ident);
    assert_eq!(left.operator(), None);
}
