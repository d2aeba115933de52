//! Overflow and underflow guards for fixed-width arithmetic.
//!
//! For an arithmetic operation producing an `N`-bit result, the guard pair
//! bounds the unchecked mathematical result between the type's smallest and
//! largest representable values; both directions are conjoined for every
//! guarded operator, which is sound for each of them.

use vstd::prelude::*;
use crate::expression::{
    expr_result_view, BinaryOperator, Expression, ExprView, FatalError, BinaryExpressionData,
    SignedBitVectorData, Types, UnsignedBitVectorData,
};

verus! {

/// The smallest and largest representable value of an integer type, as
/// literal expressions of that type.  A boolean has none: arithmetic on it is
/// an unsupported configuration.
pub open spec fn spec_type_bounds(t: Types) -> Result<(ExprView, ExprView), FatalError> {
    match t {
        Types::Bool => Err(FatalError::UnsupportedConstruct),
        Types::I8 => Ok(
            (
                ExprView::SignedBv { size: 8, value: -128i64 },
                ExprView::SignedBv { size: 8, value: 127 },
            ),
        ),
        Types::I16 => Ok(
            (
                ExprView::SignedBv { size: 16, value: -32768i64 },
                ExprView::SignedBv { size: 16, value: 32767 },
            ),
        ),
        Types::I32 => Ok(
            (
                ExprView::SignedBv { size: 32, value: -2147483648i64 },
                ExprView::SignedBv { size: 32, value: 2147483647 },
            ),
        ),
        Types::I64 => Ok(
            (
                ExprView::SignedBv { size: 64, value: i64::MIN },
                ExprView::SignedBv { size: 64, value: i64::MAX },
            ),
        ),
        Types::U8 => Ok(
            (
                ExprView::UnsignedBv { size: 8, value: 0 },
                ExprView::UnsignedBv { size: 8, value: 255 },
            ),
        ),
        Types::U16 => Ok(
            (
                ExprView::UnsignedBv { size: 16, value: 0 },
                ExprView::UnsignedBv { size: 16, value: 65535 },
            ),
        ),
        Types::U32 => Ok(
            (
                ExprView::UnsignedBv { size: 32, value: 0 },
                ExprView::UnsignedBv { size: 32, value: 4294967295 },
            ),
        ),
        Types::U64 => Ok(
            (
                ExprView::UnsignedBv { size: 64, value: 0 },
                ExprView::UnsignedBv { size: 64, value: u64::MAX },
            ),
        ),
    }
}

/// Builds the bound literals of an integer type.
fn type_bounds(t: Types) -> (r: Result<(Expression, Expression), FatalError>)
    ensures
        (match r {
            Ok(p) => spec_type_bounds(t) == Ok::<_, FatalError>((p.0@, p.1@)),
            Err(e) => spec_type_bounds(t) == Err::<(ExprView, ExprView), _>(e),
        }),
{
    match t {
        Types::Bool => Err(FatalError::UnsupportedConstruct),
        Types::I8 => Ok(
            (
                Expression::SignedBitVector(SignedBitVectorData { size: 8, value: -128 }),
                Expression::SignedBitVector(SignedBitVectorData { size: 8, value: 127 }),
            ),
        ),
        Types::I16 => Ok(
            (
                Expression::SignedBitVector(SignedBitVectorData { size: 16, value: -32768 }),
                Expression::SignedBitVector(SignedBitVectorData { size: 16, value: 32767 }),
            ),
        ),
        Types::I32 => Ok(
            (
                Expression::SignedBitVector(
                    SignedBitVectorData { size: 32, value: -2147483648 },
                ),
                Expression::SignedBitVector(SignedBitVectorData { size: 32, value: 2147483647 }),
            ),
        ),
        Types::I64 => Ok(
            (
                Expression::SignedBitVector(SignedBitVectorData { size: 64, value: i64::MIN }),
                Expression::SignedBitVector(SignedBitVectorData { size: 64, value: i64::MAX }),
            ),
        ),
        Types::U8 => Ok(
            (
                Expression::UnsignedBitVector(UnsignedBitVectorData { size: 8, value: 0 }),
                Expression::UnsignedBitVector(UnsignedBitVectorData { size: 8, value: 255 }),
            ),
        ),
        Types::U16 => Ok(
            (
                Expression::UnsignedBitVector(UnsignedBitVectorData { size: 16, value: 0 }),
                Expression::UnsignedBitVector(UnsignedBitVectorData { size: 16, value: 65535 }),
            ),
        ),
        Types::U32 => Ok(
            (
                Expression::UnsignedBitVector(UnsignedBitVectorData { size: 32, value: 0 }),
                Expression::UnsignedBitVector(
                    UnsignedBitVectorData { size: 32, value: 4294967295 },
                ),
            ),
        ),
        Types::U64 => Ok(
            (
                Expression::UnsignedBitVector(UnsignedBitVectorData { size: 64, value: 0 }),
                Expression::UnsignedBitVector(UnsignedBitVectorData { size: 64, value: u64::MAX }),
            ),
        ),
    }
}

/// `wp` with the overflow and underflow guard pair for `left op right`
/// conjoined: the unchecked result must lie between the bounds of the result
/// type `ty`.
pub open spec fn spec_overflow_check(
    wp: ExprView,
    ty: Types,
    op: BinaryOperator,
    left: ExprView,
    right: ExprView,
) -> Result<ExprView, FatalError> {
    match spec_type_bounds(ty) {
        Err(e) => Err(e),
        Ok(bounds) => {
            let result = ExprView::Binary {
                op,
                left: Box::new(left),
                right: Box::new(right),
            };
            Ok(
                ExprView::Binary {
                    op: BinaryOperator::And,
                    left: Box::new(wp),
                    right: Box::new(
                        ExprView::Binary {
                            op: BinaryOperator::And,
                            left: Box::new(
                                ExprView::Binary {
                                    op: BinaryOperator::LessThanOrEqual,
                                    left: Box::new(result),
                                    right: Box::new(bounds.1),
                                },
                            ),
                            right: Box::new(
                                ExprView::Binary {
                                    op: BinaryOperator::GreaterThanOrEqual,
                                    left: Box::new(result),
                                    right: Box::new(bounds.0),
                                },
                            ),
                        },
                    ),
                },
            )
        },
    }
}

/// Conjoins onto `wp` the overflow/underflow guard pair for the operation
/// `left op right`, keyed to the semantic type `ty` of the assignment
/// target.
pub fn overflow_check(
    wp: &Expression,
    ty: Types,
    op: BinaryOperator,
    left: &Expression,
    right: &Expression,
) -> (r: Result<Expression, FatalError>)
    ensures
        expr_result_view(r) == spec_overflow_check(wp@, ty, op, left@, right@),
{
    match type_bounds(ty) {
        Err(e) => Err(e),
        Ok((min_lit, max_lit)) => {
            let ghost result_v = ExprView::Binary {
                op,
                left: Box::new(left@),
                right: Box::new(right@),
            };
            let result_upper = Expression::BinaryExpression(
                BinaryExpressionData {
                    op,
                    left: Box::new(left.duplicate()),
                    right: Box::new(right.duplicate()),
                },
            );
            assert(result_upper@ == result_v);
            let result_lower = Expression::BinaryExpression(
                BinaryExpressionData {
                    op,
                    left: Box::new(left.duplicate()),
                    right: Box::new(right.duplicate()),
                },
            );
            assert(result_lower@ == result_v);
            let ghost max_v = max_lit@;
            let ghost min_v = min_lit@;
            let upper = Expression::BinaryExpression(
                BinaryExpressionData {
                    op: BinaryOperator::LessThanOrEqual,
                    left: Box::new(result_upper),
                    right: Box::new(max_lit),
                },
            );
            assert(upper@ == ExprView::Binary {
                op: BinaryOperator::LessThanOrEqual,
                left: Box::new(result_v),
                right: Box::new(max_v),
            });
            let lower = Expression::BinaryExpression(
                BinaryExpressionData {
                    op: BinaryOperator::GreaterThanOrEqual,
                    left: Box::new(result_lower),
                    right: Box::new(min_lit),
                },
            );
            assert(lower@ == ExprView::Binary {
                op: BinaryOperator::GreaterThanOrEqual,
                left: Box::new(result_v),
                right: Box::new(min_v),
            });
            let ghost upper_v = upper@;
            let ghost lower_v = lower@;
            let guard_pair = Expression::BinaryExpression(
                BinaryExpressionData {
                    op: BinaryOperator::And,
                    left: Box::new(upper),
                    right: Box::new(lower),
                },
            );
            assert(guard_pair@ == ExprView::Binary {
                op: BinaryOperator::And,
                left: Box::new(upper_v),
                right: Box::new(lower_v),
            });
            let ghost guard_v = guard_pair@;
            let conjoined = Expression::BinaryExpression(
                BinaryExpressionData {
                    op: BinaryOperator::And,
                    left: Box::new(wp.duplicate()),
                    right: Box::new(guard_pair),
                },
            );
            assert(conjoined@ == ExprView::Binary {
                op: BinaryOperator::And,
                left: Box::new(wp@),
                right: Box::new(guard_v),
            });
            Ok(conjoined)
        },
    }
}

} // verus!
