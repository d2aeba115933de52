//! The weakest-precondition generator: backward symbolic execution over the
//! basic blocks of one function.
//!
//! [`gen`] is the entry point.  For a block it first resolves the predicate
//! contributed by the terminator — recursing into successor blocks — and then
//! folds the block's statements backward through [`gen_stmt`], which applies
//! assignment semantics by substitution and conjoins the arithmetic safety
//! guards built in [`overflow`].

pub mod overflow;

use vstd::prelude::*;
use crate::expression::{
    determine_evaluation_type, expr_result_view, is_signed_type, spec_eval_type, spec_is_signed,
    spec_string_to_type, spec_substitute, string_to_type, substitute_variable_with_expression,
    var_result_view, BaseName, BaseNameView, BinaryExpressionData, BinaryOperator, Expression,
    ExprView, FatalError, Name, NameView, SignedBitVectorData, Types, UnaryExpressionData,
    UnaryOperator, UnsignedBitVectorData, VariableMappingData, VarView,
};
use crate::mir::{
    AggregateKind, BasicBlock, BinOp, Callee, DeclaredType, Literal, Lvalue, MirData, Operand,
    ProjectionElem, Rvalue, Statement, Terminator, UnOp,
};
use crate::weakest_precondition::overflow::{overflow_check, spec_overflow_check};

verus! {

/// The semantic type a declared scalar type resolves to; a tuple type has
/// none of its own.
pub open spec fn spec_resolve_declared(t: DeclaredType) -> Result<Types, FatalError> {
    match t {
        DeclaredType::Simple(s) => spec_string_to_type(s@),
        DeclaredType::Tuple(_) => Err(FatalError::TypeResolutionError),
    }
}

/// Resolves a declared scalar type.
pub fn resolve_declared(t: &DeclaredType) -> (r: Result<Types, FatalError>)
    ensures
        r == spec_resolve_declared(*t),
{
    match t {
        DeclaredType::Simple(s) => string_to_type(s),
        DeclaredType::Tuple(_) => Err(FatalError::TypeResolutionError),
    }
}

/// The semantic type a temporary's declaration resolves to: a tuple-typed
/// temporary — the result pair of a checked operation — stands for its first
/// element.
pub open spec fn spec_resolve_temp_declared(t: DeclaredType) -> Result<Types, FatalError> {
    match t {
        DeclaredType::Simple(s) => spec_string_to_type(s@),
        DeclaredType::Tuple(ts) => if ts@.len() > 0 {
            spec_string_to_type(ts@[0]@)
        } else {
            Err(FatalError::TypeResolutionError)
        },
    }
}

/// Resolves a temporary's declared type, unwrapping a tuple to its first
/// element.
pub fn resolve_temp_declared(t: &DeclaredType) -> (r: Result<Types, FatalError>)
    ensures
        r == spec_resolve_temp_declared(*t),
{
    match t {
        DeclaredType::Simple(s) => string_to_type(s),
        DeclaredType::Tuple(ts) => if ts.len() > 0 {
            string_to_type(&ts[0])
        } else {
            Err(FatalError::TypeResolutionError)
        },
    }
}

/// The variable reference denoted by the field projection `base.field`.
pub open spec fn spec_gen_projection(base: Lvalue, field: usize, d: MirData) -> Result<
    VarView,
    FatalError,
> {
    match base {
        Lvalue::Arg(i) => if i < d.arg_data@.len() {
            spec_projected_var(
                BaseNameView::Named(d.arg_data@[i as int].name@),
                d.arg_data@[i as int].ty,
                field,
            )
        } else {
            Err(FatalError::InternalInvariantViolation)
        },
        Lvalue::Temp(i) => if i < d.temp_data@.len() {
            spec_projected_var(BaseNameView::Tmp(i), d.temp_data@[i as int].ty, field)
        } else {
            Err(FatalError::InternalInvariantViolation)
        },
        Lvalue::Var(i) => if i < d.var_data@.len() {
            spec_projected_var(BaseNameView::Local(i), d.var_data@[i as int].ty, field)
        } else {
            Err(FatalError::InternalInvariantViolation)
        },
        _ => Err(FatalError::InternalInvariantViolation),
    }
}

/// The variable reference for element `field` of a tuple-typed location; a
/// projection out of a non-tuple or past its end violates the grammar.
pub open spec fn spec_projected_var(base: BaseNameView, t: DeclaredType, field: usize) -> Result<
    VarView,
    FatalError,
> {
    match t {
        DeclaredType::Tuple(ts) => if field < ts@.len() {
            match spec_string_to_type(ts@[field as int]@) {
                Ok(ty) => Ok(VarView { name: NameView::Field(base, field), ty }),
                Err(e) => Err(e),
            }
        } else {
            Err(FatalError::InternalInvariantViolation)
        },
        DeclaredType::Simple(_) => Err(FatalError::InternalInvariantViolation),
    }
}

/// Builds the variable reference for element `field` of a tuple-typed
/// location.
fn projected_var(base: BaseName, t: &DeclaredType, field: usize) -> (r: Result<
    VariableMappingData,
    FatalError,
>)
    ensures
        var_result_view(r) == spec_projected_var(base@, *t, field),
{
    match t {
        DeclaredType::Tuple(ts) => if field < ts.len() {
            match string_to_type(&ts[field]) {
                Ok(ty) => Ok(
                    VariableMappingData { name: Name::Field(base, field), var_type: ty },
                ),
                Err(e) => Err(e),
            }
        } else {
            Err(FatalError::InternalInvariantViolation)
        },
        DeclaredType::Simple(_) => Err(FatalError::InternalInvariantViolation),
    }
}

/// The variable reference an lvalue resolves to.
pub open spec fn spec_gen_lvalue(lv: Lvalue, d: MirData) -> Result<VarView, FatalError> {
    match lv {
        Lvalue::Arg(i) => if i < d.arg_data@.len() {
            match spec_resolve_declared(d.arg_data@[i as int].ty) {
                Ok(t) => Ok(
                    VarView {
                        name: NameView::Base(BaseNameView::Named(d.arg_data@[i as int].name@)),
                        ty: t,
                    },
                ),
                Err(e) => Err(e),
            }
        } else {
            Err(FatalError::InternalInvariantViolation)
        },
        Lvalue::Temp(i) => if i < d.temp_data@.len() {
            match spec_resolve_temp_declared(d.temp_data@[i as int].ty) {
                Ok(t) => Ok(VarView { name: NameView::Base(BaseNameView::Tmp(i)), ty: t }),
                Err(e) => Err(e),
            }
        } else {
            Err(FatalError::InternalInvariantViolation)
        },
        Lvalue::Var(i) => if i < d.var_data@.len() {
            match spec_resolve_declared(d.var_data@[i as int].ty) {
                Ok(t) => Ok(VarView { name: NameView::Base(BaseNameView::Local(i)), ty: t }),
                Err(e) => Err(e),
            }
        } else {
            Err(FatalError::InternalInvariantViolation)
        },
        Lvalue::ReturnPointer => Ok(VarView { name: NameView::Ret, ty: d.func_return_type }),
        Lvalue::Static(_) => Err(FatalError::UnsupportedConstruct),
        Lvalue::Projection(p) => match p.elem {
            ProjectionElem::Field(f) => spec_gen_projection(*p.base, f, d),
            ProjectionElem::Other => Err(FatalError::UnsupportedConstruct),
        },
    }
}

/// Resolves an lvalue to the variable reference it denotes: its identity and
/// its semantic type, looked up in the declaration tables.
pub fn gen_lvalue(lv: &Lvalue, data: &MirData) -> (r: Result<VariableMappingData, FatalError>)
    ensures
        var_result_view(r) == spec_gen_lvalue(*lv, *data),
{
    match lv {
        Lvalue::Arg(i) => if *i < data.arg_data.len() {
            let decl = &data.arg_data[*i];
            match resolve_declared(&decl.ty) {
                Ok(t) => Ok(
                    VariableMappingData {
                        name: Name::Base(BaseName::Named(decl.name.clone())),
                        var_type: t,
                    },
                ),
                Err(e) => Err(e),
            }
        } else {
            Err(FatalError::InternalInvariantViolation)
        },
        Lvalue::Temp(i) => if *i < data.temp_data.len() {
            match resolve_temp_declared(&data.temp_data[*i].ty) {
                Ok(t) => Ok(
                    VariableMappingData { name: Name::Base(BaseName::Tmp(*i)), var_type: t },
                ),
                Err(e) => Err(e),
            }
        } else {
            Err(FatalError::InternalInvariantViolation)
        },
        Lvalue::Var(i) => if *i < data.var_data.len() {
            match resolve_declared(&data.var_data[*i].ty) {
                Ok(t) => Ok(
                    VariableMappingData { name: Name::Base(BaseName::Local(*i)), var_type: t },
                ),
                Err(e) => Err(e),
            }
        } else {
            Err(FatalError::InternalInvariantViolation)
        },
        Lvalue::ReturnPointer => Ok(
            VariableMappingData { name: Name::Ret, var_type: data.func_return_type },
        ),
        Lvalue::Static(_) => Err(FatalError::UnsupportedConstruct),
        Lvalue::Projection(p) => match p.elem {
            ProjectionElem::Field(f) => match &*p.base {
                Lvalue::Arg(i) => if *i < data.arg_data.len() {
                    let decl = &data.arg_data[*i];
                    projected_var(BaseName::Named(decl.name.clone()), &decl.ty, f)
                } else {
                    Err(FatalError::InternalInvariantViolation)
                },
                Lvalue::Temp(i) => if *i < data.temp_data.len() {
                    projected_var(BaseName::Tmp(*i), &data.temp_data[*i].ty, f)
                } else {
                    Err(FatalError::InternalInvariantViolation)
                },
                Lvalue::Var(i) => if *i < data.var_data.len() {
                    projected_var(BaseName::Local(*i), &data.var_data[*i].ty, f)
                } else {
                    Err(FatalError::InternalInvariantViolation)
                },
                _ => Err(FatalError::InternalInvariantViolation),
            },
            ProjectionElem::Other => Err(FatalError::UnsupportedConstruct),
        },
    }
}

/// The expression an operand resolves to: a variable reference for a read, a
/// literal leaf for a constant.
pub open spec fn spec_gen_expression(operand: Operand, d: MirData) -> Result<
    ExprView,
    FatalError,
> {
    match operand {
        Operand::Consume(l) => match spec_gen_lvalue(l, d) {
            Ok(v) => Ok(ExprView::Var(v)),
            Err(e) => Err(e),
        },
        Operand::Constant(c) => match c {
            Literal::Bool(b) => Ok(ExprView::Bool(b)),
            Literal::I8(i) => Ok(ExprView::SignedBv { size: 8, value: i as i64 }),
            Literal::I16(i) => Ok(ExprView::SignedBv { size: 16, value: i as i64 }),
            Literal::I32(i) => Ok(ExprView::SignedBv { size: 32, value: i as i64 }),
            Literal::I64(i) => Ok(ExprView::SignedBv { size: 64, value: i }),
            Literal::U8(u) => Ok(ExprView::UnsignedBv { size: 8, value: u as u64 }),
            Literal::U16(u) => Ok(ExprView::UnsignedBv { size: 16, value: u as u64 }),
            Literal::U32(u) => Ok(ExprView::UnsignedBv { size: 32, value: u as u64 }),
            Literal::U64(u) => Ok(ExprView::UnsignedBv { size: 64, value: u }),
            Literal::Other => Err(FatalError::UnsupportedConstruct),
        },
    }
}

/// Resolves an operand to an expression: a variable read becomes a variable
/// leaf, a constant becomes a literal leaf of its width and signedness.
pub fn gen_expression(operand: &Operand, data: &MirData) -> (r: Result<Expression, FatalError>)
    ensures
        expr_result_view(r) == spec_gen_expression(*operand, *data),
{
    match operand {
        Operand::Consume(l) => match gen_lvalue(l, data) {
            Ok(v) => Ok(Expression::VariableMapping(v)),
            Err(e) => Err(e),
        },
        Operand::Constant(c) => match c {
            Literal::Bool(b) => Ok(Expression::BooleanLiteral(*b)),
            Literal::I8(i) => Ok(
                Expression::SignedBitVector(SignedBitVectorData { size: 8, value: *i as i64 }),
            ),
            Literal::I16(i) => Ok(
                Expression::SignedBitVector(SignedBitVectorData { size: 16, value: *i as i64 }),
            ),
            Literal::I32(i) => Ok(
                Expression::SignedBitVector(SignedBitVectorData { size: 32, value: *i as i64 }),
            ),
            Literal::I64(i) => Ok(
                Expression::SignedBitVector(SignedBitVectorData { size: 64, value: *i }),
            ),
            Literal::U8(u) => Ok(
                Expression::UnsignedBitVector(
                    UnsignedBitVectorData { size: 8, value: *u as u64 },
                ),
            ),
            Literal::U16(u) => Ok(
                Expression::UnsignedBitVector(
                    UnsignedBitVectorData { size: 16, value: *u as u64 },
                ),
            ),
            Literal::U32(u) => Ok(
                Expression::UnsignedBitVector(
                    UnsignedBitVectorData { size: 32, value: *u as u64 },
                ),
            ),
            Literal::U64(u) => Ok(
                Expression::UnsignedBitVector(UnsignedBitVectorData { size: 64, value: *u }),
            ),
            Literal::Other => Err(FatalError::UnsupportedConstruct),
        },
    }
}

/// The semantic type of an operand, read from the declaration tables or from
/// the constant itself.
pub open spec fn spec_gen_ty(operand: Operand, d: MirData) -> Result<Types, FatalError> {
    match operand {
        Operand::Constant(c) => match c {
            Literal::Bool(_) => Ok(Types::Bool),
            Literal::I8(_) => Ok(Types::I8),
            Literal::I16(_) => Ok(Types::I16),
            Literal::I32(_) => Ok(Types::I32),
            Literal::I64(_) => Ok(Types::I64),
            Literal::U8(_) => Ok(Types::U8),
            Literal::U16(_) => Ok(Types::U16),
            Literal::U32(_) => Ok(Types::U32),
            Literal::U64(_) => Ok(Types::U64),
            Literal::Other => Err(FatalError::UnsupportedConstruct),
        },
        Operand::Consume(l) => match l {
            Lvalue::Arg(i) => if i < d.arg_data@.len() {
                spec_resolve_declared(d.arg_data@[i as int].ty)
            } else {
                Err(FatalError::InternalInvariantViolation)
            },
            Lvalue::Temp(i) => if i < d.temp_data@.len() {
                spec_resolve_declared(d.temp_data@[i as int].ty)
            } else {
                Err(FatalError::InternalInvariantViolation)
            },
            Lvalue::Var(i) => if i < d.var_data@.len() {
                spec_resolve_declared(d.var_data@[i as int].ty)
            } else {
                Err(FatalError::InternalInvariantViolation)
            },
            _ => Err(FatalError::UnsupportedConstruct),
        },
    }
}

/// The semantic type of an operand: for a location, its declared type
/// resolved as spelled; for a constant, the type it carries.
pub fn gen_ty(operand: &Operand, data: &MirData) -> (r: Result<Types, FatalError>)
    ensures
        r == spec_gen_ty(*operand, *data),
{
    match operand {
        Operand::Constant(c) => match c {
            Literal::Bool(_) => Ok(Types::Bool),
            Literal::I8(_) => Ok(Types::I8),
            Literal::I16(_) => Ok(Types::I16),
            Literal::I32(_) => Ok(Types::I32),
            Literal::I64(_) => Ok(Types::I64),
            Literal::U8(_) => Ok(Types::U8),
            Literal::U16(_) => Ok(Types::U16),
            Literal::U32(_) => Ok(Types::U32),
            Literal::U64(_) => Ok(Types::U64),
            Literal::Other => Err(FatalError::UnsupportedConstruct),
        },
        Operand::Consume(l) => match l {
            Lvalue::Arg(i) => if *i < data.arg_data.len() {
                resolve_declared(&data.arg_data[*i].ty)
            } else {
                Err(FatalError::InternalInvariantViolation)
            },
            Lvalue::Temp(i) => if *i < data.temp_data.len() {
                resolve_declared(&data.temp_data[*i].ty)
            } else {
                Err(FatalError::InternalInvariantViolation)
            },
            Lvalue::Var(i) => if *i < data.var_data.len() {
                resolve_declared(&data.var_data[*i].ty)
            } else {
                Err(FatalError::InternalInvariantViolation)
            },
            _ => Err(FatalError::UnsupportedConstruct),
        },
    }
}

/// The zero literal of an integer type, matching its width and signedness.
pub open spec fn spec_zero_literal(t: Types) -> Result<ExprView, FatalError> {
    match t {
        Types::Bool => Err(FatalError::UnsupportedConstruct),
        Types::I8 => Ok(ExprView::SignedBv { size: 8, value: 0 }),
        Types::I16 => Ok(ExprView::SignedBv { size: 16, value: 0 }),
        Types::I32 => Ok(ExprView::SignedBv { size: 32, value: 0 }),
        Types::I64 => Ok(ExprView::SignedBv { size: 64, value: 0 }),
        Types::U8 => Ok(ExprView::UnsignedBv { size: 8, value: 0 }),
        Types::U16 => Ok(ExprView::UnsignedBv { size: 16, value: 0 }),
        Types::U32 => Ok(ExprView::UnsignedBv { size: 32, value: 0 }),
        Types::U64 => Ok(ExprView::UnsignedBv { size: 64, value: 0 }),
    }
}

/// Builds the zero literal of an integer type.
fn zero_literal(t: Types) -> (r: Result<Expression, FatalError>)
    ensures
        expr_result_view(r) == spec_zero_literal(t),
{
    match t {
        Types::Bool => Err(FatalError::UnsupportedConstruct),
        Types::I8 => Ok(Expression::SignedBitVector(SignedBitVectorData { size: 8, value: 0 })),
        Types::I16 => Ok(
            Expression::SignedBitVector(SignedBitVectorData { size: 16, value: 0 }),
        ),
        Types::I32 => Ok(
            Expression::SignedBitVector(SignedBitVectorData { size: 32, value: 0 }),
        ),
        Types::I64 => Ok(
            Expression::SignedBitVector(SignedBitVectorData { size: 64, value: 0 }),
        ),
        Types::U8 => Ok(
            Expression::UnsignedBitVector(UnsignedBitVectorData { size: 8, value: 0 }),
        ),
        Types::U16 => Ok(
            Expression::UnsignedBitVector(UnsignedBitVectorData { size: 16, value: 0 }),
        ),
        Types::U32 => Ok(
            Expression::UnsignedBitVector(UnsignedBitVectorData { size: 32, value: 0 }),
        ),
        Types::U64 => Ok(
            Expression::UnsignedBitVector(UnsignedBitVectorData { size: 64, value: 0 }),
        ),
    }
}

/// `wp` with the divisor check `exp ≠ 0` conjoined, the zero literal taking
/// the divisor's own width and signedness.
pub open spec fn spec_add_zero_check(wp: ExprView, exp: ExprView) -> Result<ExprView, FatalError> {
    match spec_eval_type(exp) {
        Err(e) => Err(e),
        Ok(t) => match spec_zero_literal(t) {
            Err(e) => Err(e),
            Ok(zero) => Ok(
                ExprView::Binary {
                    op: BinaryOperator::And,
                    left: Box::new(wp),
                    right: Box::new(
                        ExprView::Binary {
                            op: BinaryOperator::NotEqual,
                            left: Box::new(exp),
                            right: Box::new(zero),
                        },
                    ),
                },
            ),
        },
    }
}

/// Conjoins onto `wp` a check that the divisor `exp` is not zero.
pub fn add_zero_check(wp: &Expression, exp: &Expression) -> (r: Result<Expression, FatalError>)
    ensures
        expr_result_view(r) == spec_add_zero_check(wp@, exp@),
{
    match determine_evaluation_type(exp) {
        Err(e) => Err(e),
        Ok(t) => match zero_literal(t) {
            Err(e) => Err(e),
            Ok(zero) => {
                let ghost zero_v = zero@;
                let check = Expression::BinaryExpression(
                    BinaryExpressionData {
                        op: BinaryOperator::NotEqual,
                        left: Box::new(exp.duplicate()),
                        right: Box::new(zero),
                    },
                );
                assert(check@ == ExprView::Binary {
                    op: BinaryOperator::NotEqual,
                    left: Box::new(exp@),
                    right: Box::new(zero_v),
                });
                let ghost check_v = check@;
                let conjoined = Expression::BinaryExpression(
                    BinaryExpressionData {
                        op: BinaryOperator::And,
                        left: Box::new(wp.duplicate()),
                        right: Box::new(check),
                    },
                );
                assert(conjoined@ == ExprView::Binary {
                    op: BinaryOperator::And,
                    left: Box::new(wp@),
                    right: Box::new(check_v),
                });
                Ok(conjoined)
            },
        },
    }
}

/// The expression-language operator a program operator denotes.
pub open spec fn spec_binop_operator(op: BinOp) -> BinaryOperator {
    match op {
        BinOp::Add => BinaryOperator::Addition,
        BinOp::Sub => BinaryOperator::Subtraction,
        BinOp::Mul => BinaryOperator::Multiplication,
        BinOp::Div => BinaryOperator::Division,
        BinOp::Rem => BinaryOperator::Modulo,
        BinOp::BitOr => BinaryOperator::BitwiseOr,
        BinOp::BitAnd => BinaryOperator::BitwiseAnd,
        BinOp::BitXor => BinaryOperator::BitwiseXor,
        BinOp::Shl => BinaryOperator::BitwiseLeftShift,
        BinOp::Shr => BinaryOperator::BitwiseRightShift,
        BinOp::Lt => BinaryOperator::LessThan,
        BinOp::Le => BinaryOperator::LessThanOrEqual,
        BinOp::Gt => BinaryOperator::GreaterThan,
        BinOp::Ge => BinaryOperator::GreaterThanOrEqual,
        BinOp::Eq => BinaryOperator::Equal,
        BinOp::Ne => BinaryOperator::NotEqual,
    }
}

/// Maps a program operator to the expression-language operator.
fn binop_operator(op: BinOp) -> (r: BinaryOperator)
    ensures
        r == spec_binop_operator(op),
{
    match op {
        BinOp::Add => BinaryOperator::Addition,
        BinOp::Sub => BinaryOperator::Subtraction,
        BinOp::Mul => BinaryOperator::Multiplication,
        BinOp::Div => BinaryOperator::Division,
        BinOp::Rem => BinaryOperator::Modulo,
        BinOp::BitOr => BinaryOperator::BitwiseOr,
        BinOp::BitAnd => BinaryOperator::BitwiseAnd,
        BinOp::BitXor => BinaryOperator::BitwiseXor,
        BinOp::Shl => BinaryOperator::BitwiseLeftShift,
        BinOp::Shr => BinaryOperator::BitwiseRightShift,
        BinOp::Lt => BinaryOperator::LessThan,
        BinOp::Le => BinaryOperator::LessThanOrEqual,
        BinOp::Gt => BinaryOperator::GreaterThan,
        BinOp::Ge => BinaryOperator::GreaterThanOrEqual,
        BinOp::Eq => BinaryOperator::Equal,
        BinOp::Ne => BinaryOperator::NotEqual,
    }
}

/// The guards an arithmetic operation adds to `wp`, keyed to the target's
/// semantic type `ty`: the overflow/underflow pair for addition, subtraction
/// and multiplication; a nonzero-divisor check for division and remainder,
/// with the pair conjoined too when the divisor's type is signed; nothing for
/// shift, bitwise, relational and equality operators.
pub open spec fn spec_guarded_wp(wp: ExprView, ty: Types, op: BinOp, le: ExprView, re: ExprView)
    -> Result<ExprView, FatalError> {
    match op {
        BinOp::Add => spec_overflow_check(wp, ty, BinaryOperator::Addition, le, re),
        BinOp::Sub => spec_overflow_check(wp, ty, BinaryOperator::Subtraction, le, re),
        BinOp::Mul => spec_overflow_check(wp, ty, BinaryOperator::Multiplication, le, re),
        BinOp::Div | BinOp::Rem => match spec_eval_type(re) {
            Err(e) => Err(e),
            Ok(t) => {
                let with_overflow = if spec_is_signed(t) {
                    spec_overflow_check(wp, ty, spec_binop_operator(op), le, re)
                } else {
                    Ok(wp)
                };
                match with_overflow {
                    Err(e) => Err(e),
                    Ok(w) => spec_add_zero_check(w, re),
                }
            },
        },
        _ => Ok(wp),
    }
}

/// Conjoins onto `wp` the safety guards that `le op re`, assigned to a target
/// of type `ty`, requires.
fn guarded_wp(wp: Expression, ty: Types, op: BinOp, le: &Expression, re: &Expression) -> (r:
    Result<Expression, FatalError>)
    ensures
        expr_result_view(r) == spec_guarded_wp(wp@, ty, op, le@, re@),
{
    match op {
        BinOp::Add => overflow_check(&wp, ty, BinaryOperator::Addition, le, re),
        BinOp::Sub => overflow_check(&wp, ty, BinaryOperator::Subtraction, le, re),
        BinOp::Mul => overflow_check(&wp, ty, BinaryOperator::Multiplication, le, re),
        BinOp::Div | BinOp::Rem => {
            let mapped = binop_operator(op);
            match determine_evaluation_type(re) {
                Err(e) => Err(e),
                Ok(t) => {
                    let with_overflow = if is_signed_type(t) {
                        match overflow_check(&wp, ty, mapped, le, re) {
                            Err(e) => {
                                return Err(e);
                            },
                            Ok(w) => w,
                        }
                    } else {
                        wp
                    };
                    add_zero_check(&with_overflow, re)
                },
            }
        },
        _ => Ok(wp),
    }
}

/// The substitution key for the value of an overflow-tracked operation: the
/// first element of the pair the target holds.  A target that is itself a
/// field or the return slot violates the assumed grammar.
pub open spec fn spec_checked_target(var: VarView) -> Result<VarView, FatalError> {
    match var.name {
        NameView::Base(b) => Ok(VarView { name: NameView::Field(b, 0), ty: var.ty }),
        _ => Err(FatalError::InternalInvariantViolation),
    }
}

/// Qualifies the target of an overflow-tracked operation down to the first
/// element of its result pair.
fn checked_target(var: VariableMappingData) -> (r: Result<VariableMappingData, FatalError>)
    ensures
        var_result_view(r) == spec_checked_target(var@),
{
    match var.name {
        Name::Base(b) => Ok(VariableMappingData { name: Name::Field(b, 0), var_type: var.var_type }),
        _ => Err(FatalError::InternalInvariantViolation),
    }
}

/// The predicate after an overflow-tracked binary assignment: guards are
/// conjoined, and the operation's value replaces the first element of the
/// target pair.
pub open spec fn spec_gen_checked_binop(
    wp: ExprView,
    var: VarView,
    op: BinOp,
    lop: Operand,
    rop: Operand,
    d: MirData,
) -> Result<ExprView, FatalError> {
    match spec_gen_expression(lop, d) {
        Err(e) => Err(e),
        Ok(le) => match spec_gen_expression(rop, d) {
            Err(e) => Err(e),
            Ok(re) => match op {
                BinOp::Add
                | BinOp::Sub
                | BinOp::Mul
                | BinOp::Div
                | BinOp::Rem
                | BinOp::Shl
                | BinOp::Shr => match spec_guarded_wp(wp, var.ty, op, le, re) {
                    Err(e) => Err(e),
                    Ok(w) => match spec_checked_target(var) {
                        Err(e) => Err(e),
                        Ok(v2) => Ok(
                            spec_substitute(
                                w,
                                v2,
                                ExprView::Binary {
                                    op: spec_binop_operator(op),
                                    left: Box::new(le),
                                    right: Box::new(re),
                                },
                            ),
                        ),
                    },
                },
                _ => Err(FatalError::UnsupportedConstruct),
            },
        },
    }
}

/// Applies an overflow-tracked binary assignment to `wp`.
fn gen_checked_binop(
    wp: Expression,
    var: VariableMappingData,
    op: BinOp,
    lop: &Operand,
    rop: &Operand,
    data: &MirData,
) -> (r: Result<Expression, FatalError>)
    ensures
        expr_result_view(r) == spec_gen_checked_binop(wp@, var@, op, *lop, *rop, *data),
{
    let le = match gen_expression(lop, data) {
        Ok(e) => e,
        Err(e) => {
            return Err(e);
        },
    };
    let re = match gen_expression(rop, data) {
        Ok(e) => e,
        Err(e) => {
            return Err(e);
        },
    };
    match op {
        BinOp::Add | BinOp::Sub | BinOp::Mul | BinOp::Div | BinOp::Rem | BinOp::Shl
        | BinOp::Shr => {
            let w = match guarded_wp(wp, var.var_type, op, &le, &re) {
                Ok(w) => w,
                Err(e) => {
                    return Err(e);
                },
            };
            let v2 = match checked_target(var) {
                Ok(v) => v,
                Err(e) => {
                    return Err(e);
                },
            };
            let bop = binop_operator(op);
            let ghost le_v = le@;
            let ghost re_v = re@;
            let result_expr = Expression::BinaryExpression(
                BinaryExpressionData { op: bop, left: Box::new(le), right: Box::new(re) },
            );
            assert(result_expr@ == ExprView::Binary {
                op: bop,
                left: Box::new(le_v),
                right: Box::new(re_v),
            });
            Ok(substitute_variable_with_expression(&w, &v2, &result_expr))
        },
        _ => Err(FatalError::UnsupportedConstruct),
    }
}

/// The predicate after a plain binary assignment: guards are conjoined, and
/// the operation replaces the target.
pub open spec fn spec_gen_binop(
    wp: ExprView,
    var: VarView,
    op: BinOp,
    lop: Operand,
    rop: Operand,
    d: MirData,
) -> Result<ExprView, FatalError> {
    match spec_gen_expression(lop, d) {
        Err(e) => Err(e),
        Ok(le) => match spec_gen_expression(rop, d) {
            Err(e) => Err(e),
            Ok(re) => match spec_guarded_wp(wp, var.ty, op, le, re) {
                Err(e) => Err(e),
                Ok(w) => Ok(
                    spec_substitute(
                        w,
                        var,
                        ExprView::Binary {
                            op: spec_binop_operator(op),
                            left: Box::new(le),
                            right: Box::new(re),
                        },
                    ),
                ),
            },
        },
    }
}

/// Applies a plain binary assignment to `wp`.
fn gen_binop(
    wp: Expression,
    var: VariableMappingData,
    op: BinOp,
    lop: &Operand,
    rop: &Operand,
    data: &MirData,
) -> (r: Result<Expression, FatalError>)
    ensures
        expr_result_view(r) == spec_gen_binop(wp@, var@, op, *lop, *rop, *data),
{
    let le = match gen_expression(lop, data) {
        Ok(e) => e,
        Err(e) => {
            return Err(e);
        },
    };
    let re = match gen_expression(rop, data) {
        Ok(e) => e,
        Err(e) => {
            return Err(e);
        },
    };
    let w = match guarded_wp(wp, var.var_type, op, &le, &re) {
        Ok(w) => w,
        Err(e) => {
            return Err(e);
        },
    };
    let bop = binop_operator(op);
    let ghost le_v = le@;
    let ghost re_v = re@;
    let result_expr = Expression::BinaryExpression(
        BinaryExpressionData { op: bop, left: Box::new(le), right: Box::new(re) },
    );
    assert(result_expr@ == ExprView::Binary {
        op: bop,
        left: Box::new(le_v),
        right: Box::new(re_v),
    });
    Ok(substitute_variable_with_expression(&w, &var, &result_expr))
}

/// The predicate after a unary assignment.  The complement's kind follows the
/// operand's resolved type: logical on a boolean, bitwise on an integer.
pub open spec fn spec_gen_unop(
    wp: ExprView,
    var: VarView,
    op: UnOp,
    vop: Operand,
    d: MirData,
) -> Result<ExprView, FatalError> {
    match spec_gen_expression(vop, d) {
        Err(e) => Err(e),
        Ok(exp) => match op {
            UnOp::Neg => Ok(
                spec_substitute(
                    wp,
                    var,
                    ExprView::Unary { op: UnaryOperator::Negation, e: Box::new(exp) },
                ),
            ),
            UnOp::Not => match spec_eval_type(exp) {
                Err(e) => Err(e),
                Ok(t) => {
                    let uop = if t == Types::Bool {
                        UnaryOperator::Not
                    } else {
                        UnaryOperator::BitwiseNot
                    };
                    Ok(spec_substitute(wp, var, ExprView::Unary { op: uop, e: Box::new(exp) }))
                },
            },
        },
    }
}

/// Applies a unary assignment to `wp`.
fn gen_unop(
    wp: Expression,
    var: VariableMappingData,
    op: UnOp,
    vop: &Operand,
    data: &MirData,
) -> (r: Result<Expression, FatalError>)
    ensures
        expr_result_view(r) == spec_gen_unop(wp@, var@, op, *vop, *data),
{
    let exp = match gen_expression(vop, data) {
        Ok(e) => e,
        Err(e) => {
            return Err(e);
        },
    };
    let uop = match op {
        UnOp::Neg => UnaryOperator::Negation,
        UnOp::Not => match determine_evaluation_type(&exp) {
            Err(e) => {
                return Err(e);
            },
            Ok(t) => if t == Types::Bool {
                UnaryOperator::Not
            } else {
                UnaryOperator::BitwiseNot
            },
        },
    };
    let ghost exp_v = exp@;
    let unary = Expression::UnaryExpression(UnaryExpressionData { op: uop, e: Box::new(exp) });
    assert(unary@ == ExprView::Unary { op: uop, e: Box::new(exp_v) });
    Ok(substitute_variable_with_expression(&wp, &var, &unary))
}

/// The predicate after a tuple-construction assignment.  Only the two-element
/// tuple that mirrors a checked operation's result shape is supported: each
/// element operand replaces the matching field of the target.
pub open spec fn spec_gen_aggregate(
    wp: ExprView,
    var: VarView,
    kind: AggregateKind,
    ops: Vec<Operand>,
    d: MirData,
) -> Result<ExprView, FatalError> {
    match kind {
        AggregateKind::Other => Err(FatalError::UnsupportedConstruct),
        AggregateKind::Tuple => if ops@.len() != 2 {
            Err(FatalError::UnsupportedConstruct)
        } else {
            match var.name {
                NameView::Base(b) => match spec_gen_expression(ops@[0], d) {
                    Err(e) => Err(e),
                    Ok(e0) => match spec_gen_ty(ops@[0], d) {
                        Err(e) => Err(e),
                        Ok(t0) => match spec_gen_expression(ops@[1], d) {
                            Err(e) => Err(e),
                            Ok(e1) => match spec_gen_ty(ops@[1], d) {
                                Err(e) => Err(e),
                                Ok(t1) => {
                                    let w1 = spec_substitute(
                                        wp,
                                        VarView { name: NameView::Field(b, 0), ty: t0 },
                                        e0,
                                    );
                                    Ok(
                                        spec_substitute(
                                            w1,
                                            VarView { name: NameView::Field(b, 1), ty: t1 },
                                            e1,
                                        ),
                                    )
                                },
                            },
                        },
                    },
                },
                _ => Err(FatalError::InternalInvariantViolation),
            }
        },
    }
}

/// Applies a tuple-construction assignment to `wp`.
fn gen_aggregate(
    wp: Expression,
    var: VariableMappingData,
    kind: AggregateKind,
    ops: &Vec<Operand>,
    data: &MirData,
) -> (r: Result<Expression, FatalError>)
    ensures
        expr_result_view(r) == spec_gen_aggregate(wp@, var@, kind, *ops, *data),
{
    match kind {
        AggregateKind::Other => Err(FatalError::UnsupportedConstruct),
        AggregateKind::Tuple => if ops.len() != 2 {
            Err(FatalError::UnsupportedConstruct)
        } else {
            match var.name {
                Name::Base(b) => {
                    let e0 = match gen_expression(&ops[0], data) {
                        Ok(e) => e,
                        Err(e) => {
                            return Err(e);
                        },
                    };
                    let t0 = match gen_ty(&ops[0], data) {
                        Ok(t) => t,
                        Err(e) => {
                            return Err(e);
                        },
                    };
                    let e1 = match gen_expression(&ops[1], data) {
                        Ok(e) => e,
                        Err(e) => {
                            return Err(e);
                        },
                    };
                    let t1 = match gen_ty(&ops[1], data) {
                        Ok(t) => t,
                        Err(e) => {
                            return Err(e);
                        },
                    };
                    let v0 = VariableMappingData {
                        name: Name::Field(b.duplicate(), 0),
                        var_type: t0,
                    };
                    let v1 = VariableMappingData { name: Name::Field(b, 1), var_type: t1 };
                    let w1 = substitute_variable_with_expression(&wp, &v0, &e0);
                    Ok(substitute_variable_with_expression(&w1, &v1, &e1))
                },
                _ => Err(FatalError::InternalInvariantViolation),
            }
        },
    }
}

/// The predicate before an assignment, given the predicate `wp` after it:
/// guards for the right-hand side's arithmetic are conjoined, and every
/// occurrence of the target is rewritten to the resolved right-hand side.
pub open spec fn spec_gen_stmt(wp: ExprView, stmt: Statement, d: MirData) -> Result<
    ExprView,
    FatalError,
> {
    match stmt {
        Statement::Other => Err(FatalError::InternalInvariantViolation),
        Statement::Assign(lval, rval) => match spec_gen_lvalue(lval, d) {
            Err(e) => Err(e),
            Ok(var) => match rval {
                Rvalue::CheckedBinaryOp(op, lop, rop) => spec_gen_checked_binop(
                    wp,
                    var,
                    op,
                    lop,
                    rop,
                    d,
                ),
                Rvalue::BinaryOp(op, lop, rop) => spec_gen_binop(wp, var, op, lop, rop, d),
                Rvalue::UnaryOp(op, vop) => spec_gen_unop(wp, var, op, vop, d),
                Rvalue::Use(operand) => match spec_gen_expression(operand, d) {
                    Err(e) => Err(e),
                    Ok(e) => Ok(spec_substitute(wp, var, e)),
                },
                Rvalue::Aggregate(kind, ops) => spec_gen_aggregate(wp, var, kind, ops, d),
                Rvalue::Cast => Ok(spec_substitute(wp, var, ExprView::Var(var))),
                Rvalue::Ref => Ok(spec_substitute(wp, var, ExprView::Var(var))),
                Rvalue::Other => Err(FatalError::UnsupportedConstruct),
            },
        },
    }
}

/// Applies the backward semantics of one statement to the accumulated
/// predicate `wp`, returning the predicate that must hold before it.
pub fn gen_stmt(wp: Expression, stmt: &Statement, data: &MirData) -> (r: Result<
    Expression,
    FatalError,
>)
    ensures
        expr_result_view(r) == spec_gen_stmt(wp@, *stmt, *data),
{
    match stmt {
        Statement::Other => Err(FatalError::InternalInvariantViolation),
        Statement::Assign(lval, rval) => {
            let var = match gen_lvalue(lval, data) {
                Ok(v) => v,
                Err(e) => {
                    return Err(e);
                },
            };
            match rval {
                Rvalue::CheckedBinaryOp(op, lop, rop) => gen_checked_binop(
                    wp,
                    var,
                    *op,
                    lop,
                    rop,
                    data,
                ),
                Rvalue::BinaryOp(op, lop, rop) => gen_binop(wp, var, *op, lop, rop, data),
                Rvalue::UnaryOp(op, vop) => gen_unop(wp, var, *op, vop, data),
                Rvalue::Use(operand) => match gen_expression(operand, data) {
                    Err(e) => Err(e),
                    Ok(e) => Ok(substitute_variable_with_expression(&wp, &var, &e)),
                },
                Rvalue::Aggregate(kind, ops) => gen_aggregate(wp, var, *kind, ops, data),
                Rvalue::Cast => {
                    let self_expr = Expression::VariableMapping(var.duplicate());
                    assert(self_expr@ == ExprView::Var(var@));
                    Ok(substitute_variable_with_expression(&wp, &var, &self_expr))
                },
                Rvalue::Ref => {
                    let self_expr = Expression::VariableMapping(var.duplicate());
                    assert(self_expr@ == ExprView::Var(var@));
                    Ok(substitute_variable_with_expression(&wp, &var, &self_expr))
                },
                Rvalue::Other => Err(FatalError::UnsupportedConstruct),
            }
        },
    }
}

/// The boolean expression a branch condition resolves to: a variable read or
/// a boolean literal; any other shape violates the assumed grammar.
pub open spec fn spec_resolve_condition(cond: Operand, d: MirData) -> Result<
    ExprView,
    FatalError,
> {
    match cond {
        Operand::Consume(l) => match spec_gen_lvalue(l, d) {
            Ok(v) => Ok(ExprView::Var(v)),
            Err(e) => Err(e),
        },
        Operand::Constant(c) => match c {
            Literal::Bool(b) => Ok(ExprView::Bool(b)),
            _ => Err(FatalError::InternalInvariantViolation),
        },
    }
}

/// Resolves the condition of a conditional branch to a boolean expression.
pub fn resolve_condition(cond: &Operand, data: &MirData) -> (r: Result<Expression, FatalError>)
    ensures
        expr_result_view(r) == spec_resolve_condition(*cond, *data),
{
    match cond {
        Operand::Consume(l) => match gen_lvalue(l, data) {
            Ok(v) => Ok(Expression::VariableMapping(v)),
            Err(e) => Err(e),
        },
        Operand::Constant(c) => match c {
            Literal::Bool(b) => Ok(Expression::BooleanLiteral(*b)),
            _ => Err(FatalError::InternalInvariantViolation),
        },
    }
}

/// The merge of two branch predicates under a condition:
/// `(cond ⇒ wp_true) ∧ (¬cond ⇒ wp_false)`.
pub open spec fn spec_branch_merge(cond: ExprView, wp_true: ExprView, wp_false: ExprView)
    -> ExprView {
    ExprView::Binary {
        op: BinaryOperator::And,
        left: Box::new(
            ExprView::Binary {
                op: BinaryOperator::Implication,
                left: Box::new(cond),
                right: Box::new(wp_true),
            },
        ),
        right: Box::new(
            ExprView::Binary {
                op: BinaryOperator::Implication,
                left: Box::new(ExprView::Unary { op: UnaryOperator::Not, e: Box::new(cond) }),
                right: Box::new(wp_false),
            },
        ),
    }
}

/// Folds a block's statements backward — last to first — through
/// [`spec_gen_stmt`], starting from the predicate `w` the terminator
/// contributed.
pub open spec fn spec_fold_stmts(stmts: Seq<Statement>, w: ExprView, d: MirData) -> Result<
    ExprView,
    FatalError,
>
    decreases stmts.len(),
{
    if stmts.len() == 0 {
        Ok(w)
    } else {
        match spec_gen_stmt(w, stmts.last(), d) {
            Err(e) => Err(e),
            Ok(w1) => spec_fold_stmts(stmts.drop_last(), w1, d),
        }
    }
}

/// The weakest precondition at the entry of block `index`, given `fuel` as a
/// bound on the length of the block path still allowed.  An acyclic graph of
/// `n` blocks has no path through more than `n` of them, so running out of
/// fuel that started at the block count detects a back-edge, which is
/// unsupported; [`lemma_fuel_irrelevant_on_forward_graph`] shows that on a
/// forward-ordered graph the fuel never matters.
pub open spec fn spec_wp_block(d: MirData, index: int, post: ExprView, fuel: nat) -> Result<
    ExprView,
    FatalError,
>
    decreases fuel,
{
    if index < 0 || index >= d.block_data@.len() {
        Err(FatalError::InternalInvariantViolation)
    } else if fuel == 0 {
        Err(FatalError::UnsupportedConstruct)
    } else {
        let b = d.block_data@[index];
        match b.terminator {
            None => Err(FatalError::InternalInvariantViolation),
            Some(t) => match t {
                Terminator::Goto { target } => match spec_wp_block(
                    d,
                    target as int,
                    post,
                    (fuel - 1) as nat,
                ) {
                    Err(e) => Err(e),
                    Ok(w) => spec_fold_stmts(b.statements@, w, d),
                },
                Terminator::Assert { target } => match spec_wp_block(
                    d,
                    target as int,
                    post,
                    (fuel - 1) as nat,
                ) {
                    Err(e) => Err(e),
                    Ok(w) => spec_fold_stmts(b.statements@, w, d),
                },
                Terminator::Return => spec_fold_stmts(b.statements@, post, d),
                Terminator::ConditionalBranch { condition, true_target, false_target } => match
                    spec_wp_block(d, true_target as int, post, (fuel - 1) as nat) {
                    Err(e) => Err(e),
                    Ok(wt) => match spec_wp_block(d, false_target as int, post, (fuel - 1) as nat) {
                        Err(e) => Err(e),
                        Ok(wf) => match spec_resolve_condition(condition, d) {
                            Err(e) => Err(e),
                            Ok(c) => spec_fold_stmts(
                                b.statements@,
                                spec_branch_merge(c, wt, wf),
                                d,
                            ),
                        },
                    },
                },
                Terminator::Call { callee } => match callee {
                    Callee::PanicMarker => Ok(ExprView::Bool(false)),
                    Callee::Other => Err(FatalError::UnsupportedConstruct),
                },
                _ => Err(FatalError::UnsupportedConstruct),
            },
        }
    }
}

/// The weakest precondition at the entry of block `index`, with fuel for the
/// longest path an acyclic graph can have.
pub open spec fn spec_wp(d: MirData, index: int, post: ExprView) -> Result<ExprView, FatalError> {
    spec_wp_block(d, index, post, d.block_data@.len() as nat)
}

/// Folds the first `n` statements of `stmts` backward into `w`.
fn fold_stmts(stmts: &Vec<Statement>, n: usize, w: Expression, data: &MirData) -> (r: Result<
    Expression,
    FatalError,
>)
    requires
        n <= stmts@.len(),
    ensures
        expr_result_view(r) == spec_fold_stmts(stmts@.take(n as int), w@, *data),
    decreases n,
{
    if n == 0 {
        Ok(w)
    } else {
        proof {
            assert(stmts@.take(n as int).last() == stmts@[n as int - 1]);
            assert(stmts@.take(n as int).drop_last() =~= stmts@.take(n as int - 1));
        }
        match gen_stmt(w, &stmts[n - 1], data) {
            Err(e) => Err(e),
            Ok(w1) => fold_stmts(stmts, n - 1, w1, data),
        }
    }
}

/// Computes the weakest precondition at the entry of block `index`, spending
/// one unit of fuel per block entered.
fn gen_block(index: usize, data: &MirData, post_expr: &Expression, fuel: usize) -> (r: Result<
    Expression,
    FatalError,
>)
    ensures
        expr_result_view(r) == spec_wp_block(*data, index as int, post_expr@, fuel as nat),
    decreases fuel,
{
    if index >= data.block_data.len() {
        return Err(FatalError::InternalInvariantViolation);
    }
    if fuel == 0 {
        return Err(FatalError::UnsupportedConstruct);
    }
    let b = &data.block_data[index];
    let w = match &b.terminator {
        None => {
            return Err(FatalError::InternalInvariantViolation);
        },
        Some(t) => match t {
            Terminator::Goto { target } => match gen_block(*target, data, post_expr, fuel - 1) {
                Err(e) => {
                    return Err(e);
                },
                Ok(w) => w,
            },
            Terminator::Assert { target } => match gen_block(*target, data, post_expr, fuel - 1) {
                Err(e) => {
                    return Err(e);
                },
                Ok(w) => w,
            },
            Terminator::Return => post_expr.duplicate(),
            Terminator::ConditionalBranch { condition, true_target, false_target } => {
                let wt = match gen_block(*true_target, data, post_expr, fuel - 1) {
                    Err(e) => {
                        return Err(e);
                    },
                    Ok(w) => w,
                };
                let wf = match gen_block(*false_target, data, post_expr, fuel - 1) {
                    Err(e) => {
                        return Err(e);
                    },
                    Ok(w) => w,
                };
                let c = match resolve_condition(condition, data) {
                    Err(e) => {
                        return Err(e);
                    },
                    Ok(c) => c,
                };
                let ghost c_v = c@;
                let ghost wt_v = wt@;
                let ghost wf_v = wf@;
                let not_c = Expression::UnaryExpression(
                    UnaryExpressionData { op: UnaryOperator::Not, e: Box::new(c.duplicate()) },
                );
                assert(not_c@ == ExprView::Unary { op: UnaryOperator::Not, e: Box::new(c_v) });
                let imp_true = Expression::BinaryExpression(
                    BinaryExpressionData {
                        op: BinaryOperator::Implication,
                        left: Box::new(c),
                        right: Box::new(wt),
                    },
                );
                assert(imp_true@ == ExprView::Binary {
                    op: BinaryOperator::Implication,
                    left: Box::new(c_v),
                    right: Box::new(wt_v),
                });
                let ghost not_c_v = not_c@;
                let imp_false = Expression::BinaryExpression(
                    BinaryExpressionData {
                        op: BinaryOperator::Implication,
                        left: Box::new(not_c),
                        right: Box::new(wf),
                    },
                );
                assert(imp_false@ == ExprView::Binary {
                    op: BinaryOperator::Implication,
                    left: Box::new(not_c_v),
                    right: Box::new(wf_v),
                });
                let ghost imp_true_v = imp_true@;
                let ghost imp_false_v = imp_false@;
                let merged = Expression::BinaryExpression(
                    BinaryExpressionData {
                        op: BinaryOperator::And,
                        left: Box::new(imp_true),
                        right: Box::new(imp_false),
                    },
                );
                assert(merged@ == ExprView::Binary {
                    op: BinaryOperator::And,
                    left: Box::new(imp_true_v),
                    right: Box::new(imp_false_v),
                });
                assert(merged@ == spec_branch_merge(c_v, wt_v, wf_v));
                merged
            },
            Terminator::Call { callee } => match callee {
                Callee::PanicMarker => {
                    return Ok(Expression::BooleanLiteral(false));
                },
                Callee::Other => {
                    return Err(FatalError::UnsupportedConstruct);
                },
            },
            Terminator::Drop
            | Terminator::DropAndReplace
            | Terminator::Resume
            | Terminator::Unreachable
            | Terminator::Switch
            | Terminator::SwitchInt => {
                return Err(FatalError::UnsupportedConstruct);
            },
        },
    };
    proof {
        assert(b.statements@.take(b.statements@.len() as int) =~= b.statements@);
    }
    fold_stmts(&b.statements, b.statements.len(), w, data)
}

/// Computes the weakest precondition for the postcondition `post_expr` at the
/// entry of block `index`: the terminator's contribution is resolved first —
/// recursing into successor blocks — and the block's statements are then
/// folded backward into it.  On any construct outside the modeled fragment
/// the whole computation is abandoned with the fatal condition met, never a
/// partial expression.
pub fn gen(index: usize, data: &MirData, post_expr: &Expression) -> (r: Result<
    Expression,
    FatalError,
>)
    ensures
        expr_result_view(r) == spec_wp(*data, index as int, post_expr@),
{
    gen_block(index, data, post_expr, data.block_data.len())
}

/// Whether a statement is a plain-read assignment whose two sides resolve.
pub open spec fn spec_is_resolvable_use(stmt: Statement, d: MirData) -> bool {
    match stmt {
        Statement::Assign(lval, rval) => match rval {
            Rvalue::Use(operand) => spec_gen_lvalue(lval, d) is Ok && spec_gen_expression(
                operand,
                d,
            ) is Ok,
            _ => false,
        },
        _ => false,
    }
}

/// The pure renaming a run of plain-read assignments performs, folded last to
/// first: each one substitutes its resolved right-hand side for its target,
/// and nothing else.
pub open spec fn spec_rename_pass(stmts: Seq<Statement>, w: ExprView, d: MirData) -> ExprView
    decreases stmts.len(),
{
    if stmts.len() == 0 {
        w
    } else {
        let w1 = match stmts.last() {
            Statement::Assign(lval, rval) => match rval {
                Rvalue::Use(operand) => match (
                    spec_gen_lvalue(lval, d),
                    spec_gen_expression(operand, d),
                ) {
                    (Ok(var), Ok(e)) => spec_substitute(w, var, e),
                    _ => w,
                },
                _ => w,
            },
            _ => w,
        };
        spec_rename_pass(stmts.drop_last(), w1, d)
    }
}

/// Folding a run of resolvable plain-read assignments never fails and adds no
/// conjunct: it is exactly the renaming pass.
pub proof fn lemma_fold_uses_is_rename(stmts: Seq<Statement>, w: ExprView, d: MirData)
    requires
        forall|i: int| 0 <= i < stmts.len() ==> #[trigger] spec_is_resolvable_use(stmts[i], d),
    ensures
        spec_fold_stmts(stmts, w, d) == Ok::<ExprView, FatalError>(spec_rename_pass(stmts, w, d)),
    decreases stmts.len(),
{
    if stmts.len() > 0 {
        assert(spec_is_resolvable_use(stmts[stmts.len() - 1], d));
        let w1 = match stmts.last() {
            Statement::Assign(lval, rval) => match rval {
                Rvalue::Use(operand) => match (
                    spec_gen_lvalue(lval, d),
                    spec_gen_expression(operand, d),
                ) {
                    (Ok(var), Ok(e)) => spec_substitute(w, var, e),
                    _ => w,
                },
                _ => w,
            },
            _ => w,
        };
        assert(spec_gen_stmt(w, stmts.last(), d) == Ok::<ExprView, FatalError>(w1));
        assert(forall|i: int|
            0 <= i < stmts.drop_last().len() ==> #[trigger] spec_is_resolvable_use(
                stmts.drop_last()[i],
                d,
            ));
        lemma_fold_uses_is_rename(stmts.drop_last(), w1, d);
    }
}

/// Straight-line passthrough: a block holding only plain-read assignments,
/// ended by a `Goto`, contributes no conjunct of its own — its weakest
/// precondition is the successor's with the assignments' renamings applied.
pub proof fn lemma_straight_line_passthrough(
    d: MirData,
    index: usize,
    post: ExprView,
    fuel: nat,
    target: usize,
    w_succ: ExprView,
)
    requires
        index < d.block_data@.len(),
        fuel > 0,
        d.block_data@[index as int].terminator == Some(Terminator::Goto { target }),
        forall|i: int|
            0 <= i < d.block_data@[index as int].statements@.len()
                ==> #[trigger] spec_is_resolvable_use(
                d.block_data@[index as int].statements@[i],
                d,
            ),
        spec_wp_block(d, target as int, post, (fuel - 1) as nat) == Ok::<ExprView, FatalError>(
            w_succ,
        ),
    ensures
        spec_wp_block(d, index as int, post, fuel) == Ok::<ExprView, FatalError>(
            spec_rename_pass(d.block_data@[index as int].statements@, w_succ, d),
        ),
{
    lemma_fold_uses_is_rename(d.block_data@[index as int].statements@, w_succ, d);
}

/// Branch merge: a block ended by a conditional branch whose successors'
/// preconditions are `p_true` and `p_false`, and whose condition resolves to
/// `c`, has exactly the precondition `(c ⇒ p_true) ∧ (¬c ⇒ p_false)` when it
/// holds no statements of its own.
pub proof fn lemma_branch_merge(
    d: MirData,
    index: usize,
    post: ExprView,
    fuel: nat,
    cond: Operand,
    true_target: usize,
    false_target: usize,
    p_true: ExprView,
    p_false: ExprView,
    c: ExprView,
)
    requires
        index < d.block_data@.len(),
        fuel > 0,
        d.block_data@[index as int].statements@.len() == 0,
        d.block_data@[index as int].terminator == Some(
            Terminator::ConditionalBranch { condition: cond, true_target, false_target },
        ),
        spec_wp_block(d, true_target as int, post, (fuel - 1) as nat) == Ok::<
            ExprView,
            FatalError,
        >(p_true),
        spec_wp_block(d, false_target as int, post, (fuel - 1) as nat) == Ok::<
            ExprView,
            FatalError,
        >(p_false),
        spec_resolve_condition(cond, d) == Ok::<ExprView, FatalError>(c),
    ensures
        spec_wp_block(d, index as int, post, fuel) == Ok::<ExprView, FatalError>(
            spec_branch_merge(c, p_true, p_false),
        ),
{
    assert(spec_fold_stmts(
        d.block_data@[index as int].statements@,
        spec_branch_merge(c, p_true, p_false),
        d,
    ) == Ok::<ExprView, FatalError>(spec_branch_merge(c, p_true, p_false)));
}

/// Panic sink: a block that calls the panic marker has the vacuous
/// precondition `false`, whatever its statements and arguments are.
pub proof fn lemma_panic_sink(d: MirData, index: usize, post: ExprView, fuel: nat)
    requires
        index < d.block_data@.len(),
        fuel > 0,
        d.block_data@[index as int].terminator == Some(
            Terminator::Call { callee: Callee::PanicMarker },
        ),
    ensures
        spec_wp_block(d, index as int, post, fuel) == Ok::<ExprView, FatalError>(
            ExprView::Bool(false),
        ),
{
}

/// Fatal on unsupported control flow: a block ended by a resource drop,
/// unwind resumption, unreachable marker, multi-way switch, or a call to
/// anything but the panic marker yields the fatal unsupported condition,
/// never an expression.
pub proof fn lemma_unsupported_terminator_fatal(d: MirData, index: usize, post: ExprView, fuel: nat)
    requires
        index < d.block_data@.len(),
        (d.block_data@[index as int].terminator == Some(Terminator::Drop)
            || d.block_data@[index as int].terminator == Some(Terminator::DropAndReplace)
            || d.block_data@[index as int].terminator == Some(Terminator::Resume)
            || d.block_data@[index as int].terminator == Some(Terminator::Unreachable)
            || d.block_data@[index as int].terminator == Some(Terminator::Switch)
            || d.block_data@[index as int].terminator == Some(Terminator::SwitchInt)
            || d.block_data@[index as int].terminator == Some(
            Terminator::Call { callee: Callee::Other },
        )),
    ensures
        spec_wp_block(d, index as int, post, fuel) == Err::<ExprView, FatalError>(
            FatalError::UnsupportedConstruct,
        ),
{
}

/// Fatal on an unsupported right-hand side: a statement assigning a heap
/// allocation, a length, or any other unmodeled value never contributes to a
/// precondition.
pub proof fn lemma_unsupported_rvalue_fatal(wp: ExprView, lval: Lvalue, d: MirData)
    ensures
        spec_gen_stmt(wp, Statement::Assign(lval, Rvalue::Other), d) is Err,
{
}

/// Whether every control transfer out of block `i` goes to a block after it.
pub open spec fn spec_targets_beyond(b: BasicBlock, i: int) -> bool {
    match b.terminator {
        Some(Terminator::Goto { target }) => target > i,
        Some(Terminator::Assert { target }) => target > i,
        Some(
            Terminator::ConditionalBranch { true_target, false_target, .. },
        ) => true_target > i && false_target > i,
        _ => true,
    }
}

/// Whether the graph is forward-ordered: every edge leads to a higher block
/// index, the usual witness that it is acyclic.
pub open spec fn spec_forward_ordered(d: MirData) -> bool {
    forall|i: int|
        0 <= i < d.block_data@.len() ==> #[trigger] spec_targets_beyond(d.block_data@[i], i)
}

/// On a forward-ordered graph, any fuel of at least the number of blocks
/// still ahead gives the same result: fuel can only run out on a back-edge,
/// so the computed precondition does not depend on it.
pub proof fn lemma_fuel_irrelevant_on_forward_graph(
    d: MirData,
    index: usize,
    post: ExprView,
    fuel1: nat,
    fuel2: nat,
)
    requires
        spec_forward_ordered(d),
        fuel1 >= d.block_data@.len() - index,
        fuel2 >= d.block_data@.len() - index,
    ensures
        spec_wp_block(d, index as int, post, fuel1) == spec_wp_block(d, index as int, post, fuel2),
    decreases d.block_data@.len() - index,
{
    if index < d.block_data@.len() {
        assert(spec_targets_beyond(d.block_data@[index as int], index as int));
        match d.block_data@[index as int].terminator {
            Some(Terminator::Goto { target }) => {
                if target < d.block_data@.len() {
                    lemma_fuel_irrelevant_on_forward_graph(
                        d,
                        target,
                        post,
                        (fuel1 - 1) as nat,
                        (fuel2 - 1) as nat,
                    );
                }
            },
            Some(Terminator::Assert { target }) => {
                if target < d.block_data@.len() {
                    lemma_fuel_irrelevant_on_forward_graph(
                        d,
                        target,
                        post,
                        (fuel1 - 1) as nat,
                        (fuel2 - 1) as nat,
                    );
                }
            },
            Some(Terminator::ConditionalBranch { true_target, false_target, .. }) => {
                if true_target < d.block_data@.len() {
                    lemma_fuel_irrelevant_on_forward_graph(
                        d,
                        true_target,
                        post,
                        (fuel1 - 1) as nat,
                        (fuel2 - 1) as nat,
                    );
                }
                if false_target < d.block_data@.len() {
                    lemma_fuel_irrelevant_on_forward_graph(
                        d,
                        false_target,
                        post,
                        (fuel1 - 1) as nat,
                        (fuel2 - 1) as nat,
                    );
                }
            },
            _ => {},
        }
    }
}

/// Fatal on a direct back-edge: a block that jumps to itself exhausts any
/// amount of fuel, so the computation always reports the unsupported
/// condition rather than recursing forever.
pub proof fn lemma_self_loop_fatal(d: MirData, index: usize, post: ExprView, fuel: nat)
    requires
        index < d.block_data@.len(),
        d.block_data@[index as int].terminator == Some(Terminator::Goto { target: index }),
    ensures
        spec_wp_block(d, index as int, post, fuel) is Err,
    decreases fuel,
{
    if fuel > 0 {
        lemma_self_loop_fatal(d, index, post, (fuel - 1) as nat);
    }
}

/// Whether the graph has a control-flow edge from block `from` to block
/// `to`: the walker follows exactly these when it recurses.
pub open spec fn spec_is_edge(d: MirData, from: usize, to: usize) -> bool {
    from < d.block_data@.len() && match d.block_data@[from as int].terminator {
        Some(Terminator::Goto { target }) => to == target,
        Some(Terminator::Assert { target }) => to == target,
        Some(
            Terminator::ConditionalBranch { true_target, false_target, .. },
        ) => to == true_target || to == false_target,
        _ => false,
    }
}

/// Whether `p` is a walk through the graph: nonempty, each step an edge.
pub open spec fn spec_is_walk(d: MirData, p: Seq<usize>) -> bool {
    p.len() >= 1 && (forall|i: int, i2: int|
        0 <= i && i2 == i + 1 && i2 < p.len() ==> #[trigger] spec_is_edge(d, p[i], p[i2]))
}

/// A successful computation bounds every walk out of its block: with `fuel`
/// fuel, an expression comes back only if no walk from the block passes
/// through more than `fuel` blocks.
pub proof fn lemma_ok_bounds_walk(d: MirData, post: ExprView, fuel: nat, p: Seq<usize>)
    requires
        spec_is_walk(d, p),
        spec_wp_block(d, p[0] as int, post, fuel) is Ok,
    ensures
        p.len() <= fuel,
    decreases p.len(),
{
    assert(p[0] < d.block_data@.len());
    assert(fuel > 0);
    if p.len() > 1 {
        assert(spec_is_edge(d, p[0], p[1]));
        assert(spec_wp_block(d, p[1] as int, post, (fuel - 1) as nat) is Ok);
        let tail = p.skip(1);
        assert forall|i: int, i2: int|
            0 <= i && i2 == i + 1 && i2 < tail.len() implies #[trigger] spec_is_edge(
            d,
            tail[i],
            tail[i2],
        ) by {
            assert(tail[i] == p[i + 1]);
            assert(tail[i2] == p[i + 2]);
            assert(spec_is_edge(d, p[i + 1], p[i + 2]));
        }
        assert(tail[0] == p[1]);
        lemma_ok_bounds_walk(d, post, (fuel - 1) as nat, tail);
    }
}

/// Gluing a walk's tail back on at a revisited block gives a longer walk
/// from the same block that revisits it at the same two places.
proof fn lemma_pump_walk(d: MirData, p: Seq<usize>, j: int, k: int)
    requires
        spec_is_walk(d, p),
        0 <= j < k < p.len(),
        p[j] == p[k],
    ensures
        spec_is_walk(d, p.take(k) + p.skip(j)),
        (p.take(k) + p.skip(j)).len() == p.len() + k - j,
        (p.take(k) + p.skip(j))[0] == p[0],
        (p.take(k) + p.skip(j))[j] == p[j],
        (p.take(k) + p.skip(j))[k] == (p.take(k) + p.skip(j))[j],
{
    let q = p.take(k) + p.skip(j);
    assert(q.len() == p.len() + k - j);
    assert forall|i: int, i2: int|
        0 <= i && i2 == i + 1 && i2 < q.len() implies #[trigger] spec_is_edge(d, q[i], q[i2]) by {
        if i < k - 1 {
            assert(q[i] == p[i]);
            assert(q[i2] == p[i + 1]);
            assert(spec_is_edge(d, p[i], p[i + 1]));
        } else if i == k - 1 {
            assert(q[i] == p[k - 1]);
            assert(q[i2] == p.skip(j)[0]);
            assert(q[i2] == p[j]);
            assert(spec_is_edge(d, p[k - 1], p[k]));
        } else {
            assert(q[i] == p.skip(j)[i - k]);
            assert(q[i] == p[i - k + j]);
            assert(q[i2] == p[i - k + j + 1]);
            assert(spec_is_edge(d, p[i - k + j], p[i - k + j + 1]));
        }
    }
    assert(q[0] == p[0]);
    assert(q[j] == p[j]);
    assert(q[k] == p.skip(j)[k - k]);
    assert(q[k] == p[j]);
}

/// A walk that revisits a block can be pumped to any length.
proof fn lemma_cycle_walk_of_any_length(d: MirData, p: Seq<usize>, j: int, k: int, n: int)
    requires
        spec_is_walk(d, p),
        0 <= j < k < p.len(),
        p[j] == p[k],
    ensures
        exists|q: Seq<usize>|
            spec_is_walk(d, q) && q[0] == p[0] && #[trigger] q.len() >= n,
    decreases vstd::math::max(n - p.len(), 0),
{
    if p.len() >= n {
        assert(spec_is_walk(d, p) && p[0] == p[0] && p.len() >= n);
    } else {
        let q = p.take(k) + p.skip(j);
        lemma_pump_walk(d, p, j, k);
        lemma_cycle_walk_of_any_length(d, q, j, k, n);
        let longer = choose|r: Seq<usize>|
            spec_is_walk(d, r) && r[0] == q[0] && #[trigger] r.len() >= n;
        assert(longer[0] == p[0]);
        assert(spec_is_walk(d, longer) && longer[0] == p[0] && longer.len() >= n);
    }
}

/// Fatal on any reachable back-edge: a walk from a block that revisits some
/// block — the general shape of a loop — can be pumped past any fuel, so the
/// computation from that block never returns an expression, whatever the
/// fuel.  Together with [`lemma_ok_bounds_walk`] this is the loop half of
/// refusing what the generator cannot model.
pub proof fn lemma_reachable_back_edge_fatal(
    d: MirData,
    post: ExprView,
    fuel: nat,
    p: Seq<usize>,
    j: int,
    k: int,
)
    requires
        spec_is_walk(d, p),
        0 <= j < k < p.len(),
        p[j] == p[k],
    ensures
        spec_wp_block(d, p[0] as int, post, fuel) is Err,
{
    if spec_wp_block(d, p[0] as int, post, fuel) is Ok {
        lemma_cycle_walk_of_any_length(d, p, j, k, fuel as int + 1);
        let q = choose|q: Seq<usize>|
            spec_is_walk(d, q) && q[0] == p[0] && #[trigger] q.len() >= fuel as int + 1;
        lemma_ok_bounds_walk(d, post, fuel, q);
    }
}

} // verus!
