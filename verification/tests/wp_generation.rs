//! Tests of the generator over whole control-flow graphs: guard synthesis,
//! branch merging, the panic sink, fatal conditions, and one function
//! end to end.

use wpgen::expression::{
    BaseName, BinaryExpressionData, BinaryOperator, Expression, FatalError, Name,
    SignedBitVectorData, Types, UnaryExpressionData, UnaryOperator, UnsignedBitVectorData,
    VariableMappingData,
};
use wpgen::mir::{
    AggregateKind, ArgDecl, BasicBlock, BinOp, Callee, DeclaredType, Literal, Lvalue, MirData,
    Operand, ProjectionData, ProjectionElem, Rvalue, Statement, TempDecl, Terminator, VarDecl,
};
use wpgen::weakest_precondition::gen;

fn var(name: &str, t: Types) -> Expression {
    Expression::VariableMapping(VariableMappingData {
        name: Name::Base(BaseName::Named(name.to_string())),
        var_type: t,
    })
}

fn tmp_var(i: usize, t: Types) -> Expression {
    Expression::VariableMapping(VariableMappingData {
        name: Name::Base(BaseName::Tmp(i)),
        var_type: t,
    })
}

fn field_var(base: BaseName, field: usize, t: Types) -> Expression {
    Expression::VariableMapping(VariableMappingData {
        name: Name::Field(base, field),
        var_type: t,
    })
}

fn ret_var(t: Types) -> Expression {
    Expression::VariableMapping(VariableMappingData { name: Name::Ret, var_type: t })
}

fn sbv(size: u8, value: i64) -> Expression {
    Expression::SignedBitVector(SignedBitVectorData { size, value })
}

fn ubv(size: u8, value: u64) -> Expression {
    Expression::UnsignedBitVector(UnsignedBitVectorData { size, value })
}

fn bin(op: BinaryOperator, left: Expression, right: Expression) -> Expression {
    Expression::BinaryExpression(BinaryExpressionData {
        op,
        left: Box::new(left),
        right: Box::new(right),
    })
}

fn un(op: UnaryOperator, e: Expression) -> Expression {
    Expression::UnaryExpression(UnaryExpressionData { op, e: Box::new(e) })
}

fn arg(name: &str, ty: &str) -> ArgDecl {
    ArgDecl { name: name.to_string(), ty: DeclaredType::Simple(ty.to_string()) }
}

fn temp(ty: &str) -> TempDecl {
    TempDecl { ty: DeclaredType::Simple(ty.to_string()) }
}

fn temp_pair(ty0: &str, ty1: &str) -> TempDecl {
    TempDecl { ty: DeclaredType::Tuple(vec![ty0.to_string(), ty1.to_string()]) }
}

fn block(statements: Vec<Statement>, terminator: Terminator) -> BasicBlock {
    BasicBlock { statements, terminator: Some(terminator) }
}

fn consume_arg(i: usize) -> Operand {
    Operand::Consume(Lvalue::Arg(i))
}

fn mir(
    args: Vec<ArgDecl>,
    temps: Vec<TempDecl>,
    vars: Vec<VarDecl>,
    ret: Types,
    blocks: Vec<BasicBlock>,
) -> MirData {
    MirData {
        arg_data: args,
        temp_data: temps,
        var_data: vars,
        func_return_type: ret,
        block_data: blocks,
    }
}

#[test]
fn goto_and_return_pass_the_postcondition_through() {
    let d = mir(
        vec![],
        vec![],
        vec![],
        Types::I32,
        vec![
            block(vec![], Terminator::Goto { target: 1 }),
            block(vec![], Terminator::Return),
        ],
    );
    let post = bin(BinaryOperator::GreaterThan, var("x", Types::I32), sbv(32, 0));
    let got = gen(0, &d, &post).unwrap();
    assert_eq!(got, bin(BinaryOperator::GreaterThan, var("x", Types::I32), sbv(32, 0)));
}

#[test]
fn return_block_statements_are_folded() {
    // ret := x; return — in one block: the postcondition over the return
    // slot reaches x before the postcondition is handed back.
    let d = mir(
        vec![arg("x", "i32")],
        vec![],
        vec![],
        Types::I32,
        vec![block(
            vec![Statement::Assign(Lvalue::ReturnPointer, Rvalue::Use(consume_arg(0)))],
            Terminator::Return,
        )],
    );
    let post = bin(BinaryOperator::GreaterThanOrEqual, ret_var(Types::I32), sbv(32, 0));
    let got = gen(0, &d, &post).unwrap();
    assert_eq!(
        got,
        bin(BinaryOperator::GreaterThanOrEqual, var("x", Types::I32), sbv(32, 0))
    );
}

#[test]
fn assert_terminator_acts_like_goto() {
    let d = mir(
        vec![],
        vec![],
        vec![],
        Types::I32,
        vec![
            block(vec![], Terminator::Assert { target: 1 }),
            block(vec![], Terminator::Return),
        ],
    );
    let post = Expression::BooleanLiteral(true);
    let got = gen(0, &d, &post).unwrap();
    assert_eq!(got, Expression::BooleanLiteral(true));
}

#[test]
fn straight_line_passthrough_renames_without_conjuncts() {
    // var0 := x; goto return.  The successor's precondition comes back with
    // var0 renamed to x and nothing added.
    let d = mir(
        vec![arg("x", "i32")],
        vec![],
        vec![VarDecl { ty: DeclaredType::Simple("i32".to_string()) }],
        Types::I32,
        vec![
            block(
                vec![Statement::Assign(Lvalue::Var(0), Rvalue::Use(consume_arg(0)))],
                Terminator::Goto { target: 1 },
            ),
            block(vec![], Terminator::Return),
        ],
    );
    let local0 = Expression::VariableMapping(VariableMappingData {
        name: Name::Base(BaseName::Local(0)),
        var_type: Types::I32,
    });
    let post = bin(BinaryOperator::GreaterThan, local0, sbv(32, 0));
    let got = gen(0, &d, &post).unwrap();
    assert_eq!(got, bin(BinaryOperator::GreaterThan, var("x", Types::I32), sbv(32, 0)));
}

#[test]
fn signed_checked_addition_conjoins_both_bounds() {
    // tmp0 := checked a + b over i32, postcondition true.
    let d = mir(
        vec![arg("a", "i32"), arg("b", "i32")],
        vec![temp_pair("i32", "bool")],
        vec![],
        Types::I32,
        vec![
            block(
                vec![Statement::Assign(
                    Lvalue::Temp(0),
                    Rvalue::CheckedBinaryOp(BinOp::Add, consume_arg(0), consume_arg(1)),
                )],
                Terminator::Goto { target: 1 },
            ),
            block(vec![], Terminator::Return),
        ],
    );
    let post = Expression::BooleanLiteral(true);
    let got = gen(0, &d, &post).unwrap();
    let sum = || {
        bin(
            BinaryOperator::Addition,
            var("a", Types::I32),
            var("b", Types::I32),
        )
    };
    let expected = bin(
        BinaryOperator::And,
        Expression::BooleanLiteral(true),
        bin(
            BinaryOperator::And,
            bin(BinaryOperator::LessThanOrEqual, sum(), sbv(32, 2147483647)),
            bin(BinaryOperator::GreaterThanOrEqual, sum(), sbv(32, -2147483648)),
        ),
    );
    assert_eq!(got, expected);
}

#[test]
fn unsigned_division_conjoins_only_the_zero_check() {
    // tmp0 := a / b over u8: exactly b != 0, no overflow bounds.
    let d = mir(
        vec![arg("a", "u8"), arg("b", "u8")],
        vec![temp("u8")],
        vec![],
        Types::U8,
        vec![
            block(
                vec![Statement::Assign(
                    Lvalue::Temp(0),
                    Rvalue::BinaryOp(BinOp::Div, consume_arg(0), consume_arg(1)),
                )],
                Terminator::Goto { target: 1 },
            ),
            block(vec![], Terminator::Return),
        ],
    );
    let post = Expression::BooleanLiteral(true);
    let got = gen(0, &d, &post).unwrap();
    let expected = bin(
        BinaryOperator::And,
        Expression::BooleanLiteral(true),
        bin(BinaryOperator::NotEqual, var("b", Types::U8), ubv(8, 0)),
    );
    assert_eq!(got, expected);
}

#[test]
fn signed_division_conjoins_zero_check_and_bounds() {
    // tmp0 := a / b over i32: b != 0 plus the overflow bound pair.
    let d = mir(
        vec![arg("a", "i32"), arg("b", "i32")],
        vec![temp("i32")],
        vec![],
        Types::I32,
        vec![
            block(
                vec![Statement::Assign(
                    Lvalue::Temp(0),
                    Rvalue::BinaryOp(BinOp::Div, consume_arg(0), consume_arg(1)),
                )],
                Terminator::Goto { target: 1 },
            ),
            block(vec![], Terminator::Return),
        ],
    );
    let post = Expression::BooleanLiteral(true);
    let got = gen(0, &d, &post).unwrap();
    let quotient = || {
        bin(
            BinaryOperator::Division,
            var("a", Types::I32),
            var("b", Types::I32),
        )
    };
    let with_bounds = bin(
        BinaryOperator::And,
        Expression::BooleanLiteral(true),
        bin(
            BinaryOperator::And,
            bin(BinaryOperator::LessThanOrEqual, quotient(), sbv(32, 2147483647)),
            bin(BinaryOperator::GreaterThanOrEqual, quotient(), sbv(32, -2147483648)),
        ),
    );
    let expected = bin(
        BinaryOperator::And,
        with_bounds,
        bin(BinaryOperator::NotEqual, var("b", Types::I32), sbv(32, 0)),
    );
    assert_eq!(got, expected);
}

#[test]
fn branch_merge_combines_both_paths() {
    // if c { return } else { return }  gives  (c => post) and (!c => post).
    let d = mir(
        vec![arg("c", "bool")],
        vec![],
        vec![],
        Types::I32,
        vec![
            block(
                vec![],
                Terminator::ConditionalBranch {
                    condition: consume_arg(0),
                    true_target: 1,
                    false_target: 2,
                },
            ),
            block(vec![], Terminator::Return),
            block(vec![], Terminator::Return),
        ],
    );
    let post = || bin(BinaryOperator::Equal, var("y", Types::I32), sbv(32, 3));
    let got = gen(0, &d, &post()).unwrap();
    let expected = bin(
        BinaryOperator::And,
        bin(BinaryOperator::Implication, var("c", Types::Bool), post()),
        bin(
            BinaryOperator::Implication,
            un(UnaryOperator::Not, var("c", Types::Bool)),
            post(),
        ),
    );
    assert_eq!(got, expected);
}

#[test]
fn branch_on_boolean_literal_condition() {
    let d = mir(
        vec![],
        vec![],
        vec![],
        Types::I32,
        vec![
            block(
                vec![],
                Terminator::ConditionalBranch {
                    condition: Operand::Constant(Literal::Bool(true)),
                    true_target: 1,
                    false_target: 2,
                },
            ),
            block(vec![], Terminator::Return),
            block(vec![], Terminator::Return),
        ],
    );
    let post = || Expression::BooleanLiteral(true);
    let got = gen(0, &d, &post()).unwrap();
    let expected = bin(
        BinaryOperator::And,
        bin(
            BinaryOperator::Implication,
            Expression::BooleanLiteral(true),
            post(),
        ),
        bin(
            BinaryOperator::Implication,
            un(UnaryOperator::Not, Expression::BooleanLiteral(true)),
            post(),
        ),
    );
    assert_eq!(got, expected);
}

#[test]
fn panic_sink_yields_false_whatever_the_block_holds() {
    let d = mir(
        vec![arg("x", "i32")],
        vec![temp("i32")],
        vec![],
        Types::I32,
        vec![block(
            vec![Statement::Assign(Lvalue::Temp(0), Rvalue::Ref)],
            Terminator::Call { callee: Callee::PanicMarker },
        )],
    );
    let post = bin(BinaryOperator::GreaterThan, var("x", Types::I32), sbv(32, 0));
    let got = gen(0, &d, &post).unwrap();
    assert_eq!(got, Expression::BooleanLiteral(false));
}

#[test]
fn non_panic_call_is_fatal() {
    let d = mir(
        vec![],
        vec![],
        vec![],
        Types::I32,
        vec![block(vec![], Terminator::Call { callee: Callee::Other })],
    );
    let got = gen(0, &d, &Expression::BooleanLiteral(true));
    assert_eq!(got, Err(FatalError::UnsupportedConstruct));
}

#[test]
fn multiway_switch_is_fatal() {
    for t in [Terminator::Switch, Terminator::SwitchInt] {
        let d = mir(vec![], vec![], vec![], Types::I32, vec![block(vec![], t)]);
        let got = gen(0, &d, &Expression::BooleanLiteral(true));
        assert_eq!(got, Err(FatalError::UnsupportedConstruct));
    }
}

#[test]
fn drop_and_resume_terminators_are_fatal() {
    for t in [
        Terminator::Drop,
        Terminator::DropAndReplace,
        Terminator::Resume,
        Terminator::Unreachable,
    ] {
        let d = mir(vec![], vec![], vec![], Types::I32, vec![block(vec![], t)]);
        let got = gen(0, &d, &Expression::BooleanLiteral(true));
        assert_eq!(got, Err(FatalError::UnsupportedConstruct));
    }
}

#[test]
fn loop_back_edge_is_fatal() {
    let d = mir(
        vec![],
        vec![],
        vec![],
        Types::I32,
        vec![
            block(vec![], Terminator::Goto { target: 1 }),
            block(vec![], Terminator::Goto { target: 0 }),
        ],
    );
    let got = gen(0, &d, &Expression::BooleanLiteral(true));
    assert_eq!(got, Err(FatalError::UnsupportedConstruct));
}

#[test]
fn unsupported_rvalue_is_fatal() {
    let d = mir(
        vec![],
        vec![temp("u8")],
        vec![],
        Types::U8,
        vec![
            block(
                vec![Statement::Assign(Lvalue::Temp(0), Rvalue::Other)],
                Terminator::Goto { target: 1 },
            ),
            block(vec![], Terminator::Return),
        ],
    );
    let got = gen(0, &d, &Expression::BooleanLiteral(true));
    assert_eq!(got, Err(FatalError::UnsupportedConstruct));
}

#[test]
fn non_tuple_aggregate_is_fatal() {
    let d = mir(
        vec![arg("a", "i32")],
        vec![temp("i32")],
        vec![],
        Types::I32,
        vec![
            block(
                vec![Statement::Assign(
                    Lvalue::Temp(0),
                    Rvalue::Aggregate(AggregateKind::Other, vec![consume_arg(0)]),
                )],
                Terminator::Goto { target: 1 },
            ),
            block(vec![], Terminator::Return),
        ],
    );
    let got = gen(0, &d, &Expression::BooleanLiteral(true));
    assert_eq!(got, Err(FatalError::UnsupportedConstruct));
}

#[test]
fn missing_terminator_is_fatal() {
    let d = mir(
        vec![],
        vec![],
        vec![],
        Types::I32,
        vec![BasicBlock { statements: vec![], terminator: None }],
    );
    let got = gen(0, &d, &Expression::BooleanLiteral(true));
    assert_eq!(got, Err(FatalError::InternalInvariantViolation));
}

#[test]
fn block_index_out_of_range_is_fatal() {
    let d = mir(vec![], vec![], vec![], Types::I32, vec![]);
    let got = gen(0, &d, &Expression::BooleanLiteral(true));
    assert_eq!(got, Err(FatalError::InternalInvariantViolation));
}

#[test]
fn non_assignment_statement_is_fatal() {
    let d = mir(
        vec![],
        vec![],
        vec![],
        Types::I32,
        vec![
            block(vec![Statement::Other], Terminator::Goto { target: 1 }),
            block(vec![], Terminator::Return),
        ],
    );
    let got = gen(0, &d, &Expression::BooleanLiteral(true));
    assert_eq!(got, Err(FatalError::InternalInvariantViolation));
}

#[test]
fn integer_condition_is_fatal() {
    let d = mir(
        vec![],
        vec![],
        vec![],
        Types::I32,
        vec![
            block(
                vec![],
                Terminator::ConditionalBranch {
                    condition: Operand::Constant(Literal::I32(1)),
                    true_target: 1,
                    false_target: 2,
                },
            ),
            block(vec![], Terminator::Return),
            block(vec![], Terminator::Return),
        ],
    );
    let got = gen(0, &d, &Expression::BooleanLiteral(true));
    assert_eq!(got, Err(FatalError::InternalInvariantViolation));
}

#[test]
fn unknown_declared_type_is_fatal() {
    let d = mir(
        vec![arg("x", "isize")],
        vec![],
        vec![VarDecl { ty: DeclaredType::Simple("i32".to_string()) }],
        Types::I32,
        vec![
            block(
                vec![Statement::Assign(Lvalue::Var(0), Rvalue::Use(consume_arg(0)))],
                Terminator::Goto { target: 1 },
            ),
            block(vec![], Terminator::Return),
        ],
    );
    let got = gen(0, &d, &Expression::BooleanLiteral(true));
    assert_eq!(got, Err(FatalError::TypeResolutionError));
}

#[test]
fn cast_is_identity() {
    let d = mir(
        vec![arg("a", "i64")],
        vec![temp("i32")],
        vec![],
        Types::I32,
        vec![
            block(
                vec![Statement::Assign(Lvalue::Temp(0), Rvalue::Cast)],
                Terminator::Goto { target: 1 },
            ),
            block(vec![], Terminator::Return),
        ],
    );
    let post = || bin(BinaryOperator::GreaterThan, tmp_var(0, Types::I32), sbv(32, 0));
    let got = gen(0, &d, &post()).unwrap();
    assert_eq!(got, post());
}

#[test]
fn tuple_aggregate_fills_both_fields() {
    // tmp0 := (a, b); a postcondition over tmp0.0 and tmp0.1 reaches a and b.
    let d = mir(
        vec![arg("a", "i32"), arg("b", "i32")],
        vec![temp_pair("i32", "i32")],
        vec![],
        Types::I32,
        vec![
            block(
                vec![Statement::Assign(
                    Lvalue::Temp(0),
                    Rvalue::Aggregate(AggregateKind::Tuple, vec![consume_arg(0), consume_arg(1)]),
                )],
                Terminator::Goto { target: 1 },
            ),
            block(vec![], Terminator::Return),
        ],
    );
    let post = bin(
        BinaryOperator::Equal,
        field_var(BaseName::Tmp(0), 0, Types::I32),
        field_var(BaseName::Tmp(0), 1, Types::I32),
    );
    let got = gen(0, &d, &post).unwrap();
    let expected = bin(
        BinaryOperator::Equal,
        var("a", Types::I32),
        var("b", Types::I32),
    );
    assert_eq!(got, expected);
}

#[test]
fn projection_reads_the_tuple_element() {
    // ret := tmp0.0 where tmp0 is the pair of a checked operation.
    let d = mir(
        vec![],
        vec![temp_pair("i32", "bool")],
        vec![],
        Types::I32,
        vec![
            block(
                vec![Statement::Assign(
                    Lvalue::ReturnPointer,
                    Rvalue::Use(Operand::Consume(Lvalue::Projection(ProjectionData {
                        base: Box::new(Lvalue::Temp(0)),
                        elem: ProjectionElem::Field(0),
                    }))),
                )],
                Terminator::Goto { target: 1 },
            ),
            block(vec![], Terminator::Return),
        ],
    );
    let post = bin(BinaryOperator::GreaterThanOrEqual, ret_var(Types::I32), sbv(32, 0));
    let got = gen(0, &d, &post).unwrap();
    let expected = bin(
        BinaryOperator::GreaterThanOrEqual,
        field_var(BaseName::Tmp(0), 0, Types::I32),
        sbv(32, 0),
    );
    assert_eq!(got, expected);
}

#[test]
fn complement_follows_the_operand_type() {
    // var0 := !c (boolean) and var1 := !a (integer) pick different operators.
    let d = mir(
        vec![arg("c", "bool"), arg("a", "u8")],
        vec![],
        vec![
            VarDecl { ty: DeclaredType::Simple("bool".to_string()) },
            VarDecl { ty: DeclaredType::Simple("u8".to_string()) },
        ],
        Types::Bool,
        vec![
            block(
                vec![
                    Statement::Assign(Lvalue::Var(0), Rvalue::UnaryOp(wpgen::mir::UnOp::Not, consume_arg(0))),
                    Statement::Assign(Lvalue::Var(1), Rvalue::UnaryOp(wpgen::mir::UnOp::Not, consume_arg(1))),
                ],
                Terminator::Goto { target: 1 },
            ),
            block(vec![], Terminator::Return),
        ],
    );
    let local = |i: usize, t: Types| {
        Expression::VariableMapping(VariableMappingData {
            name: Name::Base(BaseName::Local(i)),
            var_type: t,
        })
    };
    let post = bin(
        BinaryOperator::And,
        local(0, Types::Bool),
        bin(BinaryOperator::Equal, local(1, Types::U8), ubv(8, 0)),
    );
    let got = gen(0, &d, &post).unwrap();
    let expected = bin(
        BinaryOperator::And,
        un(UnaryOperator::Not, var("c", Types::Bool)),
        bin(
            BinaryOperator::Equal,
            un(UnaryOperator::BitwiseNot, var("a", Types::U8)),
            ubv(8, 0),
        ),
    );
    assert_eq!(got, expected);
}

fn assert_sub_mir() -> MirData {
    // f(x: i32) -> i32 { assert(x > 0); x - 1 } with a checked subtraction.
    mir(
        vec![arg("x", "i32")],
        vec![temp("bool"), temp_pair("i32", "bool")],
        vec![],
        Types::I32,
        vec![
            block(
                vec![Statement::Assign(
                    Lvalue::Temp(0),
                    Rvalue::BinaryOp(BinOp::Gt, consume_arg(0), Operand::Constant(Literal::I32(0))),
                )],
                Terminator::ConditionalBranch {
                    condition: Operand::Consume(Lvalue::Temp(0)),
                    true_target: 1,
                    false_target: 2,
                },
            ),
            block(
                vec![
                    Statement::Assign(
                        Lvalue::Temp(1),
                        Rvalue::CheckedBinaryOp(
                            BinOp::Sub,
                            consume_arg(0),
                            Operand::Constant(Literal::I32(1)),
                        ),
                    ),
                    Statement::Assign(
                        Lvalue::ReturnPointer,
                        Rvalue::Use(Operand::Consume(Lvalue::Projection(ProjectionData {
                            base: Box::new(Lvalue::Temp(1)),
                            elem: ProjectionElem::Field(0),
                        }))),
                    ),
                ],
                Terminator::Goto { target: 3 },
            ),
            block(vec![], Terminator::Call { callee: Callee::PanicMarker }),
            block(vec![], Terminator::Return),
        ],
    )
}

#[test]
fn end_to_end_wp_of_assert_then_decrement() {
    let d = assert_sub_mir();
    let post = bin(BinaryOperator::GreaterThanOrEqual, ret_var(Types::I32), sbv(32, 0));
    let got = gen(0, &d, &post).unwrap();
    let guard = || bin(BinaryOperator::GreaterThan, var("x", Types::I32), sbv(32, 0));
    let diff = || {
        bin(
            BinaryOperator::Subtraction,
            var("x", Types::I32),
            sbv(32, 1),
        )
    };
    let then_branch = bin(
        BinaryOperator::And,
        bin(BinaryOperator::GreaterThanOrEqual, diff(), sbv(32, 0)),
        bin(
            BinaryOperator::And,
            bin(BinaryOperator::LessThanOrEqual, diff(), sbv(32, 2147483647)),
            bin(BinaryOperator::GreaterThanOrEqual, diff(), sbv(32, -2147483648)),
        ),
    );
    let expected = bin(
        BinaryOperator::And,
        bin(BinaryOperator::Implication, guard(), then_branch),
        bin(
            BinaryOperator::Implication,
            un(UnaryOperator::Not, guard()),
            Expression::BooleanLiteral(false),
        ),
    );
    assert_eq!(got, expected);
}

#[derive(Clone, Copy, Debug, PartialEq)]
enum Val {
    B(bool),
    I(i64),
}

/// A small direct evaluator standing in for the solver: the only variable it
/// knows is `x`.
fn eval(e: &Expression, x: i64) -> Val {
    match e {
        Expression::BooleanLiteral(b) => Val::B(*b),
        Expression::SignedBitVector(s) => Val::I(s.value),
        Expression::UnsignedBitVector(u) => Val::I(u.value as i64),
        Expression::VariableMapping(v) => match &v.name {
            Name::Base(BaseName::Named(n)) if n == "x" => Val::I(x),
            _ => panic!("unexpected variable"),
        },
        Expression::UnaryExpression(u) => match (u.op, eval(&u.e, x)) {
            (UnaryOperator::Not, Val::B(b)) => Val::B(!b),
            (UnaryOperator::Negation, Val::I(i)) => Val::I(-i),
            _ => panic!("unsupported unary evaluation"),
        },
        Expression::BinaryExpression(b) => {
            let l = eval(&b.left, x);
            let r = eval(&b.right, x);
            match (b.op, l, r) {
                (BinaryOperator::And, Val::B(p), Val::B(q)) => Val::B(p && q),
                (BinaryOperator::Or, Val::B(p), Val::B(q)) => Val::B(p || q),
                (BinaryOperator::Implication, Val::B(p), Val::B(q)) => Val::B(!p || q),
                (BinaryOperator::Addition, Val::I(p), Val::I(q)) => Val::I(p + q),
                (BinaryOperator::Subtraction, Val::I(p), Val::I(q)) => Val::I(p - q),
                (BinaryOperator::GreaterThan, Val::I(p), Val::I(q)) => Val::B(p > q),
                (BinaryOperator::GreaterThanOrEqual, Val::I(p), Val::I(q)) => Val::B(p >= q),
                (BinaryOperator::LessThan, Val::I(p), Val::I(q)) => Val::B(p < q),
                (BinaryOperator::LessThanOrEqual, Val::I(p), Val::I(q)) => Val::B(p <= q),
                (BinaryOperator::Equal, Val::I(p), Val::I(q)) => Val::B(p == q),
                (BinaryOperator::NotEqual, Val::I(p), Val::I(q)) => Val::B(p != q),
                _ => panic!("unsupported binary evaluation"),
            }
        }
    }
}

#[test]
fn end_to_end_precondition_entails_the_wp() {
    // With the stated precondition x > 0, the negation of the generated
    // precondition is never satisfied: checked at the boundaries and a sweep
    // of representative points, standing in for the solver's validity check.
    let d = assert_sub_mir();
    let post = bin(BinaryOperator::GreaterThanOrEqual, ret_var(Types::I32), sbv(32, 0));
    let wp = gen(0, &d, &post).unwrap();
    let samples: Vec<i64> = vec![
        i32::MIN as i64,
        -1000,
        -1,
        0,
        1,
        2,
        3,
        1000,
        i32::MAX as i64 - 1,
        i32::MAX as i64,
    ];
    for x in samples {
        let pre = x > 0;
        let holds = match eval(&wp, x) {
            Val::B(b) => b,
            Val::I(_) => panic!("the precondition is boolean"),
        };
        // pre && !wp must be unsatisfiable.
        assert!(!(pre && !holds), "counterexample at x = {}", x);
    }
}
