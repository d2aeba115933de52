//! The logic-expression tree that weakest preconditions are built from,
//! together with the semantic-type resolver and the substitution engine.

use vstd::prelude::*;
use vstd::string::StringExecFns;

verus! {

/// A fatal condition: the computation is abandoned, no expression is returned.
#[derive(Clone, Copy, Debug, PartialEq, Eq, Structural)]
pub enum FatalError {
    /// A graph shape, operator, aggregate or literal the generator cannot model.
    UnsupportedConstruct,
    /// A declared type's text does not name a supported semantic type.
    TypeResolutionError,
    /// The input violates the grammar the front end is assumed to produce.
    InternalInvariantViolation,
}

/// The semantic type of a variable or literal: boolean, or a fixed-width
/// two's-complement signed or unsigned integer.
#[derive(Clone, Copy, Debug, PartialEq, Eq, Structural)]
pub enum Types {
    Bool,
    I8,
    I16,
    I32,
    I64,
    U8,
    U16,
    U32,
    U64,
}

/// Binary connectives and operators of the expression language.
#[derive(Clone, Copy, Debug, PartialEq, Eq, Structural)]
pub enum BinaryOperator {
    And,
    Or,
    Implication,
    Addition,
    Subtraction,
    Multiplication,
    Division,
    Modulo,
    BitwiseOr,
    BitwiseAnd,
    BitwiseXor,
    BitwiseLeftShift,
    BitwiseRightShift,
    LessThan,
    LessThanOrEqual,
    GreaterThan,
    GreaterThanOrEqual,
    Equal,
    NotEqual,
}

/// Unary operators of the expression language.
#[derive(Clone, Copy, Debug, PartialEq, Eq, Structural)]
pub enum UnaryOperator {
    /// Logical complement of a boolean.
    Not,
    /// Bitwise complement of an integer.
    BitwiseNot,
    /// Arithmetic negation.
    Negation,
}

/// A storage location that can stand on its own as a substitution key:
/// a named function argument, a numbered temporary, or a numbered local.
#[derive(Debug, PartialEq)]
pub enum BaseName {
    /// A function argument, identified by its source-level name.
    Named(String),
    /// A compiler temporary, identified by its index.
    Tmp(usize),
    /// A local variable, identified by its index.
    Local(usize),
}

/// The identity of a variable in the expression language.  The argument,
/// temporary and local namespaces are disjoint by construction, as is the
/// return slot; a field name refers to one element of a tuple-typed base.
#[derive(Debug, PartialEq)]
pub enum Name {
    Base(BaseName),
    /// The function's return slot.
    Ret,
    /// Element `field` of the tuple held by `base`.
    Field(BaseName, usize),
}

/// A variable reference: an identity paired with its semantic type.
/// Substitution matches on both.
#[derive(Debug, PartialEq)]
pub struct VariableMappingData {
    pub name: Name,
    pub var_type: Types,
}

/// A signed fixed-width integer literal.
#[derive(Clone, Copy, Debug, PartialEq, Eq, Structural)]
pub struct SignedBitVectorData {
    /// Width in bits: 8, 16, 32 or 64.
    pub size: u8,
    pub value: i64,
}

/// An unsigned fixed-width integer literal.
#[derive(Clone, Copy, Debug, PartialEq, Eq, Structural)]
pub struct UnsignedBitVectorData {
    /// Width in bits: 8, 16, 32 or 64.
    pub size: u8,
    pub value: u64,
}

/// A unary operator applied to a sub-expression.
#[derive(Debug, PartialEq)]
pub struct UnaryExpressionData {
    pub op: UnaryOperator,
    pub e: Box<Expression>,
}

/// A binary operator applied to two sub-expressions.
#[derive(Debug, PartialEq)]
pub struct BinaryExpressionData {
    pub op: BinaryOperator,
    pub left: Box<Expression>,
    pub right: Box<Expression>,
}

/// An immutable expression tree.  New trees are built bottom-up; no node is
/// ever mutated in place.
#[derive(Debug, PartialEq)]
pub enum Expression {
    BooleanLiteral(bool),
    SignedBitVector(SignedBitVectorData),
    UnsignedBitVector(UnsignedBitVectorData),
    VariableMapping(VariableMappingData),
    UnaryExpression(UnaryExpressionData),
    BinaryExpression(BinaryExpressionData),
}

/// Mathematical model of a [`BaseName`]: the argument name is a sequence of
/// characters rather than a heap-allocated string.
pub ghost enum BaseNameView {
    Named(Seq<char>),
    Tmp(usize),
    Local(usize),
}

/// Mathematical model of a [`Name`].
pub ghost enum NameView {
    Base(BaseNameView),
    Ret,
    Field(BaseNameView, usize),
}

/// Mathematical model of a [`VariableMappingData`].
pub ghost struct VarView {
    pub name: NameView,
    pub ty: Types,
}

/// Mathematical model of an [`Expression`].
pub ghost enum ExprView {
    Bool(bool),
    SignedBv { size: u8, value: i64 },
    UnsignedBv { size: u8, value: u64 },
    Var(VarView),
    Unary { op: UnaryOperator, e: Box<ExprView> },
    Binary { op: BinaryOperator, left: Box<ExprView>, right: Box<ExprView> },
}

impl View for BaseName {
    type V = BaseNameView;

    open spec fn view(&self) -> BaseNameView {
        match *self {
            BaseName::Named(ref s) => BaseNameView::Named(s@),
            BaseName::Tmp(i) => BaseNameView::Tmp(i),
            BaseName::Local(i) => BaseNameView::Local(i),
        }
    }
}

impl View for Name {
    type V = NameView;

    open spec fn view(&self) -> NameView {
        match *self {
            Name::Base(ref b) => NameView::Base(b@),
            Name::Ret => NameView::Ret,
            Name::Field(ref b, i) => NameView::Field(b@, i),
        }
    }
}

impl View for VariableMappingData {
    type V = VarView;

    open spec fn view(&self) -> VarView {
        VarView { name: self.name@, ty: self.var_type }
    }
}

/// The model of an expression tree, node by node.
pub open spec fn expr_view(e: Expression) -> ExprView
    decreases e,
{
    match e {
        Expression::BooleanLiteral(b) => ExprView::Bool(b),
        Expression::SignedBitVector(s) => ExprView::SignedBv { size: s.size, value: s.value },
        Expression::UnsignedBitVector(u) => ExprView::UnsignedBv { size: u.size, value: u.value },
        Expression::VariableMapping(v) => ExprView::Var(v@),
        Expression::UnaryExpression(u) => ExprView::Unary { op: u.op, e: Box::new(expr_view(*u.e)) },
        Expression::BinaryExpression(b) => ExprView::Binary {
            op: b.op,
            left: Box::new(expr_view(*b.left)),
            right: Box::new(expr_view(*b.right)),
        },
    }
}

impl View for Expression {
    type V = ExprView;

    open spec fn view(&self) -> ExprView {
        expr_view(*self)
    }
}

impl BaseName {
    /// A structural copy.
    pub fn duplicate(&self) -> (r: BaseName)
        ensures
            r@ == self@,
    {
        match self {
            BaseName::Named(s) => BaseName::Named(s.clone()),
            BaseName::Tmp(i) => BaseName::Tmp(*i),
            BaseName::Local(i) => BaseName::Local(*i),
        }
    }
}

impl Name {
    /// A structural copy.
    pub fn duplicate(&self) -> (r: Name)
        ensures
            r@ == self@,
    {
        match self {
            Name::Base(b) => Name::Base(b.duplicate()),
            Name::Ret => Name::Ret,
            Name::Field(b, i) => Name::Field(b.duplicate(), *i),
        }
    }
}

impl VariableMappingData {
    /// A structural copy.
    pub fn duplicate(&self) -> (r: VariableMappingData)
        ensures
            r@ == self@,
    {
        VariableMappingData { name: self.name.duplicate(), var_type: self.var_type }
    }
}

impl Expression {
    /// A structural copy of the whole tree.
    pub fn duplicate(&self) -> (r: Expression)
        ensures
            r@ == self@,
        decreases *self,
    {
        match self {
            Expression::BooleanLiteral(b) => Expression::BooleanLiteral(*b),
            Expression::SignedBitVector(s) => Expression::SignedBitVector(*s),
            Expression::UnsignedBitVector(u) => Expression::UnsignedBitVector(*u),
            Expression::VariableMapping(v) => Expression::VariableMapping(v.duplicate()),
            Expression::UnaryExpression(u) => Expression::UnaryExpression(
                UnaryExpressionData { op: u.op, e: Box::new(u.e.duplicate()) },
            ),
            Expression::BinaryExpression(b) => Expression::BinaryExpression(
                BinaryExpressionData {
                    op: b.op,
                    left: Box::new(b.left.duplicate()),
                    right: Box::new(b.right.duplicate()),
                },
            ),
        }
    }
}

/// The model of a fallible variable-reference computation.
pub open spec fn var_result_view(
    r: Result<VariableMappingData, FatalError>,
) -> Result<VarView, FatalError> {
    match r {
        Ok(v) => Ok(v@),
        Err(e) => Err(e),
    }
}

/// The model of a fallible expression computation.
pub open spec fn expr_result_view(
    r: Result<Expression, FatalError>,
) -> Result<ExprView, FatalError> {
    match r {
        Ok(e) => Ok(e@),
        Err(e) => Err(e),
    }
}

/// Decides equality of two base names by their models.
pub fn base_name_eq(a: &BaseName, b: &BaseName) -> (r: bool)
    ensures
        r == (a@ == b@),
{
    match (a, b) {
        (BaseName::Named(x), BaseName::Named(y)) => *x == *y,
        (BaseName::Tmp(x), BaseName::Tmp(y)) => *x == *y,
        (BaseName::Local(x), BaseName::Local(y)) => *x == *y,
        _ => false,
    }
}

/// Decides equality of two variable identities by their models.
pub fn name_eq(a: &Name, b: &Name) -> (r: bool)
    ensures
        r == (a@ == b@),
{
    match (a, b) {
        (Name::Base(x), Name::Base(y)) => base_name_eq(x, y),
        (Name::Ret, Name::Ret) => true,
        (Name::Field(x, i), Name::Field(y, j)) => base_name_eq(x, y) && *i == *j,
        _ => false,
    }
}

/// Decides whether two variable references denote the same substitution key:
/// same identity and same semantic type.
pub fn var_eq(a: &VariableMappingData, b: &VariableMappingData) -> (r: bool)
    ensures
        r == (a@ == b@),
{
    name_eq(&a.name, &b.name) && a.var_type == b.var_type
}

/// What [`string_to_type`] returns for a given declared type text.
pub open spec fn spec_string_to_type(s: Seq<char>) -> Result<Types, FatalError> {
    if s == "bool"@ {
        Ok(Types::Bool)
    } else if s == "i8"@ {
        Ok(Types::I8)
    } else if s == "i16"@ {
        Ok(Types::I16)
    } else if s == "i32"@ {
        Ok(Types::I32)
    } else if s == "i64"@ {
        Ok(Types::I64)
    } else if s == "u8"@ {
        Ok(Types::U8)
    } else if s == "u16"@ {
        Ok(Types::U16)
    } else if s == "u32"@ {
        Ok(Types::U32)
    } else if s == "u64"@ {
        Ok(Types::U64)
    } else {
        Err(FatalError::TypeResolutionError)
    }
}

/// Maps a declared type's text to its semantic type; any other text is a
/// fatal resolution error.
pub fn string_to_type(s: &String) -> (r: Result<Types, FatalError>)
    ensures
        r == spec_string_to_type(s@),
{
    if *s == String::from_str("bool") {
        Ok(Types::Bool)
    } else if *s == String::from_str("i8") {
        Ok(Types::I8)
    } else if *s == String::from_str("i16") {
        Ok(Types::I16)
    } else if *s == String::from_str("i32") {
        Ok(Types::I32)
    } else if *s == String::from_str("i64") {
        Ok(Types::I64)
    } else if *s == String::from_str("u8") {
        Ok(Types::U8)
    } else if *s == String::from_str("u16") {
        Ok(Types::U16)
    } else if *s == String::from_str("u32") {
        Ok(Types::U32)
    } else if *s == String::from_str("u64") {
        Ok(Types::U64)
    } else {
        Err(FatalError::TypeResolutionError)
    }
}

/// Whether a semantic type is a signed integer type.
pub open spec fn spec_is_signed(t: Types) -> bool {
    match t {
        Types::I8 | Types::I16 | Types::I32 | Types::I64 => true,
        _ => false,
    }
}

/// Decides whether a semantic type is a signed integer type.
pub fn is_signed_type(t: Types) -> (r: bool)
    ensures
        r == spec_is_signed(t),
{
    match t {
        Types::I8 | Types::I16 | Types::I32 | Types::I64 => true,
        _ => false,
    }
}

/// Whether a binary operator always yields a boolean, whatever its operands.
pub open spec fn spec_bool_valued(op: BinaryOperator) -> bool {
    match op {
        BinaryOperator::And
        | BinaryOperator::Or
        | BinaryOperator::Implication
        | BinaryOperator::LessThan
        | BinaryOperator::LessThanOrEqual
        | BinaryOperator::GreaterThan
        | BinaryOperator::GreaterThanOrEqual
        | BinaryOperator::Equal
        | BinaryOperator::NotEqual => true,
        _ => false,
    }
}

/// What [`determine_evaluation_type`] returns for a given expression model.
pub open spec fn spec_eval_type(e: ExprView) -> Result<Types, FatalError>
    decreases e,
{
    match e {
        ExprView::Bool(_) => Ok(Types::Bool),
        ExprView::SignedBv { size, .. } => if size == 8 {
            Ok(Types::I8)
        } else if size == 16 {
            Ok(Types::I16)
        } else if size == 32 {
            Ok(Types::I32)
        } else if size == 64 {
            Ok(Types::I64)
        } else {
            Err(FatalError::UnsupportedConstruct)
        },
        ExprView::UnsignedBv { size, .. } => if size == 8 {
            Ok(Types::U8)
        } else if size == 16 {
            Ok(Types::U16)
        } else if size == 32 {
            Ok(Types::U32)
        } else if size == 64 {
            Ok(Types::U64)
        } else {
            Err(FatalError::UnsupportedConstruct)
        },
        ExprView::Var(v) => Ok(v.ty),
        ExprView::Unary { op, e } => match op {
            UnaryOperator::Not => Ok(Types::Bool),
            _ => spec_eval_type(*e),
        },
        ExprView::Binary { op, left, .. } => if spec_bool_valued(op) {
            Ok(Types::Bool)
        } else {
            spec_eval_type(*left)
        },
    }
}

/// The semantic type an expression evaluates to: literals and variables carry
/// their own, a boolean-valued operator yields `Bool`, and any other operator
/// yields the type of its (left) operand.  A literal of an unsupported width
/// is a fatal condition.
pub fn determine_evaluation_type(e: &Expression) -> (r: Result<Types, FatalError>)
    ensures
        r == spec_eval_type(e@),
    decreases *e,
{
    match e {
        Expression::BooleanLiteral(_) => Ok(Types::Bool),
        Expression::SignedBitVector(s) => {
            if s.size == 8 {
                Ok(Types::I8)
            } else if s.size == 16 {
                Ok(Types::I16)
            } else if s.size == 32 {
                Ok(Types::I32)
            } else if s.size == 64 {
                Ok(Types::I64)
            } else {
                Err(FatalError::UnsupportedConstruct)
            }
        }
        Expression::UnsignedBitVector(u) => {
            if u.size == 8 {
                Ok(Types::U8)
            } else if u.size == 16 {
                Ok(Types::U16)
            } else if u.size == 32 {
                Ok(Types::U32)
            } else if u.size == 64 {
                Ok(Types::U64)
            } else {
                Err(FatalError::UnsupportedConstruct)
            }
        }
        Expression::VariableMapping(v) => Ok(v.var_type),
        Expression::UnaryExpression(u) => {
            match u.op {
                UnaryOperator::Not => Ok(Types::Bool),
                _ => determine_evaluation_type(&*u.e),
            }
        }
        Expression::BinaryExpression(b) => {
            match b.op {
                BinaryOperator::And
                | BinaryOperator::Or
                | BinaryOperator::Implication
                | BinaryOperator::LessThan
                | BinaryOperator::LessThanOrEqual
                | BinaryOperator::GreaterThan
                | BinaryOperator::GreaterThanOrEqual
                | BinaryOperator::Equal
                | BinaryOperator::NotEqual => Ok(Types::Bool),
                _ => determine_evaluation_type(&*b.left),
            }
        }
    }
}

/// The substitution `e[var := repl]`: every variable leaf equal to `var`
/// (same identity and semantic type) becomes `repl`; every other leaf passes
/// through unchanged; composite nodes are rebuilt from rewritten children.
pub open spec fn spec_substitute(e: ExprView, var: VarView, repl: ExprView) -> ExprView
    decreases e,
{
    match e {
        ExprView::Var(v) => if v == var {
            repl
        } else {
            ExprView::Var(v)
        },
        ExprView::Unary { op, e } => ExprView::Unary {
            op,
            e: Box::new(spec_substitute(*e, var, repl)),
        },
        ExprView::Binary { op, left, right } => ExprView::Binary {
            op,
            left: Box::new(spec_substitute(*left, var, repl)),
            right: Box::new(spec_substitute(*right, var, repl)),
        },
        _ => e,
    }
}

/// Rewrites every occurrence of `var` within `e` to a structural copy of
/// `repl`, building a new tree bottom-up.
pub fn substitute_variable_with_expression(
    e: &Expression,
    var: &VariableMappingData,
    repl: &Expression,
) -> (r: Expression)
    ensures
        r@ == spec_substitute(e@, var@, repl@),
    decreases *e,
{
    match e {
        Expression::BooleanLiteral(b) => Expression::BooleanLiteral(*b),
        Expression::SignedBitVector(s) => Expression::SignedBitVector(*s),
        Expression::UnsignedBitVector(u) => Expression::UnsignedBitVector(*u),
        Expression::VariableMapping(v) => {
            if var_eq(v, var) {
                repl.duplicate()
            } else {
                Expression::VariableMapping(v.duplicate())
            }
        }
        Expression::UnaryExpression(u) => Expression::UnaryExpression(
            UnaryExpressionData {
                op: u.op,
                e: Box::new(substitute_variable_with_expression(&*u.e, var, repl)),
            },
        ),
        Expression::BinaryExpression(b) => Expression::BinaryExpression(
            BinaryExpressionData {
                op: b.op,
                left: Box::new(substitute_variable_with_expression(&*b.left, var, repl)),
                right: Box::new(substitute_variable_with_expression(&*b.right, var, repl)),
            },
        ),
    }
}

} // verus!
