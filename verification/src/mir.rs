//! The library's model of a function body: a control-flow graph of basic
//! blocks over declared arguments, temporaries and local variables.
//!
//! The front end that produces this data is an external collaborator; it
//! hands the graph over fully typed and read-only.  Declared types arrive as
//! their source text and are resolved by
//! [`crate::expression::string_to_type`].

use vstd::prelude::*;

verus! {

/// A declared type as the front end spells it: the text of a scalar type, or
/// a tuple of such texts.
#[derive(Debug, PartialEq)]
pub enum DeclaredType {
    Simple(String),
    Tuple(Vec<String>),
}

/// The declaration of one function argument.
#[derive(Debug, PartialEq)]
pub struct ArgDecl {
    /// The source-level name of the argument.
    pub name: String,
    pub ty: DeclaredType,
}

/// The declaration of one compiler temporary.
#[derive(Debug, PartialEq)]
pub struct TempDecl {
    pub ty: DeclaredType,
}

/// The declaration of one local variable.
#[derive(Debug, PartialEq)]
pub struct VarDecl {
    pub ty: DeclaredType,
}

/// One element of a field projection.
#[derive(Clone, Copy, Debug, PartialEq, Eq, Structural)]
pub enum ProjectionElem {
    /// The `field`-th element of a tuple.
    Field(usize),
    /// Any other projection kind; unsupported.
    Other,
}

/// A projection: one element selected out of a base location.
#[derive(Debug, PartialEq)]
pub struct ProjectionData {
    pub base: Box<Lvalue>,
    pub elem: ProjectionElem,
}

/// A storage location reference.
#[derive(Debug, PartialEq)]
pub enum Lvalue {
    /// A function argument, by position.
    Arg(usize),
    /// A compiler temporary, by position.
    Temp(usize),
    /// A local variable, by position.
    Var(usize),
    /// The function's return slot.
    ReturnPointer,
    /// A static item; unsupported.
    Static(usize),
    /// A field of another location.
    Projection(ProjectionData),
}

/// A constant literal: a boolean or a fixed-width integer.  Any other
/// constant shape the front end may produce is unsupported.
#[derive(Clone, Copy, Debug, PartialEq, Eq, Structural)]
pub enum Literal {
    Bool(bool),
    I8(i8),
    I16(i16),
    I32(i32),
    I64(i64),
    U8(u8),
    U16(u16),
    U32(u32),
    U64(u64),
    /// An unsupported literal shape.
    Other,
}

/// An operand: a read of a location, or a constant.
#[derive(Debug, PartialEq)]
pub enum Operand {
    Consume(Lvalue),
    Constant(Literal),
}

/// A binary operation of the input program.
#[derive(Clone, Copy, Debug, PartialEq, Eq, Structural)]
pub enum BinOp {
    Add,
    Sub,
    Mul,
    Div,
    Rem,
    BitOr,
    BitAnd,
    BitXor,
    Shl,
    Shr,
    Lt,
    Le,
    Gt,
    Ge,
    Eq,
    Ne,
}

/// A unary operation of the input program.
#[derive(Clone, Copy, Debug, PartialEq, Eq, Structural)]
pub enum UnOp {
    /// Complement: logical on booleans, bitwise on integers.
    Not,
    /// Arithmetic negation.
    Neg,
}

/// The kind of an aggregate right-hand side.  Only tuples are supported.
#[derive(Clone, Copy, Debug, PartialEq, Eq, Structural)]
pub enum AggregateKind {
    Tuple,
    Other,
}

/// The right-hand side of an assignment.
#[derive(Debug, PartialEq)]
pub enum Rvalue {
    /// A plain read.
    Use(Operand),
    /// A binary operation.
    BinaryOp(BinOp, Operand, Operand),
    /// An overflow-tracked binary operation, producing a (value, flag) pair.
    CheckedBinaryOp(BinOp, Operand, Operand),
    /// A unary operation.
    UnaryOp(UnOp, Operand),
    /// An aggregate; only the two-element tuple of a checked operation's
    /// result shape is supported.
    Aggregate(AggregateKind, Vec<Operand>),
    /// A cast; treated as identity.
    Cast,
    /// Taking a reference; treated as identity.
    Ref,
    /// Heap allocation, length-of, or any other right-hand side; unsupported.
    Other,
}

/// One statement of a basic block.
#[derive(Debug, PartialEq)]
pub enum Statement {
    /// `target := value`.
    Assign(Lvalue, Rvalue),
    /// Any other statement kind; outside the assumed grammar.
    Other,
}

/// The callee of a `Call` terminator, as the front end resolved it.
#[derive(Clone, Copy, Debug, PartialEq, Eq, Structural)]
pub enum Callee {
    /// The runtime abort entry point reached when an assertion fails.
    PanicMarker,
    /// Any other callee; unsupported.
    Other,
}

/// The control transfer that ends a basic block.
#[derive(Debug, PartialEq)]
pub enum Terminator {
    /// Unconditional transfer to `target`.
    Goto { target: usize },
    /// An assertion; its own condition is captured by the conditional branch
    /// that precedes it, so it transfers to `target` like a `Goto`.
    Assert { target: usize },
    /// Return from the function.
    Return,
    /// Two-way branch on a boolean condition.
    ConditionalBranch { condition: Operand, true_target: usize, false_target: usize },
    /// A function call; supported only for the panic marker.
    Call { callee: Callee },
    /// Resource drop; unsupported.
    Drop,
    /// Resource drop and replacement; unsupported.
    DropAndReplace,
    /// Unwind resumption; unsupported.
    Resume,
    /// An unreachable marker; unsupported.
    Unreachable,
    /// A multi-way switch over an enum discriminant; unsupported.
    Switch,
    /// A multi-way switch over integer values; unsupported.
    SwitchInt,
}

/// A basic block: a straight-line sequence of statements and one terminator.
/// A missing terminator violates the assumed grammar.
#[derive(Debug, PartialEq)]
pub struct BasicBlock {
    pub statements: Vec<Statement>,
    pub terminator: Option<Terminator>,
}

/// Everything the generator reads about one function: the declaration tables,
/// the function's return type, and the basic blocks.  Immutable for the
/// duration of one computation.
#[derive(Debug, PartialEq)]
pub struct MirData {
    pub arg_data: Vec<ArgDecl>,
    pub temp_data: Vec<TempDecl>,
    pub var_data: Vec<VarDecl>,
    pub func_return_type: crate::expression::Types,
    pub block_data: Vec<BasicBlock>,
}

} // verus!
