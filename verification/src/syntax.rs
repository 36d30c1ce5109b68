//! Declaration tree of a shader module.
//!
//! The tree holds declarations, statements, expressions, types and qualifiers as plain
//! values. A constant of floating point is kept as the value the `glsl` crate has for it;
//! such a value is sealed: it is made only where shading code is read, from a node that is
//! such a constant. A list that must hold an item holds its first item apart.
use vstd::prelude::*;

verus! {

/// A constant of floating point, of single or of double precision. It is made where shading
/// code is read.
#[derive(Debug, PartialEq)]
pub struct RealConst {
    node: glsl::syntax::Expr,
}

impl View for RealConst {
    type V = glsl::syntax::Expr;

    closed spec fn view(&self) -> glsl::syntax::Expr {
        self.node
    }
}

impl RealConst {
    /// Seals a node. The node is a constant of floating point.
    pub(crate) fn seal(node: glsl::syntax::Expr) -> (res: Self)
        ensures
            res@ == node,
    {
        RealConst { node }
    }

    /// The node of the `glsl` crate.
    pub fn node(&self) -> (res: &glsl::syntax::Expr)
        ensures
            *res == self@,
    {
        &self.node
    }
}

impl Clone for RealConst {
    fn clone(&self) -> (res: Self)
        ensures
            res@ == self@,
    {
        RealConst { node: self.node.clone() }
    }
}

/// An operator that stands before its operand.
#[derive(Clone, Copy, Debug, PartialEq, Eq)]
pub enum PrefixOp {
    Inc,
    Dec,
    Add,
    Minus,
    Not,
    Complement,
}

/// An operator on truth values: `||`, `^^` or `&&`.
#[derive(Clone, Copy, Debug, PartialEq, Eq)]
pub enum LogicOp {
    Or,
    Xor,
    And,
}

/// An operator on bits: `|`, `^`, `&`, `<<` or `>>`.
#[derive(Clone, Copy, Debug, PartialEq, Eq)]
pub enum BitOp {
    Or,
    Xor,
    And,
    LShift,
    RShift,
}

/// A comparison.
#[derive(Clone, Copy, Debug, PartialEq, Eq)]
pub enum CompareOp {
    Equal,
    NonEqual,
    LT,
    GT,
    LTE,
    GTE,
}

/// An operator of arithmetic: `+`, `-`, `*`, `/` or `%`.
#[derive(Clone, Copy, Debug, PartialEq, Eq)]
pub enum ArithmeticOp {
    Add,
    Sub,
    Mult,
    Div,
    Mod,
}

/// An operator that stands between its operands.
#[derive(Clone, Copy, Debug, PartialEq, Eq)]
pub enum InfixOp {
    Logic(LogicOp),
    Bit(BitOp),
    Compare(CompareOp),
    Arithmetic(ArithmeticOp),
}

/// An operator that assigns what it computes: `*=`, `/=` and the like. The operator `=` is
/// none of them.
#[derive(Clone, Copy, Debug, PartialEq, Eq)]
pub enum AssignOp {
    Mult,
    Div,
    Mod,
    Add,
    Sub,
    LShift,
    RShift,
    And,
    Xor,
    Or,
}

/// A constant that is no integer literal.
#[derive(Debug, PartialEq)]
pub enum Constant {
    UInt(u32),
    Bool(bool),
    Real(RealConst),
}

/// An expression made with an operator.
#[derive(Debug, PartialEq)]
pub enum Operation {
    Prefix(PrefixOp, Box<Expression>),
    Infix(InfixOp, Box<Expression>, Box<Expression>),
    /// `first ? second : third`.
    Ternary(Box<Expression>, Box<Expression>, Box<Expression>),
    /// `target op value`.
    Assign(Box<Expression>, AssignOp, Box<Expression>),
    PostInc(Box<Expression>),
    PostDec(Box<Expression>),
    /// `first, second`.
    Comma(Box<Expression>, Box<Expression>),
}

/// A storage qualifier other than `in`, `out` and `uniform`.
#[derive(Debug, PartialEq)]
pub enum Storage {
    Const,
    InOut,
    Centroid,
    Patch,
    Sample,
    Attribute,
    Varying,
    Buffer,
    Shared,
    /// `subroutine`, with the type names it lists.
    Subroutine(Vec<String>),
}

/// A memory qualifier.
#[derive(Clone, Copy, Debug, PartialEq, Eq)]
pub enum Memory {
    Coherent,
    Volatile,
    Restrict,
    ReadOnly,
    WriteOnly,
}

/// An interpolation qualifier.
#[derive(Clone, Copy, Debug, PartialEq, Eq)]
pub enum Interpolation {
    Smooth,
    Flat,
    NoPerspective,
}

/// A scalar type, `void` among them.
#[derive(Clone, Copy, Debug, PartialEq, Eq)]
pub enum Scalar {
    Void,
    Bool,
    Int,
    UInt,
    Float,
    Double,
    AtomicUInt,
}

/// A vector of floating-point components other than `vec4`.
#[derive(Clone, Copy, Debug, PartialEq, Eq)]
pub enum FloatVector {
    Vec2,
    Vec3,
    DVec2,
    DVec3,
    DVec4,
}

/// A vector of boolean or integer components.
#[derive(Clone, Copy, Debug, PartialEq, Eq)]
pub enum IntegralVector {
    BVec2,
    BVec3,
    BVec4,
    IVec2,
    IVec3,
    IVec4,
    UVec2,
    UVec3,
    UVec4,
}

/// The columns and rows of a matrix.
#[derive(Clone, Copy, Debug, PartialEq, Eq)]
pub enum MatrixShape {
    Square2,
    Square3,
    Square4,
    Cols2Rows3,
    Cols2Rows4,
    Cols3Rows2,
    Cols3Rows4,
    Cols4Rows2,
    Cols4Rows3,
}

/// What a sampler or an image is laid out as.
#[derive(Clone, Copy, Debug, PartialEq, Eq)]
pub enum Shape {
    D1,
    D2,
    D3,
    Cube,
    Rect,
    Array1,
    Array2,
    Buffer,
    Multisample,
    MultisampleArray,
    CubeArray,
}

/// What a shadow sampler is laid out as.
#[derive(Clone, Copy, Debug, PartialEq, Eq)]
pub enum ShadowShape {
    D1,
    D2,
    Rect,
    Array1,
    Array2,
    Cube,
    CubeArray,
}

/// A built-in type other than `vec4`.
#[derive(Clone, Copy, Debug, PartialEq, Eq)]
pub enum BuiltIn {
    Scalar(Scalar),
    FloatVector(FloatVector),
    IntegralVector(IntegralVector),
    Matrix(MatrixShape),
    DoubleMatrix(MatrixShape),
    Sampler(Shape),
    Image(Shape),
    ISampler(Shape),
    IImage(Shape),
    USampler(Shape),
    UImage(Shape),
    Shadow(ShadowShape),
}

/// One dimension of an array specifier: `[]` or `[size]`.
#[derive(Debug, PartialEq)]
pub enum ArrayDim {
    Unsized,
    Sized(Box<Expression>),
}

/// The dimensions that follow a type or a name.
#[derive(Debug, PartialEq)]
pub struct ArraySpec {
    pub dims: Vec<ArrayDim>,
}

/// What a call expression calls: a function by name, or the value of an expression.
#[derive(Debug, PartialEq)]
pub enum Callee {
    Name(String),
    Expr(Box<Expression>),
}

/// An expression.
#[derive(Debug, PartialEq)]
pub enum Expression {
    /// A variable, by name.
    Variable(String),
    /// An integer literal.
    IntConst(i32),
    /// `target = value`.
    Assign(Box<Expression>, Box<Expression>),
    /// An expression followed by array dimensions.
    Bracket(Box<Expression>, ArraySpec),
    /// A call with its arguments.
    Call(Callee, Vec<Expression>),
    /// Selection of a field.
    Dot(Box<Expression>, String),
    /// A constant that is no integer literal.
    Constant(Constant),
    /// An expression made with an operator, but for `target = value`.
    Operation(Operation),
}

/// A name with optional array dimensions.
#[derive(Debug, PartialEq)]
pub struct Declarator {
    pub name: String,
    pub array: Option<ArraySpec>,
}

/// One identifier of a layout qualifier.
#[derive(Debug, PartialEq)]
pub enum LayoutId {
    /// `name` or `name = value`.
    Named(String, Option<Box<Expression>>),
    Shared,
}

/// `layout (first, rest...)`.
#[derive(Debug, PartialEq)]
pub struct Layout {
    pub first: LayoutId,
    pub rest: Vec<LayoutId>,
}

/// One qualifier of a type.
#[derive(Debug, PartialEq)]
pub enum QualifierSpec {
    /// Storage `in`.
    In,
    /// Storage `out`.
    Out,
    /// Storage `uniform`.
    Uniform,
    /// Any other storage.
    Storage(Storage),
    Memory(Memory),
    Layout(Layout),
    Precision(Precision),
    Interpolation(Interpolation),
    Invariant,
    Precise,
}

/// The qualifiers of a type, in source order. There is at least one.
#[derive(Debug, PartialEq)]
pub struct Qualifier {
    pub first: QualifierSpec,
    pub rest: Vec<QualifierSpec>,
}

/// A type without its array dimensions.
#[derive(Debug, PartialEq)]
pub enum TypeKind {
    Vec4,
    /// A struct defined in place.
    Struct(StructDef),
    /// A type referred to by name.
    Named(String),
    /// Any other built-in type.
    BuiltIn(BuiltIn),
}

/// A type with its array dimensions.
#[derive(Debug, PartialEq)]
pub struct TypeSpec {
    pub kind: TypeKind,
    pub array: Option<ArraySpec>,
}

/// A struct definition.
#[derive(Debug, PartialEq)]
pub struct StructDef {
    pub name: Option<String>,
    pub fields: Vec<StructField>,
}

/// One field line of a struct: a type and the names declared with it. There is at least one
/// name.
#[derive(Debug, PartialEq)]
pub struct StructField {
    pub qualifier: Option<Qualifier>,
    pub ty: TypeSpec,
    pub first: Declarator,
    pub rest: Vec<Declarator>,
}

/// A type with its qualifiers.
#[derive(Debug, PartialEq)]
pub struct FullType {
    pub qualifier: Option<Qualifier>,
    pub ty: TypeSpec,
}

/// The value a declaration starts with.
#[derive(Debug, PartialEq)]
pub enum InitialValue {
    Simple(Expression),
    /// A brace-enclosed list: its first value and the others.
    List(Box<InitialValue>, Vec<InitialValue>),
}

/// A declaration of at most one name.
#[derive(Debug, PartialEq)]
pub struct SingleDecl {
    pub ty: FullType,
    pub name: Option<String>,
    pub array: Option<ArraySpec>,
    pub initializer: Option<InitialValue>,
}

/// A further name declared with the type of the head of its list.
#[derive(Debug, PartialEq)]
pub struct TailDecl {
    pub ident: Declarator,
    pub initializer: Option<InitialValue>,
}

/// A variable-like declaration: a head and the names that share its type.
#[derive(Debug, PartialEq)]
pub struct InitDeclList {
    pub head: SingleDecl,
    pub tail: Vec<TailDecl>,
}

/// An interface block.
#[derive(Debug, PartialEq)]
pub struct InterfaceBlock {
    pub qualifier: Qualifier,
    pub name: String,
    pub fields: Vec<StructField>,
    pub identifier: Option<Declarator>,
}

/// A parameter of a function.
#[derive(Debug, PartialEq)]
pub enum Param {
    Named(Option<Qualifier>, TypeSpec, Declarator),
    Unnamed(Option<Qualifier>, TypeSpec),
}

/// The head of a function: what it returns, its name and its parameters.
#[derive(Debug, PartialEq)]
pub struct Prototype {
    pub ty: FullType,
    pub name: String,
    pub params: Vec<Param>,
}

/// A precision.
#[derive(Clone, Copy, Debug, PartialEq, Eq)]
pub enum Precision {
    High,
    Medium,
    Low,
}

/// A declaration.
#[derive(Debug, PartialEq)]
pub enum Decl {
    Vars(InitDeclList),
    Block(InterfaceBlock),
    /// A bare qualifier statement, with the names it applies to.
    Global(Qualifier, Vec<String>),
    /// The declaration of a function without its body.
    Prototype(Prototype),
    /// The default precision of a type.
    Precision(Precision, TypeSpec),
}

/// What a loop tests: an expression, or a variable declared with its value.
#[derive(Debug, PartialEq)]
pub enum Guard {
    Expr(Expression),
    Binding(FullType, String, InitialValue),
}

/// What a `for` loop starts with.
#[derive(Debug, PartialEq)]
pub enum ForInit {
    Expression(Option<Expression>),
    Declaration(Box<Decl>),
}

/// An `if` statement.
#[derive(Debug, PartialEq)]
pub struct Selection {
    pub cond: Expression,
    pub body: Box<Stmt>,
    pub otherwise: Option<Box<Stmt>>,
}

/// A `switch` statement.
#[derive(Debug, PartialEq)]
pub struct Switch {
    pub head: Expression,
    pub body: Vec<Stmt>,
}

/// A loop.
#[derive(Debug, PartialEq)]
pub enum Iteration {
    While(Guard, Box<Stmt>),
    DoWhile(Box<Stmt>, Expression),
    /// What the loop starts with, what it tests, what it does after each turn, and its body.
    For(ForInit, Option<Guard>, Option<Expression>, Box<Stmt>),
}

/// A jump.
#[derive(Debug, PartialEq)]
pub enum Jump {
    Continue,
    Break,
    Return(Option<Expression>),
    Discard,
}

/// A statement.
#[derive(Debug, PartialEq)]
pub enum Stmt {
    /// A block of statements.
    Compound(Vec<Stmt>),
    Declaration(Decl),
    /// An expression statement; `None` is the empty statement.
    Expression(Option<Expression>),
    Selection(Selection),
    Switch(Switch),
    /// A case label; `None` is the default label.
    Case(Option<Expression>),
    Iteration(Iteration),
    Jump(Jump),
}

/// A function with its body.
#[derive(Debug, PartialEq)]
pub struct FunctionDef {
    pub ty: FullType,
    pub name: String,
    pub params: Vec<Param>,
    pub body: Vec<Stmt>,
}

/// A declaration at the top level of a module.
#[derive(Debug, PartialEq)]
pub enum ExternalDecl {
    Function(FunctionDef),
    Declaration(Decl),
    /// A preprocessor directive.
    Directive(glsl::syntax::Preprocessor),
}

/// An import statement: the module it names and the symbols it lists. The list is kept as
/// written and has no effect.
#[derive(Debug, PartialEq)]
pub struct Import {
    pub path: Vec<String>,
    pub symbols: Vec<String>,
}

} // verus!
