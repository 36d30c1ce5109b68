//! Printing of the declaration tree, which the `glsl` crate does: a node of the tree is turned
//! into the node that crate has for it, and the crate's printer writes its text.
use vstd::prelude::*;
use glsl::syntax as ast;
use glsl::transpiler::glsl as printer;
use crate::syntax::{
    ArithmeticOp, ArrayDim, ArraySpec, AssignOp, BitOp, BuiltIn, Callee, CompareOp, Constant,
    Decl, Declarator, Expression, ExternalDecl, FloatVector, ForInit, FullType, FunctionDef,
    Guard, InfixOp, InitDeclList, InitialValue, IntegralVector, InterfaceBlock, Interpolation,
    Iteration, Jump, Layout, LayoutId, LogicOp, MatrixShape, Memory, Operation, Param,
    Precision, PrefixOp, Prototype, Qualifier, QualifierSpec, Scalar, Selection, ShadowShape,
    Shape, SingleDecl, Stmt, Storage, StructDef, StructField, Switch, TailDecl, TypeKind,
    TypeSpec,
};
use crate::view::{
    ExternalDeclView, FunctionDefView, InterfaceBlockView, SingleDeclView, StmtView,
    StructDefView, Text,
};

verus! {

/// The text of a declaration of one name, without the semicolon that ends it.
pub uninterp spec fn single_declaration_text(d: SingleDeclView) -> Text;

/// The text of an interface block, without the semicolon that ends it.
pub uninterp spec fn block_text(b: InterfaceBlockView) -> Text;

/// The text of a struct definition, with the semicolon and the line end that follow it.
pub uninterp spec fn struct_text(s: StructDefView) -> Text;

/// The text of a function definition.
pub uninterp spec fn function_definition_text(f: FunctionDefView) -> Text;

/// The text of a statement.
pub uninterp spec fn statement_text(s: StmtView) -> Text;

/// The text of a declaration at the top level.
pub uninterp spec fn external_declaration_text(d: ExternalDeclView) -> Text;

/// The decimal digits of a number, most significant first.
pub open spec fn decimal_text(n: nat) -> Text
    decreases n,
{
    if n < 10 {
        seq![digit_char(n)]
    } else {
        decimal_text(n / 10).push(digit_char(n % 10))
    }
}

/// The character of a digit.
pub open spec fn digit_char(d: nat) -> char {
    if d == 0 {
        '0'
    } else if d == 1 {
        '1'
    } else if d == 2 {
        '2'
    } else if d == 3 {
        '3'
    } else if d == 4 {
        '4'
    } else if d == 5 {
        '5'
    } else if d == 6 {
        '6'
    } else if d == 7 {
        '7'
    } else if d == 8 {
        '8'
    } else {
        '9'
    }
}

/// Builds the `glsl::syntax::ArraySpecifierDimension` of a dimension.
#[verifier::external_body]
fn dim_node(d: &ArrayDim) -> ast::ArraySpecifierDimension {
    match d {
        ArrayDim::Unsized => ast::ArraySpecifierDimension::Unsized,
        ArrayDim::Sized(e) => ast::ArraySpecifierDimension::ExplicitlySized(boxed_node(e)),
    }
}

/// Builds the `glsl::syntax::ArraySpecifier` of array dimensions.
#[verifier::external_body]
fn array_node(a: &ArraySpec) -> ast::ArraySpecifier {
    ast::ArraySpecifier { dimensions: ast::NonEmpty(a.dims.iter().map(dim_node).collect()) }
}

/// Builds the `glsl::syntax::FunIdentifier` of a callee.
#[verifier::external_body]
fn callee_node(f: &Callee) -> ast::FunIdentifier {
    match f {
        Callee::Name(n) => ast::FunIdentifier::Identifier(n.as_str().into()),
        Callee::Expr(e) => ast::FunIdentifier::Expr(boxed_node(e)),
    }
}

/// Builds the `glsl::syntax::Expr` of an expression, in a box.
#[verifier::external_body]
fn boxed_node(e: &Expression) -> Box<ast::Expr> {
    Box::new(expr_node(e))
}

/// Builds the `glsl::syntax::UnaryOp` of an operator that stands before its operand.
#[verifier::external_body]
fn prefix_op_node(o: &PrefixOp) -> ast::UnaryOp {
    match o {
        PrefixOp::Inc => ast::UnaryOp::Inc,
        PrefixOp::Dec => ast::UnaryOp::Dec,
        PrefixOp::Add => ast::UnaryOp::Add,
        PrefixOp::Minus => ast::UnaryOp::Minus,
        PrefixOp::Not => ast::UnaryOp::Not,
        PrefixOp::Complement => ast::UnaryOp::Complement,
    }
}

/// Builds the `glsl::syntax::BinaryOp` of an operator on truth values.
#[verifier::external_body]
fn logic_op_node(o: &LogicOp) -> ast::BinaryOp {
    match o {
        LogicOp::Or => ast::BinaryOp::Or,
        LogicOp::Xor => ast::BinaryOp::Xor,
        LogicOp::And => ast::BinaryOp::And,
    }
}

/// Builds the `glsl::syntax::BinaryOp` of an operator on bits.
#[verifier::external_body]
fn bit_op_node(o: &BitOp) -> ast::BinaryOp {
    match o {
        BitOp::Or => ast::BinaryOp::BitOr,
        BitOp::Xor => ast::BinaryOp::BitXor,
        BitOp::And => ast::BinaryOp::BitAnd,
        BitOp::LShift => ast::BinaryOp::LShift,
        BitOp::RShift => ast::BinaryOp::RShift,
    }
}

/// Builds the `glsl::syntax::BinaryOp` of a comparison.
#[verifier::external_body]
fn compare_op_node(o: &CompareOp) -> ast::BinaryOp {
    match o {
        CompareOp::Equal => ast::BinaryOp::Equal,
        CompareOp::NonEqual => ast::BinaryOp::NonEqual,
        CompareOp::LT => ast::BinaryOp::LT,
        CompareOp::GT => ast::BinaryOp::GT,
        CompareOp::LTE => ast::BinaryOp::LTE,
        CompareOp::GTE => ast::BinaryOp::GTE,
    }
}

/// Builds the `glsl::syntax::BinaryOp` of an operator of arithmetic.
#[verifier::external_body]
fn arithmetic_op_node(o: &ArithmeticOp) -> ast::BinaryOp {
    match o {
        ArithmeticOp::Add => ast::BinaryOp::Add,
        ArithmeticOp::Sub => ast::BinaryOp::Sub,
        ArithmeticOp::Mult => ast::BinaryOp::Mult,
        ArithmeticOp::Div => ast::BinaryOp::Div,
        ArithmeticOp::Mod => ast::BinaryOp::Mod,
    }
}

/// Builds the `glsl::syntax::BinaryOp` of an operator that stands between its operands.
#[verifier::external_body]
fn infix_op_node(o: &InfixOp) -> ast::BinaryOp {
    match o {
        InfixOp::Logic(o) => logic_op_node(o),
        InfixOp::Bit(o) => bit_op_node(o),
        InfixOp::Compare(o) => compare_op_node(o),
        InfixOp::Arithmetic(o) => arithmetic_op_node(o),
    }
}

/// Builds the `glsl::syntax::AssignmentOp` of an operator that assigns what it computes.
#[verifier::external_body]
fn assign_op_node(o: &AssignOp) -> ast::AssignmentOp {
    match o {
        AssignOp::Mult => ast::AssignmentOp::Mult,
        AssignOp::Div => ast::AssignmentOp::Div,
        AssignOp::Mod => ast::AssignmentOp::Mod,
        AssignOp::Add => ast::AssignmentOp::Add,
        AssignOp::Sub => ast::AssignmentOp::Sub,
        AssignOp::LShift => ast::AssignmentOp::LShift,
        AssignOp::RShift => ast::AssignmentOp::RShift,
        AssignOp::And => ast::AssignmentOp::And,
        AssignOp::Xor => ast::AssignmentOp::Xor,
        AssignOp::Or => ast::AssignmentOp::Or,
    }
}

/// Builds the `glsl::syntax::Expr` of a constant.
#[verifier::external_body]
fn constant_node(c: &Constant) -> ast::Expr {
    match c {
        Constant::UInt(v) => ast::Expr::UIntConst(*v),
        Constant::Bool(b) => ast::Expr::BoolConst(*b),
        Constant::Real(r) => r.node().clone(),
    }
}

/// Builds the `glsl::syntax::Expr` of an operator between two operands.
#[verifier::external_body]
fn infix_node(op: &InfixOp, a: &Expression, b: &Expression) -> ast::Expr {
    ast::Expr::Binary(infix_op_node(op), boxed_node(a), boxed_node(b))
}

/// Builds the `glsl::syntax::Expr` of an assignment with an operator that computes.
#[verifier::external_body]
fn assign_node(target: &Expression, op: &AssignOp, value: &Expression) -> ast::Expr {
    ast::Expr::Assignment(boxed_node(target), assign_op_node(op), boxed_node(value))
}

/// Builds the `glsl::syntax::Expr` of an expression made with an operator.
#[verifier::external_body]
fn operation_node(o: &Operation) -> ast::Expr {
    match o {
        Operation::Prefix(op, a) => ast::Expr::Unary(prefix_op_node(op), boxed_node(a)),
        Operation::Infix(op, a, b) => infix_node(op, a, b),
        Operation::Ternary(a, b, c) => {
            ast::Expr::Ternary(boxed_node(a), boxed_node(b), boxed_node(c))
        },
        Operation::Assign(a, op, b) => assign_node(a, op, b),
        Operation::PostInc(a) => ast::Expr::PostInc(boxed_node(a)),
        Operation::PostDec(a) => ast::Expr::PostDec(boxed_node(a)),
        Operation::Comma(a, b) => ast::Expr::Comma(boxed_node(a), boxed_node(b)),
    }
}

/// Builds the `glsl::syntax::Expr` of a call.
#[verifier::external_body]
fn call_node(f: &Callee, args: &Vec<Expression>) -> ast::Expr {
    ast::Expr::FunCall(callee_node(f), args.iter().map(expr_node).collect())
}

/// Builds the `glsl::syntax::Expr` of an expression.
#[verifier::external_body]
fn expr_node(e: &Expression) -> ast::Expr {
    match e {
        Expression::Variable(n) => ast::Expr::Variable(n.as_str().into()),
        Expression::IntConst(i) => ast::Expr::IntConst(*i),
        Expression::Assign(l, r) => {
            ast::Expr::Assignment(boxed_node(l), ast::AssignmentOp::Equal, boxed_node(r))
        },
        Expression::Bracket(b, a) => ast::Expr::Bracket(boxed_node(b), array_node(a)),
        Expression::Call(f, args) => call_node(f, args),
        Expression::Dot(b, n) => ast::Expr::Dot(boxed_node(b), n.as_str().into()),
        Expression::Constant(c) => constant_node(c),
        Expression::Operation(o) => operation_node(o),
    }
}

/// Builds the `glsl::syntax::ArrayedIdentifier` of a declarator.
#[verifier::external_body]
fn declarator_node(d: &Declarator) -> ast::ArrayedIdentifier {
    ast::ArrayedIdentifier {
        ident: d.name.as_str().into(),
        array_spec: d.array.as_ref().map(array_node),
    }
}

/// Builds the `glsl::syntax::LayoutQualifierSpec` of a layout identifier.
#[verifier::external_body]
fn layout_id_node(l: &LayoutId) -> ast::LayoutQualifierSpec {
    match l {
        LayoutId::Named(n, e) => ast::LayoutQualifierSpec::Identifier(
            n.as_str().into(),
            e.as_ref().map(|e| boxed_node(e)),
        ),
        LayoutId::Shared => ast::LayoutQualifierSpec::Shared,
    }
}

/// Builds the `glsl::syntax::StorageQualifier` of a storage.
#[verifier::external_body]
fn storage_node(s: &Storage) -> ast::StorageQualifier {
    match s {
        Storage::Const => ast::StorageQualifier::Const,
        Storage::InOut => ast::StorageQualifier::InOut,
        Storage::Centroid => ast::StorageQualifier::Centroid,
        Storage::Patch => ast::StorageQualifier::Patch,
        Storage::Sample => ast::StorageQualifier::Sample,
        Storage::Attribute => ast::StorageQualifier::Attribute,
        Storage::Varying => ast::StorageQualifier::Varying,
        Storage::Buffer => ast::StorageQualifier::Buffer,
        Storage::Shared => ast::StorageQualifier::Shared,
        Storage::Subroutine(names) => {
            ast::StorageQualifier::Subroutine(names.iter().map(|n| n.as_str().into()).collect())
        },
    }
}

/// Builds the `glsl::syntax::StorageQualifier` of a memory qualifier.
#[verifier::external_body]
fn memory_node(m: &Memory) -> ast::StorageQualifier {
    match m {
        Memory::Coherent => ast::StorageQualifier::Coherent,
        Memory::Volatile => ast::StorageQualifier::Volatile,
        Memory::Restrict => ast::StorageQualifier::Restrict,
        Memory::ReadOnly => ast::StorageQualifier::ReadOnly,
        Memory::WriteOnly => ast::StorageQualifier::WriteOnly,
    }
}

/// Builds the `glsl::syntax::InterpolationQualifier` of an interpolation.
#[verifier::external_body]
fn interpolation_node(i: &Interpolation) -> ast::InterpolationQualifier {
    match i {
        Interpolation::Smooth => ast::InterpolationQualifier::Smooth,
        Interpolation::Flat => ast::InterpolationQualifier::Flat,
        Interpolation::NoPerspective => ast::InterpolationQualifier::NoPerspective,
    }
}

/// Builds the `glsl::syntax::LayoutQualifier` of a layout.
#[verifier::external_body]
fn layout_node(l: &Layout) -> ast::LayoutQualifier {
    ast::LayoutQualifier {
        ids: ast::NonEmpty(std::iter::once(&l.first).chain(&l.rest).map(layout_id_node).collect()),
    }
}

/// Builds the `glsl::syntax::TypeQualifierSpec` of a qualifier.
#[verifier::external_body]
fn qualifier_spec_node(q: &QualifierSpec) -> ast::TypeQualifierSpec {
    match q {
        QualifierSpec::In => ast::TypeQualifierSpec::Storage(ast::StorageQualifier::In),
        QualifierSpec::Out => ast::TypeQualifierSpec::Storage(ast::StorageQualifier::Out),
        QualifierSpec::Uniform => ast::TypeQualifierSpec::Storage(ast::StorageQualifier::Uniform),
        QualifierSpec::Storage(s) => ast::TypeQualifierSpec::Storage(storage_node(s)),
        QualifierSpec::Memory(m) => ast::TypeQualifierSpec::Storage(memory_node(m)),
        QualifierSpec::Layout(l) => ast::TypeQualifierSpec::Layout(layout_node(l)),
        QualifierSpec::Precision(p) => ast::TypeQualifierSpec::Precision(precision_node(p)),
        QualifierSpec::Interpolation(i) => {
            ast::TypeQualifierSpec::Interpolation(interpolation_node(i))
        },
        QualifierSpec::Invariant => ast::TypeQualifierSpec::Invariant,
        QualifierSpec::Precise => ast::TypeQualifierSpec::Precise,
    }
}

/// Builds the `glsl::syntax::TypeQualifier` of the qualifiers of a type.
#[verifier::external_body]
fn qualifier_node(q: &Qualifier) -> ast::TypeQualifier {
    ast::TypeQualifier {
        qualifiers: ast::NonEmpty(
            std::iter::once(&q.first).chain(&q.rest).map(qualifier_spec_node).collect(),
        ),
    }
}

/// Builds the `glsl::syntax::TypeSpecifierNonArray` of a scalar type.
#[verifier::external_body]
fn scalar_node(t: &Scalar) -> ast::TypeSpecifierNonArray {
    match t {
        Scalar::Void => ast::TypeSpecifierNonArray::Void,
        Scalar::Bool => ast::TypeSpecifierNonArray::Bool,
        Scalar::Int => ast::TypeSpecifierNonArray::Int,
        Scalar::UInt => ast::TypeSpecifierNonArray::UInt,
        Scalar::Float => ast::TypeSpecifierNonArray::Float,
        Scalar::Double => ast::TypeSpecifierNonArray::Double,
        Scalar::AtomicUInt => ast::TypeSpecifierNonArray::AtomicUInt,
    }
}

/// Builds the `glsl::syntax::TypeSpecifierNonArray` of a vector of floating-point components.
#[verifier::external_body]
fn float_vector_node(t: &FloatVector) -> ast::TypeSpecifierNonArray {
    match t {
        FloatVector::Vec2 => ast::TypeSpecifierNonArray::Vec2,
        FloatVector::Vec3 => ast::TypeSpecifierNonArray::Vec3,
        FloatVector::DVec2 => ast::TypeSpecifierNonArray::DVec2,
        FloatVector::DVec3 => ast::TypeSpecifierNonArray::DVec3,
        FloatVector::DVec4 => ast::TypeSpecifierNonArray::DVec4,
    }
}

/// Builds the `glsl::syntax::TypeSpecifierNonArray` of a vector of boolean or integer components.
#[verifier::external_body]
fn integral_vector_node(t: &IntegralVector) -> ast::TypeSpecifierNonArray {
    match t {
        IntegralVector::BVec2 => ast::TypeSpecifierNonArray::BVec2,
        IntegralVector::BVec3 => ast::TypeSpecifierNonArray::BVec3,
        IntegralVector::BVec4 => ast::TypeSpecifierNonArray::BVec4,
        IntegralVector::IVec2 => ast::TypeSpecifierNonArray::IVec2,
        IntegralVector::IVec3 => ast::TypeSpecifierNonArray::IVec3,
        IntegralVector::IVec4 => ast::TypeSpecifierNonArray::IVec4,
        IntegralVector::UVec2 => ast::TypeSpecifierNonArray::UVec2,
        IntegralVector::UVec3 => ast::TypeSpecifierNonArray::UVec3,
        IntegralVector::UVec4 => ast::TypeSpecifierNonArray::UVec4,
    }
}

/// Builds the `glsl::syntax::TypeSpecifierNonArray` of a matrix of single precision.
#[verifier::external_body]
fn matrix_node(t: &MatrixShape) -> ast::TypeSpecifierNonArray {
    match t {
        MatrixShape::Square2 => ast::TypeSpecifierNonArray::Mat2,
        MatrixShape::Square3 => ast::TypeSpecifierNonArray::Mat3,
        MatrixShape::Square4 => ast::TypeSpecifierNonArray::Mat4,
        MatrixShape::Cols2Rows3 => ast::TypeSpecifierNonArray::Mat23,
        MatrixShape::Cols2Rows4 => ast::TypeSpecifierNonArray::Mat24,
        MatrixShape::Cols3Rows2 => ast::TypeSpecifierNonArray::Mat32,
        MatrixShape::Cols3Rows4 => ast::TypeSpecifierNonArray::Mat34,
        MatrixShape::Cols4Rows2 => ast::TypeSpecifierNonArray::Mat42,
        MatrixShape::Cols4Rows3 => ast::TypeSpecifierNonArray::Mat43,
    }
}

/// Builds the `glsl::syntax::TypeSpecifierNonArray` of a matrix of double precision.
#[verifier::external_body]
fn double_matrix_node(t: &MatrixShape) -> ast::TypeSpecifierNonArray {
    match t {
        MatrixShape::Square2 => ast::TypeSpecifierNonArray::DMat2,
        MatrixShape::Square3 => ast::TypeSpecifierNonArray::DMat3,
        MatrixShape::Square4 => ast::TypeSpecifierNonArray::DMat4,
        MatrixShape::Cols2Rows3 => ast::TypeSpecifierNonArray::DMat23,
        MatrixShape::Cols2Rows4 => ast::TypeSpecifierNonArray::DMat24,
        MatrixShape::Cols3Rows2 => ast::TypeSpecifierNonArray::DMat32,
        MatrixShape::Cols3Rows4 => ast::TypeSpecifierNonArray::DMat34,
        MatrixShape::Cols4Rows2 => ast::TypeSpecifierNonArray::DMat42,
        MatrixShape::Cols4Rows3 => ast::TypeSpecifierNonArray::DMat43,
    }
}

/// Builds the `glsl::syntax::TypeSpecifierNonArray` of a floating-point sampler.
#[verifier::external_body]
fn sampler_node(t: &Shape) -> ast::TypeSpecifierNonArray {
    match t {
        Shape::D1 => ast::TypeSpecifierNonArray::Sampler1D,
        Shape::D2 => ast::TypeSpecifierNonArray::Sampler2D,
        Shape::D3 => ast::TypeSpecifierNonArray::Sampler3D,
        Shape::Cube => ast::TypeSpecifierNonArray::SamplerCube,
        Shape::Rect => ast::TypeSpecifierNonArray::Sampler2DRect,
        Shape::Array1 => ast::TypeSpecifierNonArray::Sampler1DArray,
        Shape::Array2 => ast::TypeSpecifierNonArray::Sampler2DArray,
        Shape::Buffer => ast::TypeSpecifierNonArray::SamplerBuffer,
        Shape::Multisample => ast::TypeSpecifierNonArray::Sampler2DMS,
        Shape::MultisampleArray => ast::TypeSpecifierNonArray::Sampler2DMSArray,
        Shape::CubeArray => ast::TypeSpecifierNonArray::SamplerCubeArray,
    }
}

/// Builds the `glsl::syntax::TypeSpecifierNonArray` of a floating-point image.
#[verifier::external_body]
fn image_node(t: &Shape) -> ast::TypeSpecifierNonArray {
    match t {
        Shape::D1 => ast::TypeSpecifierNonArray::Image1D,
        Shape::D2 => ast::TypeSpecifierNonArray::Image2D,
        Shape::D3 => ast::TypeSpecifierNonArray::Image3D,
        Shape::Cube => ast::TypeSpecifierNonArray::ImageCube,
        Shape::Rect => ast::TypeSpecifierNonArray::Image2DRect,
        Shape::Array1 => ast::TypeSpecifierNonArray::Image1DArray,
        Shape::Array2 => ast::TypeSpecifierNonArray::Image2DArray,
        Shape::Buffer => ast::TypeSpecifierNonArray::ImageBuffer,
        Shape::Multisample => ast::TypeSpecifierNonArray::Image2DMS,
        Shape::MultisampleArray => ast::TypeSpecifierNonArray::Image2DMSArray,
        Shape::CubeArray => ast::TypeSpecifierNonArray::ImageCubeArray,
    }
}

/// Builds the `glsl::syntax::TypeSpecifierNonArray` of a signed integer sampler.
#[verifier::external_body]
fn isampler_node(t: &Shape) -> ast::TypeSpecifierNonArray {
    match t {
        Shape::D1 => ast::TypeSpecifierNonArray::ISampler1D,
        Shape::D2 => ast::TypeSpecifierNonArray::ISampler2D,
        Shape::D3 => ast::TypeSpecifierNonArray::ISampler3D,
        Shape::Cube => ast::TypeSpecifierNonArray::ISamplerCube,
        Shape::Rect => ast::TypeSpecifierNonArray::ISampler2DRect,
        Shape::Array1 => ast::TypeSpecifierNonArray::ISampler1DArray,
        Shape::Array2 => ast::TypeSpecifierNonArray::ISampler2DArray,
        Shape::Buffer => ast::TypeSpecifierNonArray::ISamplerBuffer,
        Shape::Multisample => ast::TypeSpecifierNonArray::ISampler2DMS,
        Shape::MultisampleArray => ast::TypeSpecifierNonArray::ISampler2DMSArray,
        Shape::CubeArray => ast::TypeSpecifierNonArray::ISamplerCubeArray,
    }
}

/// Builds the `glsl::syntax::TypeSpecifierNonArray` of a signed integer image.
#[verifier::external_body]
fn iimage_node(t: &Shape) -> ast::TypeSpecifierNonArray {
    match t {
        Shape::D1 => ast::TypeSpecifierNonArray::IImage1D,
        Shape::D2 => ast::TypeSpecifierNonArray::IImage2D,
        Shape::D3 => ast::TypeSpecifierNonArray::IImage3D,
        Shape::Cube => ast::TypeSpecifierNonArray::IImageCube,
        Shape::Rect => ast::TypeSpecifierNonArray::IImage2DRect,
        Shape::Array1 => ast::TypeSpecifierNonArray::IImage1DArray,
        Shape::Array2 => ast::TypeSpecifierNonArray::IImage2DArray,
        Shape::Buffer => ast::TypeSpecifierNonArray::IImageBuffer,
        Shape::Multisample => ast::TypeSpecifierNonArray::IImage2DMS,
        Shape::MultisampleArray => ast::TypeSpecifierNonArray::IImage2DMSArray,
        Shape::CubeArray => ast::TypeSpecifierNonArray::IImageCubeArray,
    }
}

/// Builds the `glsl::syntax::TypeSpecifierNonArray` of a unsigned integer sampler.
#[verifier::external_body]
fn usampler_node(t: &Shape) -> ast::TypeSpecifierNonArray {
    match t {
        Shape::D1 => ast::TypeSpecifierNonArray::USampler1D,
        Shape::D2 => ast::TypeSpecifierNonArray::USampler2D,
        Shape::D3 => ast::TypeSpecifierNonArray::USampler3D,
        Shape::Cube => ast::TypeSpecifierNonArray::USamplerCube,
        Shape::Rect => ast::TypeSpecifierNonArray::USampler2DRect,
        Shape::Array1 => ast::TypeSpecifierNonArray::USampler1DArray,
        Shape::Array2 => ast::TypeSpecifierNonArray::USampler2DArray,
        Shape::Buffer => ast::TypeSpecifierNonArray::USamplerBuffer,
        Shape::Multisample => ast::TypeSpecifierNonArray::USampler2DMS,
        Shape::MultisampleArray => ast::TypeSpecifierNonArray::USampler2DMSArray,
        Shape::CubeArray => ast::TypeSpecifierNonArray::USamplerCubeArray,
    }
}

/// Builds the `glsl::syntax::TypeSpecifierNonArray` of a unsigned integer image.
#[verifier::external_body]
fn uimage_node(t: &Shape) -> ast::TypeSpecifierNonArray {
    match t {
        Shape::D1 => ast::TypeSpecifierNonArray::UImage1D,
        Shape::D2 => ast::TypeSpecifierNonArray::UImage2D,
        Shape::D3 => ast::TypeSpecifierNonArray::UImage3D,
        Shape::Cube => ast::TypeSpecifierNonArray::UImageCube,
        Shape::Rect => ast::TypeSpecifierNonArray::UImage2DRect,
        Shape::Array1 => ast::TypeSpecifierNonArray::UImage1DArray,
        Shape::Array2 => ast::TypeSpecifierNonArray::UImage2DArray,
        Shape::Buffer => ast::TypeSpecifierNonArray::UImageBuffer,
        Shape::Multisample => ast::TypeSpecifierNonArray::UImage2DMS,
        Shape::MultisampleArray => ast::TypeSpecifierNonArray::UImage2DMSArray,
        Shape::CubeArray => ast::TypeSpecifierNonArray::UImageCubeArray,
    }
}

/// Builds the `glsl::syntax::TypeSpecifierNonArray` of a shadow sampler.
#[verifier::external_body]
fn shadow_node(t: &ShadowShape) -> ast::TypeSpecifierNonArray {
    match t {
        ShadowShape::D1 => ast::TypeSpecifierNonArray::Sampler1DShadow,
        ShadowShape::D2 => ast::TypeSpecifierNonArray::Sampler2DShadow,
        ShadowShape::Rect => ast::TypeSpecifierNonArray::Sampler2DRectShadow,
        ShadowShape::Array1 => ast::TypeSpecifierNonArray::Sampler1DArrayShadow,
        ShadowShape::Array2 => ast::TypeSpecifierNonArray::Sampler2DArrayShadow,
        ShadowShape::Cube => ast::TypeSpecifierNonArray::SamplerCubeShadow,
        ShadowShape::CubeArray => ast::TypeSpecifierNonArray::SamplerCubeArrayShadow,
    }
}

/// Builds the `glsl::syntax::TypeSpecifierNonArray` of a built-in type.
#[verifier::external_body]
fn built_in_node(t: &BuiltIn) -> ast::TypeSpecifierNonArray {
    match t {
        BuiltIn::Scalar(t) => scalar_node(t),
        BuiltIn::FloatVector(t) => float_vector_node(t),
        BuiltIn::IntegralVector(t) => integral_vector_node(t),
        BuiltIn::Matrix(t) => matrix_node(t),
        BuiltIn::DoubleMatrix(t) => double_matrix_node(t),
        BuiltIn::Sampler(t) => sampler_node(t),
        BuiltIn::Image(t) => image_node(t),
        BuiltIn::ISampler(t) => isampler_node(t),
        BuiltIn::IImage(t) => iimage_node(t),
        BuiltIn::USampler(t) => usampler_node(t),
        BuiltIn::UImage(t) => uimage_node(t),
        BuiltIn::Shadow(t) => shadow_node(t),
    }
}

/// Builds the `glsl::syntax::TypeSpecifier` of a type.
#[verifier::external_body]
fn type_node(t: &TypeSpec) -> ast::TypeSpecifier {
    let ty = match &t.kind {
        TypeKind::Vec4 => ast::TypeSpecifierNonArray::Vec4,
        TypeKind::Struct(s) => ast::TypeSpecifierNonArray::Struct(struct_node(s)),
        TypeKind::Named(n) => ast::TypeSpecifierNonArray::TypeName(n.as_str().into()),
        TypeKind::BuiltIn(b) => built_in_node(b),
    };
    ast::TypeSpecifier { ty, array_specifier: t.array.as_ref().map(array_node) }
}

/// Builds the `glsl::syntax::StructFieldSpecifier` of a field line.
#[verifier::external_body]
fn struct_field_node(f: &StructField) -> ast::StructFieldSpecifier {
    ast::StructFieldSpecifier {
        qualifier: f.qualifier.as_ref().map(qualifier_node),
        ty: type_node(&f.ty),
        identifiers: ast::NonEmpty(
            std::iter::once(&f.first).chain(&f.rest).map(declarator_node).collect(),
        ),
    }
}

/// Builds the `glsl::syntax::StructSpecifier` of a struct definition.
#[verifier::external_body]
fn struct_node(s: &StructDef) -> ast::StructSpecifier {
    ast::StructSpecifier {
        name: s.name.as_ref().map(|n| n.as_str().into()),
        fields: ast::NonEmpty(s.fields.iter().map(struct_field_node).collect()),
    }
}

/// Builds the `glsl::syntax::FullySpecifiedType` of a qualified type.
#[verifier::external_body]
fn full_type_node(t: &FullType) -> ast::FullySpecifiedType {
    ast::FullySpecifiedType {
        qualifier: t.qualifier.as_ref().map(qualifier_node),
        ty: type_node(&t.ty),
    }
}

/// Builds the `glsl::syntax::Initializer` of an initial value.
#[verifier::external_body]
fn initial_value_node(i: &InitialValue) -> ast::Initializer {
    match i {
        InitialValue::Simple(e) => ast::Initializer::Simple(boxed_node(e)),
        InitialValue::List(first, rest) => ast::Initializer::List(ast::NonEmpty(
            std::iter::once(&**first).chain(rest).map(initial_value_node).collect(),
        )),
    }
}

/// Builds the `glsl::syntax::SingleDeclaration` of a declaration of one name.
#[verifier::external_body]
fn single_decl_node(d: &SingleDecl) -> ast::SingleDeclaration {
    ast::SingleDeclaration {
        ty: full_type_node(&d.ty),
        name: d.name.as_ref().map(|n| n.as_str().into()),
        array_specifier: d.array.as_ref().map(array_node),
        initializer: d.initializer.as_ref().map(initial_value_node),
    }
}

/// Builds the `glsl::syntax::SingleDeclarationNoType` of a further name of a list.
#[verifier::external_body]
fn tail_decl_node(d: &TailDecl) -> ast::SingleDeclarationNoType {
    ast::SingleDeclarationNoType {
        ident: declarator_node(&d.ident),
        initializer: d.initializer.as_ref().map(initial_value_node),
    }
}

/// Builds the `glsl::syntax::Block` of an interface block.
#[verifier::external_body]
fn block_node(b: &InterfaceBlock) -> ast::Block {
    ast::Block {
        qualifier: qualifier_node(&b.qualifier),
        name: b.name.as_str().into(),
        fields: b.fields.iter().map(struct_field_node).collect(),
        identifier: b.identifier.as_ref().map(declarator_node),
    }
}

/// Builds the `glsl::syntax::InitDeclaratorList` of a variable-like declaration.
#[verifier::external_body]
fn vars_node(l: &InitDeclList) -> ast::InitDeclaratorList {
    ast::InitDeclaratorList {
        head: single_decl_node(&l.head),
        tail: l.tail.iter().map(tail_decl_node).collect(),
    }
}

/// Builds the `glsl::syntax::FunctionPrototype` of the head of a function.
#[verifier::external_body]
fn prototype_node(p: &Prototype) -> ast::FunctionPrototype {
    ast::FunctionPrototype {
        ty: full_type_node(&p.ty),
        name: p.name.as_str().into(),
        parameters: p.params.iter().map(param_node).collect(),
    }
}

/// Builds the `glsl::syntax::PrecisionQualifier` of a precision.
#[verifier::external_body]
fn precision_node(p: &Precision) -> ast::PrecisionQualifier {
    match p {
        Precision::High => ast::PrecisionQualifier::High,
        Precision::Medium => ast::PrecisionQualifier::Medium,
        Precision::Low => ast::PrecisionQualifier::Low,
    }
}

/// Builds the `glsl::syntax::Declaration` of a declaration.
#[verifier::external_body]
fn decl_node(d: &Decl) -> ast::Declaration {
    match d {
        Decl::Vars(l) => ast::Declaration::InitDeclaratorList(vars_node(l)),
        Decl::Block(b) => ast::Declaration::Block(block_node(b)),
        Decl::Global(q, names) => ast::Declaration::Global(
            qualifier_node(q),
            names.iter().map(|n| n.as_str().into()).collect(),
        ),
        Decl::Prototype(p) => ast::Declaration::FunctionPrototype(prototype_node(p)),
        Decl::Precision(p, t) => ast::Declaration::Precision(precision_node(p), type_node(t)),
    }
}

/// Builds the `glsl::syntax::FunctionParameterDeclaration` of a parameter.
#[verifier::external_body]
fn param_node(p: &Param) -> ast::FunctionParameterDeclaration {
    match p {
        Param::Named(q, t, d) => ast::FunctionParameterDeclaration::Named(
            q.as_ref().map(qualifier_node),
            ast::FunctionParameterDeclarator { ty: type_node(t), ident: declarator_node(d) },
        ),
        Param::Unnamed(q, t) => ast::FunctionParameterDeclaration::Unnamed(
            q.as_ref().map(qualifier_node),
            type_node(t),
        ),
    }
}

/// Builds the `glsl::syntax::Condition` of what a loop tests.
#[verifier::external_body]
fn guard_node(g: &Guard) -> ast::Condition {
    match g {
        Guard::Expr(e) => ast::Condition::Expr(boxed_node(e)),
        Guard::Binding(t, n, i) => {
            ast::Condition::Assignment(full_type_node(t), n.as_str().into(), initial_value_node(i))
        },
    }
}

/// Builds the `glsl::syntax::ForInitStatement` of what a `for` loop starts with.
#[verifier::external_body]
fn for_init_node(i: &ForInit) -> ast::ForInitStatement {
    match i {
        ForInit::Expression(e) => ast::ForInitStatement::Expression(e.as_ref().map(expr_node)),
        ForInit::Declaration(d) => ast::ForInitStatement::Declaration(Box::new(decl_node(d))),
    }
}

/// Builds the `glsl::syntax::Statement` of a statement, in a box.
#[verifier::external_body]
fn boxed_stmt_node(s: &Stmt) -> Box<ast::Statement> {
    Box::new(stmt_node(s))
}

/// Builds the `glsl::syntax::SelectionStatement` of an `if` statement.
#[verifier::external_body]
fn selection_node(i: &Selection) -> ast::SelectionStatement {
    let body = boxed_stmt_node(&i.body);
    let rest = match &i.otherwise {
        Some(e) => ast::SelectionRestStatement::Else(body, boxed_stmt_node(e)),
        None => ast::SelectionRestStatement::Statement(body),
    };
    ast::SelectionStatement { cond: boxed_node(&i.cond), rest }
}

/// Builds the `glsl::syntax::SwitchStatement` of a `switch` statement.
#[verifier::external_body]
fn switch_node(w: &Switch) -> ast::SwitchStatement {
    ast::SwitchStatement {
        head: boxed_node(&w.head),
        body: w.body.iter().map(stmt_node).collect(),
    }
}

/// Builds the `glsl::syntax::IterationStatement` of a loop.
#[verifier::external_body]
fn iteration_node(l: &Iteration) -> ast::IterationStatement {
    match l {
        Iteration::While(g, b) => ast::IterationStatement::While(guard_node(g), boxed_stmt_node(b)),
        Iteration::DoWhile(b, e) => {
            ast::IterationStatement::DoWhile(boxed_stmt_node(b), boxed_node(e))
        },
        Iteration::For(init, g, post, b) => ast::IterationStatement::For(
            for_init_node(init),
            ast::ForRestStatement {
                condition: g.as_ref().map(guard_node),
                post_expr: post.as_ref().map(boxed_node),
            },
            boxed_stmt_node(b),
        ),
    }
}

/// Builds the `glsl::syntax::JumpStatement` of a jump.
#[verifier::external_body]
fn jump_node(j: &Jump) -> ast::JumpStatement {
    match j {
        Jump::Continue => ast::JumpStatement::Continue,
        Jump::Break => ast::JumpStatement::Break,
        Jump::Return(e) => ast::JumpStatement::Return(e.as_ref().map(boxed_node)),
        Jump::Discard => ast::JumpStatement::Discard,
    }
}

/// Builds the `glsl::syntax::CaseLabel` of a case label.
#[verifier::external_body]
fn case_node(c: &Option<Expression>) -> ast::CaseLabel {
    match c {
        Some(e) => ast::CaseLabel::Case(boxed_node(e)),
        None => ast::CaseLabel::Def,
    }
}

/// Builds the `glsl::syntax::CompoundStatement` of a block of statements.
#[verifier::external_body]
fn compound_node(list: &Vec<Stmt>) -> ast::CompoundStatement {
    ast::CompoundStatement { statement_list: list.iter().map(stmt_node).collect() }
}

/// Builds the `glsl::syntax::Statement` of a statement.
#[verifier::external_body]
fn stmt_node(s: &Stmt) -> ast::Statement {
    let simple = match s {
        Stmt::Compound(list) => return ast::Statement::Compound(Box::new(compound_node(list))),
        Stmt::Declaration(d) => ast::SimpleStatement::Declaration(decl_node(d)),
        Stmt::Expression(e) => ast::SimpleStatement::Expression(e.as_ref().map(expr_node)),
        Stmt::Selection(i) => ast::SimpleStatement::Selection(selection_node(i)),
        Stmt::Switch(w) => ast::SimpleStatement::Switch(switch_node(w)),
        Stmt::Case(c) => ast::SimpleStatement::CaseLabel(case_node(c)),
        Stmt::Iteration(l) => ast::SimpleStatement::Iteration(iteration_node(l)),
        Stmt::Jump(j) => ast::SimpleStatement::Jump(jump_node(j)),
    };
    ast::Statement::Simple(Box::new(simple))
}

/// Builds the `glsl::syntax::FunctionDefinition` of a function.
#[verifier::external_body]
fn function_node(f: &FunctionDef) -> ast::FunctionDefinition {
    ast::FunctionDefinition {
        prototype: ast::FunctionPrototype {
            ty: full_type_node(&f.ty),
            name: f.name.as_str().into(),
            parameters: f.params.iter().map(param_node).collect(),
        },
        statement: compound_node(&f.body),
    }
}

/// Builds the `glsl::syntax::ExternalDeclaration` of a declaration at the top level.
#[verifier::external_body]
fn external_decl_node(d: &ExternalDecl) -> ast::ExternalDeclaration {
    match d {
        ExternalDecl::Function(f) => ast::ExternalDeclaration::FunctionDefinition(function_node(f)),
        ExternalDecl::Declaration(d) => ast::ExternalDeclaration::Declaration(decl_node(d)),
        ExternalDecl::Directive(p) => ast::ExternalDeclaration::Preprocessor(p.clone()),
    }
}

/// Calls `glsl::transpiler::glsl::show_single_declaration`. The text depends on the
/// declaration alone.
#[verifier::external_body]
pub(crate) fn show_single_declaration(d: &SingleDecl) -> (text: String)
    ensures
        text@ == single_declaration_text(d@),
{
    let mut text = String::new();
    printer::show_single_declaration(&mut text, &single_decl_node(d));
    text
}

/// Calls `glsl::transpiler::glsl::show_block`. The text depends on the block alone.
#[verifier::external_body]
pub(crate) fn show_block(b: &InterfaceBlock) -> (text: String)
    ensures
        text@ == block_text(b@),
{
    let mut text = String::new();
    printer::show_block(&mut text, &block_node(b));
    text
}

/// Calls `glsl::transpiler::glsl::show_struct`. The text depends on the struct alone.
#[verifier::external_body]
pub(crate) fn show_struct(s: &StructDef) -> (text: String)
    ensures
        text@ == struct_text(s@),
{
    let mut text = String::new();
    printer::show_struct(&mut text, &struct_node(s));
    text
}

/// Calls `glsl::transpiler::glsl::show_function_definition`. The text depends on the function
/// alone.
#[verifier::external_body]
pub(crate) fn show_function_definition(f: &FunctionDef) -> (text: String)
    ensures
        text@ == function_definition_text(f@),
{
    let mut text = String::new();
    printer::show_function_definition(&mut text, &function_node(f));
    text
}

/// Calls `glsl::transpiler::glsl::show_statement`. The text depends on the statement alone.
#[verifier::external_body]
pub(crate) fn show_statement(s: &Stmt) -> (text: String)
    ensures
        text@ == statement_text(s@),
{
    let mut text = String::new();
    printer::show_statement(&mut text, &stmt_node(s));
    text
}

/// Calls `glsl::transpiler::glsl::show_external_declaration`. The text depends on the
/// declaration alone.
#[verifier::external_body]
pub(crate) fn show_external_declaration(d: &ExternalDecl) -> (text: String)
    ensures
        text@ == external_declaration_text(d@),
{
    let mut text = String::new();
    printer::show_external_declaration(&mut text, &external_decl_node(d));
    text
}

/// Calls `usize::to_string`, which writes a number in decimal.
#[verifier::external_body]
pub(crate) fn show_number(n: usize) -> (text: String)
    ensures
        text@ == decimal_text(n as nat),
{
    n.to_string()
}

} // verus!
