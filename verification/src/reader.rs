//! Reading of shading code, which the `glsl` crate does: the crate's parser reads the code,
//! and every node it gives is turned into the node of the declaration tree that stands for
//! it. The parser leaves some lists empty that must hold an item: the names of a struct
//! field, the identifiers of a layout, the values of a list of initial values. A node that
//! holds such a list has no node in the tree.
use vstd::prelude::*;
use glsl::parser::Parse;
use glsl::syntax as ast;
use crate::syntax::{
    ArithmeticOp, ArrayDim, ArraySpec, AssignOp, BitOp, BuiltIn, Callee, CompareOp, Constant,
    Decl, Declarator, Expression, ExternalDecl, FloatVector, ForInit, FullType, FunctionDef,
    Guard, InfixOp, InitDeclList, InitialValue, IntegralVector, InterfaceBlock, Interpolation,
    Iteration, Jump, Layout, LayoutId, LogicOp, MatrixShape, Memory, Operation, Param,
    Precision, PrefixOp, Prototype, Qualifier, QualifierSpec, RealConst, Scalar, Selection,
    ShadowShape, Shape, SingleDecl, Stmt, Storage, StructDef, StructField, Switch, TailDecl,
    TypeKind, TypeSpec,
};
use crate::import::has_at;
use crate::view::{views, ExternalDeclView, Text};

verus! {

/// What the parser makes of shading code: the declarations it reads, `None` where one of
/// them has no node in the declaration tree, or the message of the parser where it refuses
/// the code.
pub uninterp spec fn parsed_code(code: Text) -> Result<Option<Seq<ExternalDeclView>>, Text>;

/// Reads the dimension that a `glsl::syntax::ArraySpecifierDimension` is.
#[verifier::external_body]
fn dim_of(d: &ast::ArraySpecifierDimension) -> ArrayDim {
    match d {
        ast::ArraySpecifierDimension::Unsized => ArrayDim::Unsized,
        ast::ArraySpecifierDimension::ExplicitlySized(e) => ArrayDim::Sized(boxed_of(e)),
    }
}

/// Reads the dimensions that a `glsl::syntax::ArraySpecifier` holds.
#[verifier::external_body]
fn array_of(a: &ast::ArraySpecifier) -> ArraySpec {
    ArraySpec { dims: a.dimensions.0.iter().map(dim_of).collect() }
}

/// Reads the optional dimensions of a node.
#[verifier::external_body]
fn dims_of(a: &Option<ast::ArraySpecifier>) -> Option<ArraySpec> {
    a.as_ref().map(array_of)
}

/// Reads the callee that a `glsl::syntax::FunIdentifier` is.
#[verifier::external_body]
fn callee_of(f: &ast::FunIdentifier) -> Callee {
    match f {
        ast::FunIdentifier::Identifier(name) => Callee::Name(name.0.clone()),
        ast::FunIdentifier::Expr(e) => Callee::Expr(boxed_of(e)),
    }
}

/// Reads the expression that a `glsl::syntax::Expr` is, in a box.
#[verifier::external_body]
fn boxed_of(e: &ast::Expr) -> Box<Expression> {
    Box::new(expression_of(e))
}

/// Reads the operator that a `glsl::syntax::UnaryOp` is.
#[verifier::external_body]
fn prefix_op_of(o: &ast::UnaryOp) -> PrefixOp {
    match o {
        ast::UnaryOp::Inc => PrefixOp::Inc,
        ast::UnaryOp::Dec => PrefixOp::Dec,
        ast::UnaryOp::Add => PrefixOp::Add,
        ast::UnaryOp::Minus => PrefixOp::Minus,
        ast::UnaryOp::Not => PrefixOp::Not,
        ast::UnaryOp::Complement => PrefixOp::Complement,
    }
}

/// Reads a `glsl::syntax::BinaryOp` as an operator on truth values; `None` where it is none.
#[verifier::external_body]
fn logic_op_of(o: &ast::BinaryOp) -> Option<InfixOp> {
    Some(InfixOp::Logic(match o {
        ast::BinaryOp::Or => LogicOp::Or,
        ast::BinaryOp::Xor => LogicOp::Xor,
        ast::BinaryOp::And => LogicOp::And,
        _ => return None,
    }))
}

/// Reads a `glsl::syntax::BinaryOp` as an operator on bits; `None` where it is none.
#[verifier::external_body]
fn bit_op_of(o: &ast::BinaryOp) -> Option<InfixOp> {
    Some(InfixOp::Bit(match o {
        ast::BinaryOp::BitOr => BitOp::Or,
        ast::BinaryOp::BitXor => BitOp::Xor,
        ast::BinaryOp::BitAnd => BitOp::And,
        ast::BinaryOp::LShift => BitOp::LShift,
        ast::BinaryOp::RShift => BitOp::RShift,
        _ => return None,
    }))
}

/// Reads a `glsl::syntax::BinaryOp` as a comparison; `None` where it is none.
#[verifier::external_body]
fn compare_op_of(o: &ast::BinaryOp) -> Option<InfixOp> {
    Some(InfixOp::Compare(match o {
        ast::BinaryOp::Equal => CompareOp::Equal,
        ast::BinaryOp::NonEqual => CompareOp::NonEqual,
        ast::BinaryOp::LT => CompareOp::LT,
        ast::BinaryOp::GT => CompareOp::GT,
        ast::BinaryOp::LTE => CompareOp::LTE,
        ast::BinaryOp::GTE => CompareOp::GTE,
        _ => return None,
    }))
}

/// Reads a `glsl::syntax::BinaryOp` as an operator of arithmetic; `None` where it is none.
#[verifier::external_body]
fn arithmetic_op_of(o: &ast::BinaryOp) -> Option<InfixOp> {
    Some(InfixOp::Arithmetic(match o {
        ast::BinaryOp::Add => ArithmeticOp::Add,
        ast::BinaryOp::Sub => ArithmeticOp::Sub,
        ast::BinaryOp::Mult => ArithmeticOp::Mult,
        ast::BinaryOp::Div => ArithmeticOp::Div,
        ast::BinaryOp::Mod => ArithmeticOp::Mod,
        _ => return None,
    }))
}

/// Reads the operator that a `glsl::syntax::BinaryOp` is.
#[verifier::external_body]
fn infix_op_of(o: &ast::BinaryOp) -> Option<InfixOp> {
    logic_op_of(o)
        .or_else(|| bit_op_of(o))
        .or_else(|| compare_op_of(o))
        .or_else(|| arithmetic_op_of(o))
}

/// Reads the operator that a `glsl::syntax::AssignmentOp` is; `None` for `=`.
#[verifier::external_body]
fn assign_op_of(o: &ast::AssignmentOp) -> Option<AssignOp> {
    Some(match o {
        ast::AssignmentOp::Equal => return None,
        ast::AssignmentOp::Mult => AssignOp::Mult,
        ast::AssignmentOp::Div => AssignOp::Div,
        ast::AssignmentOp::Mod => AssignOp::Mod,
        ast::AssignmentOp::Add => AssignOp::Add,
        ast::AssignmentOp::Sub => AssignOp::Sub,
        ast::AssignmentOp::LShift => AssignOp::LShift,
        ast::AssignmentOp::RShift => AssignOp::RShift,
        ast::AssignmentOp::And => AssignOp::And,
        ast::AssignmentOp::Xor => AssignOp::Xor,
        ast::AssignmentOp::Or => AssignOp::Or,
    })
}

/// Reads the constant that a `glsl::syntax::Expr` is, where it is a constant and no integer
/// literal: what is neither an unsigned literal nor a truth value is then a constant of
/// floating point.
#[verifier::external_body]
fn constant_of(e: &ast::Expr) -> Constant {
    match e {
        ast::Expr::UIntConst(v) => Constant::UInt(*v),
        ast::Expr::BoolConst(b) => Constant::Bool(*b),
        other => Constant::Real(RealConst::seal(other.clone())),
    }
}

/// Reads the operation that an operator of the `glsl` crate makes of two operands; `None`
/// where the operator is not read.
#[verifier::external_body]
fn infix_of(op: &ast::BinaryOp, a: &ast::Expr, b: &ast::Expr) -> Option<Operation> {
    Some(Operation::Infix(infix_op_of(op)?, boxed_of(a), boxed_of(b)))
}

/// Reads the operation that an assignment of the `glsl` crate is; `None` for `=`.
#[verifier::external_body]
fn assign_of(target: &ast::Expr, op: &ast::AssignmentOp, value: &ast::Expr) -> Option<
    Operation,
> {
    Some(Operation::Assign(boxed_of(target), assign_op_of(op)?, boxed_of(value)))
}

/// Reads a `glsl::syntax::Expr` as an expression made with an operator; `None` where it is
/// none, and for `target = value`.
#[verifier::external_body]
fn operation_of(e: &ast::Expr) -> Option<Operation> {
    Some(match e {
        ast::Expr::Unary(op, a) => Operation::Prefix(prefix_op_of(op), boxed_of(a)),
        ast::Expr::Binary(op, a, b) => return infix_of(op, a, b),
        ast::Expr::Ternary(a, b, c) => Operation::Ternary(boxed_of(a), boxed_of(b), boxed_of(c)),
        ast::Expr::Assignment(a, op, b) => return assign_of(a, op, b),
        ast::Expr::PostInc(a) => Operation::PostInc(boxed_of(a)),
        ast::Expr::PostDec(a) => Operation::PostDec(boxed_of(a)),
        ast::Expr::Comma(a, b) => Operation::Comma(boxed_of(a), boxed_of(b)),
        _ => return None,
    })
}

/// Reads the expression that a `glsl::syntax::Expr` is, where it is made with an operator
/// other than `=` or is a constant and no integer literal: what is no operation is then a
/// constant.
#[verifier::external_body]
fn composed_of(e: &ast::Expr) -> Expression {
    match operation_of(e) {
        Some(o) => Expression::Operation(o),
        None => Expression::Constant(constant_of(e)),
    }
}

/// Reads the expression that a `glsl::syntax::Expr` is.
#[verifier::external_body]
fn expression_of(e: &ast::Expr) -> Expression {
    match e {
        ast::Expr::Variable(name) => Expression::Variable(name.0.clone()),
        ast::Expr::IntConst(value) => Expression::IntConst(*value),
        ast::Expr::Assignment(target, ast::AssignmentOp::Equal, value) => {
            Expression::Assign(boxed_of(target), boxed_of(value))
        },
        ast::Expr::Bracket(base, dims) => Expression::Bracket(boxed_of(base), array_of(dims)),
        ast::Expr::FunCall(f, args) => {
            Expression::Call(callee_of(f), args.iter().map(expression_of).collect())
        },
        ast::Expr::Dot(base, field) => Expression::Dot(boxed_of(base), field.0.clone()),
        other => composed_of(other),
    }
}

/// Reads the declarator that a `glsl::syntax::ArrayedIdentifier` is.
#[verifier::external_body]
fn declarator_of(d: &ast::ArrayedIdentifier) -> Declarator {
    Declarator { name: d.ident.0.clone(), array: dims_of(&d.array_spec) }
}

/// Reads the layout identifier that a `glsl::syntax::LayoutQualifierSpec` is.
#[verifier::external_body]
fn layout_id_of(l: &ast::LayoutQualifierSpec) -> LayoutId {
    match l {
        ast::LayoutQualifierSpec::Identifier(name, value) => {
            LayoutId::Named(name.0.clone(), value.as_ref().map(|e| boxed_of(e)))
        },
        ast::LayoutQualifierSpec::Shared => LayoutId::Shared,
    }
}

/// Reads the storage that a `glsl::syntax::StorageQualifier` is; `None` for a memory
/// qualifier. The storages `in`, `out` and `uniform` have variants of their own.
#[verifier::external_body]
fn storage_of(s: &ast::StorageQualifier) -> Option<QualifierSpec> {
    Some(match s {
        ast::StorageQualifier::In => QualifierSpec::In,
        ast::StorageQualifier::Out => QualifierSpec::Out,
        ast::StorageQualifier::Uniform => QualifierSpec::Uniform,
        ast::StorageQualifier::Const => QualifierSpec::Storage(Storage::Const),
        ast::StorageQualifier::InOut => QualifierSpec::Storage(Storage::InOut),
        ast::StorageQualifier::Centroid => QualifierSpec::Storage(Storage::Centroid),
        ast::StorageQualifier::Patch => QualifierSpec::Storage(Storage::Patch),
        ast::StorageQualifier::Sample => QualifierSpec::Storage(Storage::Sample),
        ast::StorageQualifier::Attribute => QualifierSpec::Storage(Storage::Attribute),
        ast::StorageQualifier::Varying => QualifierSpec::Storage(Storage::Varying),
        ast::StorageQualifier::Buffer => QualifierSpec::Storage(Storage::Buffer),
        _ => return None,
    })
}

/// Reads the qualifier that a `glsl::syntax::StorageQualifier` is where it is `shared`,
/// `subroutine` or a memory qualifier; `None` for the others.
#[verifier::external_body]
fn memory_of(s: &ast::StorageQualifier) -> Option<QualifierSpec> {
    Some(match s {
        ast::StorageQualifier::Shared => QualifierSpec::Storage(Storage::Shared),
        ast::StorageQualifier::Subroutine(names) => {
            let names = names.iter().map(|n| n.0.clone()).collect();
            QualifierSpec::Storage(Storage::Subroutine(names))
        },
        ast::StorageQualifier::Coherent => QualifierSpec::Memory(Memory::Coherent),
        ast::StorageQualifier::Volatile => QualifierSpec::Memory(Memory::Volatile),
        ast::StorageQualifier::Restrict => QualifierSpec::Memory(Memory::Restrict),
        ast::StorageQualifier::ReadOnly => QualifierSpec::Memory(Memory::ReadOnly),
        ast::StorageQualifier::WriteOnly => QualifierSpec::Memory(Memory::WriteOnly),
        _ => return None,
    })
}

/// Reads the interpolation that a `glsl::syntax::InterpolationQualifier` is.
#[verifier::external_body]
fn interpolation_of(i: &ast::InterpolationQualifier) -> Interpolation {
    match i {
        ast::InterpolationQualifier::Smooth => Interpolation::Smooth,
        ast::InterpolationQualifier::Flat => Interpolation::Flat,
        ast::InterpolationQualifier::NoPerspective => Interpolation::NoPerspective,
    }
}

/// Reads the layout that a `glsl::syntax::LayoutQualifier` is; `None` where it holds no
/// identifier.
#[verifier::external_body]
fn layout_of(l: &ast::LayoutQualifier) -> Option<Layout> {
    let mut ids = l.ids.0.iter().map(layout_id_of);
    Some(Layout { first: ids.next()?, rest: ids.collect() })
}

/// Reads the qualifier that a `glsl::syntax::TypeQualifierSpec` is; `None` for a layout
/// without identifier.
#[verifier::external_body]
fn qualifier_spec_of(q: &ast::TypeQualifierSpec) -> Option<QualifierSpec> {
    Some(match q {
        ast::TypeQualifierSpec::Storage(s) => storage_of(s).or_else(|| memory_of(s))?,
        ast::TypeQualifierSpec::Layout(l) => QualifierSpec::Layout(layout_of(l)?),
        ast::TypeQualifierSpec::Precision(p) => QualifierSpec::Precision(precision_of(p)),
        ast::TypeQualifierSpec::Interpolation(i) => {
            QualifierSpec::Interpolation(interpolation_of(i))
        },
        ast::TypeQualifierSpec::Invariant => QualifierSpec::Invariant,
        ast::TypeQualifierSpec::Precise => QualifierSpec::Precise,
    })
}

/// Reads the qualifiers that a `glsl::syntax::TypeQualifier` holds; `None` where it holds
/// none or one of them is not read.
#[verifier::external_body]
fn qualifier_of(q: &ast::TypeQualifier) -> Option<Qualifier> {
    let mut specs = q.qualifiers.0.iter().map(qualifier_spec_of);
    Some(Qualifier { first: specs.next()??, rest: specs.collect::<Option<_>>()? })
}

/// Reads the optional qualifiers of a node; `None` where they are there and are not read.
#[verifier::external_body]
fn qualifiers_of(q: &Option<ast::TypeQualifier>) -> Option<Option<Qualifier>> {
    match q {
        Some(q) => Some(Some(qualifier_of(q)?)),
        None => Some(None),
    }
}

/// Reads a `glsl::syntax::TypeSpecifierNonArray` as a scalar type; `None` where it is none.
#[verifier::external_body]
fn scalar_of(t: &ast::TypeSpecifierNonArray) -> Option<BuiltIn> {
    Some(BuiltIn::Scalar(match t {
        ast::TypeSpecifierNonArray::Void => Scalar::Void,
        ast::TypeSpecifierNonArray::Bool => Scalar::Bool,
        ast::TypeSpecifierNonArray::Int => Scalar::Int,
        ast::TypeSpecifierNonArray::UInt => Scalar::UInt,
        ast::TypeSpecifierNonArray::Float => Scalar::Float,
        ast::TypeSpecifierNonArray::Double => Scalar::Double,
        ast::TypeSpecifierNonArray::AtomicUInt => Scalar::AtomicUInt,
        _ => return None,
    }))
}

/// Reads a `glsl::syntax::TypeSpecifierNonArray` as a vector of floating-point components;
/// `None` where it is none.
#[verifier::external_body]
fn float_vector_of(t: &ast::TypeSpecifierNonArray) -> Option<BuiltIn> {
    Some(BuiltIn::FloatVector(match t {
        ast::TypeSpecifierNonArray::Vec2 => FloatVector::Vec2,
        ast::TypeSpecifierNonArray::Vec3 => FloatVector::Vec3,
        ast::TypeSpecifierNonArray::DVec2 => FloatVector::DVec2,
        ast::TypeSpecifierNonArray::DVec3 => FloatVector::DVec3,
        ast::TypeSpecifierNonArray::DVec4 => FloatVector::DVec4,
        _ => return None,
    }))
}

/// Reads a `glsl::syntax::TypeSpecifierNonArray` as a vector of boolean or integer components;
/// `None` where it is none.
#[verifier::external_body]
fn integral_vector_of(t: &ast::TypeSpecifierNonArray) -> Option<BuiltIn> {
    Some(BuiltIn::IntegralVector(match t {
        ast::TypeSpecifierNonArray::BVec2 => IntegralVector::BVec2,
        ast::TypeSpecifierNonArray::BVec3 => IntegralVector::BVec3,
        ast::TypeSpecifierNonArray::BVec4 => IntegralVector::BVec4,
        ast::TypeSpecifierNonArray::IVec2 => IntegralVector::IVec2,
        ast::TypeSpecifierNonArray::IVec3 => IntegralVector::IVec3,
        ast::TypeSpecifierNonArray::IVec4 => IntegralVector::IVec4,
        ast::TypeSpecifierNonArray::UVec2 => IntegralVector::UVec2,
        ast::TypeSpecifierNonArray::UVec3 => IntegralVector::UVec3,
        ast::TypeSpecifierNonArray::UVec4 => IntegralVector::UVec4,
        _ => return None,
    }))
}

/// Reads a `glsl::syntax::TypeSpecifierNonArray` as a matrix of single precision; `None` where
/// it is none.
#[verifier::external_body]
fn matrix_of(t: &ast::TypeSpecifierNonArray) -> Option<BuiltIn> {
    Some(BuiltIn::Matrix(match t {
        ast::TypeSpecifierNonArray::Mat2 => MatrixShape::Square2,
        ast::TypeSpecifierNonArray::Mat3 => MatrixShape::Square3,
        ast::TypeSpecifierNonArray::Mat4 => MatrixShape::Square4,
        ast::TypeSpecifierNonArray::Mat23 => MatrixShape::Cols2Rows3,
        ast::TypeSpecifierNonArray::Mat24 => MatrixShape::Cols2Rows4,
        ast::TypeSpecifierNonArray::Mat32 => MatrixShape::Cols3Rows2,
        ast::TypeSpecifierNonArray::Mat34 => MatrixShape::Cols3Rows4,
        ast::TypeSpecifierNonArray::Mat42 => MatrixShape::Cols4Rows2,
        ast::TypeSpecifierNonArray::Mat43 => MatrixShape::Cols4Rows3,
        _ => return None,
    }))
}

/// Reads a `glsl::syntax::TypeSpecifierNonArray` as a matrix of double precision; `None` where
/// it is none.
#[verifier::external_body]
fn double_matrix_of(t: &ast::TypeSpecifierNonArray) -> Option<BuiltIn> {
    Some(BuiltIn::DoubleMatrix(match t {
        ast::TypeSpecifierNonArray::DMat2 => MatrixShape::Square2,
        ast::TypeSpecifierNonArray::DMat3 => MatrixShape::Square3,
        ast::TypeSpecifierNonArray::DMat4 => MatrixShape::Square4,
        ast::TypeSpecifierNonArray::DMat23 => MatrixShape::Cols2Rows3,
        ast::TypeSpecifierNonArray::DMat24 => MatrixShape::Cols2Rows4,
        ast::TypeSpecifierNonArray::DMat32 => MatrixShape::Cols3Rows2,
        ast::TypeSpecifierNonArray::DMat34 => MatrixShape::Cols3Rows4,
        ast::TypeSpecifierNonArray::DMat42 => MatrixShape::Cols4Rows2,
        ast::TypeSpecifierNonArray::DMat43 => MatrixShape::Cols4Rows3,
        _ => return None,
    }))
}

/// Reads a `glsl::syntax::TypeSpecifierNonArray` as a floating-point sampler; `None` where it
/// is none.
#[verifier::external_body]
fn sampler_of(t: &ast::TypeSpecifierNonArray) -> Option<BuiltIn> {
    Some(BuiltIn::Sampler(match t {
        ast::TypeSpecifierNonArray::Sampler1D => Shape::D1,
        ast::TypeSpecifierNonArray::Sampler2D => Shape::D2,
        ast::TypeSpecifierNonArray::Sampler3D => Shape::D3,
        ast::TypeSpecifierNonArray::SamplerCube => Shape::Cube,
        ast::TypeSpecifierNonArray::Sampler2DRect => Shape::Rect,
        ast::TypeSpecifierNonArray::Sampler1DArray => Shape::Array1,
        ast::TypeSpecifierNonArray::Sampler2DArray => Shape::Array2,
        ast::TypeSpecifierNonArray::SamplerBuffer => Shape::Buffer,
        ast::TypeSpecifierNonArray::Sampler2DMS => Shape::Multisample,
        ast::TypeSpecifierNonArray::Sampler2DMSArray => Shape::MultisampleArray,
        ast::TypeSpecifierNonArray::SamplerCubeArray => Shape::CubeArray,
        _ => return None,
    }))
}

/// Reads a `glsl::syntax::TypeSpecifierNonArray` as a floating-point image; `None` where it is
/// none.
#[verifier::external_body]
fn image_of(t: &ast::TypeSpecifierNonArray) -> Option<BuiltIn> {
    Some(BuiltIn::Image(match t {
        ast::TypeSpecifierNonArray::Image1D => Shape::D1,
        ast::TypeSpecifierNonArray::Image2D => Shape::D2,
        ast::TypeSpecifierNonArray::Image3D => Shape::D3,
        ast::TypeSpecifierNonArray::ImageCube => Shape::Cube,
        ast::TypeSpecifierNonArray::Image2DRect => Shape::Rect,
        ast::TypeSpecifierNonArray::Image1DArray => Shape::Array1,
        ast::TypeSpecifierNonArray::Image2DArray => Shape::Array2,
        ast::TypeSpecifierNonArray::ImageBuffer => Shape::Buffer,
        ast::TypeSpecifierNonArray::Image2DMS => Shape::Multisample,
        ast::TypeSpecifierNonArray::Image2DMSArray => Shape::MultisampleArray,
        ast::TypeSpecifierNonArray::ImageCubeArray => Shape::CubeArray,
        _ => return None,
    }))
}

/// Reads a `glsl::syntax::TypeSpecifierNonArray` as a signed integer sampler; `None` where it
/// is none.
#[verifier::external_body]
fn isampler_of(t: &ast::TypeSpecifierNonArray) -> Option<BuiltIn> {
    Some(BuiltIn::ISampler(match t {
        ast::TypeSpecifierNonArray::ISampler1D => Shape::D1,
        ast::TypeSpecifierNonArray::ISampler2D => Shape::D2,
        ast::TypeSpecifierNonArray::ISampler3D => Shape::D3,
        ast::TypeSpecifierNonArray::ISamplerCube => Shape::Cube,
        ast::TypeSpecifierNonArray::ISampler2DRect => Shape::Rect,
        ast::TypeSpecifierNonArray::ISampler1DArray => Shape::Array1,
        ast::TypeSpecifierNonArray::ISampler2DArray => Shape::Array2,
        ast::TypeSpecifierNonArray::ISamplerBuffer => Shape::Buffer,
        ast::TypeSpecifierNonArray::ISampler2DMS => Shape::Multisample,
        ast::TypeSpecifierNonArray::ISampler2DMSArray => Shape::MultisampleArray,
        ast::TypeSpecifierNonArray::ISamplerCubeArray => Shape::CubeArray,
        _ => return None,
    }))
}

/// Reads a `glsl::syntax::TypeSpecifierNonArray` as a signed integer image; `None` where it is
/// none.
#[verifier::external_body]
fn iimage_of(t: &ast::TypeSpecifierNonArray) -> Option<BuiltIn> {
    Some(BuiltIn::IImage(match t {
        ast::TypeSpecifierNonArray::IImage1D => Shape::D1,
        ast::TypeSpecifierNonArray::IImage2D => Shape::D2,
        ast::TypeSpecifierNonArray::IImage3D => Shape::D3,
        ast::TypeSpecifierNonArray::IImageCube => Shape::Cube,
        ast::TypeSpecifierNonArray::IImage2DRect => Shape::Rect,
        ast::TypeSpecifierNonArray::IImage1DArray => Shape::Array1,
        ast::TypeSpecifierNonArray::IImage2DArray => Shape::Array2,
        ast::TypeSpecifierNonArray::IImageBuffer => Shape::Buffer,
        ast::TypeSpecifierNonArray::IImage2DMS => Shape::Multisample,
        ast::TypeSpecifierNonArray::IImage2DMSArray => Shape::MultisampleArray,
        ast::TypeSpecifierNonArray::IImageCubeArray => Shape::CubeArray,
        _ => return None,
    }))
}

/// Reads a `glsl::syntax::TypeSpecifierNonArray` as a unsigned integer sampler; `None` where it
/// is none.
#[verifier::external_body]
fn usampler_of(t: &ast::TypeSpecifierNonArray) -> Option<BuiltIn> {
    Some(BuiltIn::USampler(match t {
        ast::TypeSpecifierNonArray::USampler1D => Shape::D1,
        ast::TypeSpecifierNonArray::USampler2D => Shape::D2,
        ast::TypeSpecifierNonArray::USampler3D => Shape::D3,
        ast::TypeSpecifierNonArray::USamplerCube => Shape::Cube,
        ast::TypeSpecifierNonArray::USampler2DRect => Shape::Rect,
        ast::TypeSpecifierNonArray::USampler1DArray => Shape::Array1,
        ast::TypeSpecifierNonArray::USampler2DArray => Shape::Array2,
        ast::TypeSpecifierNonArray::USamplerBuffer => Shape::Buffer,
        ast::TypeSpecifierNonArray::USampler2DMS => Shape::Multisample,
        ast::TypeSpecifierNonArray::USampler2DMSArray => Shape::MultisampleArray,
        ast::TypeSpecifierNonArray::USamplerCubeArray => Shape::CubeArray,
        _ => return None,
    }))
}

/// Reads a `glsl::syntax::TypeSpecifierNonArray` as a unsigned integer image; `None` where it
/// is none.
#[verifier::external_body]
fn uimage_of(t: &ast::TypeSpecifierNonArray) -> Option<BuiltIn> {
    Some(BuiltIn::UImage(match t {
        ast::TypeSpecifierNonArray::UImage1D => Shape::D1,
        ast::TypeSpecifierNonArray::UImage2D => Shape::D2,
        ast::TypeSpecifierNonArray::UImage3D => Shape::D3,
        ast::TypeSpecifierNonArray::UImageCube => Shape::Cube,
        ast::TypeSpecifierNonArray::UImage2DRect => Shape::Rect,
        ast::TypeSpecifierNonArray::UImage1DArray => Shape::Array1,
        ast::TypeSpecifierNonArray::UImage2DArray => Shape::Array2,
        ast::TypeSpecifierNonArray::UImageBuffer => Shape::Buffer,
        ast::TypeSpecifierNonArray::UImage2DMS => Shape::Multisample,
        ast::TypeSpecifierNonArray::UImage2DMSArray => Shape::MultisampleArray,
        ast::TypeSpecifierNonArray::UImageCubeArray => Shape::CubeArray,
        _ => return None,
    }))
}

/// Reads a `glsl::syntax::TypeSpecifierNonArray` as a shadow sampler; `None` where it is none.
#[verifier::external_body]
fn shadow_of(t: &ast::TypeSpecifierNonArray) -> Option<BuiltIn> {
    Some(BuiltIn::Shadow(match t {
        ast::TypeSpecifierNonArray::Sampler1DShadow => ShadowShape::D1,
        ast::TypeSpecifierNonArray::Sampler2DShadow => ShadowShape::D2,
        ast::TypeSpecifierNonArray::Sampler2DRectShadow => ShadowShape::Rect,
        ast::TypeSpecifierNonArray::Sampler1DArrayShadow => ShadowShape::Array1,
        ast::TypeSpecifierNonArray::Sampler2DArrayShadow => ShadowShape::Array2,
        ast::TypeSpecifierNonArray::SamplerCubeShadow => ShadowShape::Cube,
        ast::TypeSpecifierNonArray::SamplerCubeArrayShadow => ShadowShape::CubeArray,
        _ => return None,
    }))
}

/// Reads the built-in type that a `glsl::syntax::TypeSpecifierNonArray` is; `None` for
/// `vec4`, a struct and a type given by name.
#[verifier::external_body]
fn built_in_of(t: &ast::TypeSpecifierNonArray) -> Option<BuiltIn> {
    scalar_of(t)
        .or_else(|| float_vector_of(t))
        .or_else(|| integral_vector_of(t))
        .or_else(|| matrix_of(t))
        .or_else(|| double_matrix_of(t))
        .or_else(|| sampler_of(t))
        .or_else(|| image_of(t))
        .or_else(|| isampler_of(t))
        .or_else(|| iimage_of(t))
        .or_else(|| usampler_of(t))
        .or_else(|| uimage_of(t))
        .or_else(|| shadow_of(t))
}

/// Reads the type that a `glsl::syntax::TypeSpecifier` is; `None` where it defines a struct
/// that is not read.
#[verifier::external_body]
fn type_of(t: &ast::TypeSpecifier) -> Option<TypeSpec> {
    let kind = match &t.ty {
        ast::TypeSpecifierNonArray::Vec4 => TypeKind::Vec4,
        ast::TypeSpecifierNonArray::Struct(s) => TypeKind::Struct(struct_of(s)?),
        ast::TypeSpecifierNonArray::TypeName(name) => TypeKind::Named(name.0.clone()),
        other => TypeKind::BuiltIn(built_in_of(other)?),
    };
    Some(TypeSpec { kind, array: dims_of(&t.array_specifier) })
}

/// Reads the field line that a `glsl::syntax::StructFieldSpecifier` is; `None` where it
/// declares no name or a part of it is not read.
#[verifier::external_body]
fn struct_field_of(f: &ast::StructFieldSpecifier) -> Option<StructField> {
    let mut names = f.identifiers.0.iter().map(declarator_of);
    Some(StructField {
        qualifier: qualifiers_of(&f.qualifier)?,
        ty: type_of(&f.ty)?,
        first: names.next()?,
        rest: names.collect(),
    })
}

/// Reads the struct that a `glsl::syntax::StructSpecifier` defines; `None` where one of its
/// fields is not read.
#[verifier::external_body]
fn struct_of(s: &ast::StructSpecifier) -> Option<StructDef> {
    Some(StructDef {
        name: s.name.as_ref().map(|n| n.0.clone()),
        fields: s.fields.0.iter().map(struct_field_of).collect::<Option<_>>()?,
    })
}

/// Reads the qualified type that a `glsl::syntax::FullySpecifiedType` is; `None` where a
/// part of it is not read.
#[verifier::external_body]
fn full_type_of(t: &ast::FullySpecifiedType) -> Option<FullType> {
    Some(FullType { qualifier: qualifiers_of(&t.qualifier)?, ty: type_of(&t.ty)? })
}

/// Reads the initial value that a `glsl::syntax::Initializer` is; `None` for a list
/// without value.
#[verifier::external_body]
fn initial_value_of(i: &ast::Initializer) -> Option<InitialValue> {
    Some(match i {
        ast::Initializer::Simple(e) => InitialValue::Simple(expression_of(e)),
        ast::Initializer::List(list) => {
            let mut values = list.0.iter().map(initial_value_of);
            InitialValue::List(Box::new(values.next()??), values.collect::<Option<_>>()?)
        },
    })
}

/// Reads the optional initial value of a declaration; `None` where it is there and is not
/// read.
#[verifier::external_body]
fn initial_values_of(i: &Option<ast::Initializer>) -> Option<Option<InitialValue>> {
    match i {
        Some(i) => Some(Some(initial_value_of(i)?)),
        None => Some(None),
    }
}

/// Reads the declaration that a `glsl::syntax::SingleDeclaration` is; `None` where its type
/// is not read.
#[verifier::external_body]
fn single_decl_of(d: &ast::SingleDeclaration) -> Option<SingleDecl> {
    Some(SingleDecl {
        ty: full_type_of(&d.ty)?,
        name: d.name.as_ref().map(|n| n.0.clone()),
        array: dims_of(&d.array_specifier),
        initializer: initial_values_of(&d.initializer)?,
    })
}

/// Reads the further name that a `glsl::syntax::SingleDeclarationNoType` declares; `None`
/// where its value is not read.
#[verifier::external_body]
fn tail_decl_of(d: &ast::SingleDeclarationNoType) -> Option<TailDecl> {
    Some(TailDecl {
        ident: declarator_of(&d.ident),
        initializer: initial_values_of(&d.initializer)?,
    })
}

/// Reads the interface block that a `glsl::syntax::Block` is; `None` where a part of it is
/// not read.
#[verifier::external_body]
fn block_of(b: &ast::Block) -> Option<InterfaceBlock> {
    Some(InterfaceBlock {
        qualifier: qualifier_of(&b.qualifier)?,
        name: b.name.0.clone(),
        fields: b.fields.iter().map(struct_field_of).collect::<Option<_>>()?,
        identifier: b.identifier.as_ref().map(declarator_of),
    })
}

/// Reads the parameter that a `glsl::syntax::FunctionParameterDeclaration` is; `None` where
/// a part of it is not read.
#[verifier::external_body]
fn param_of(p: &ast::FunctionParameterDeclaration) -> Option<Param> {
    Some(match p {
        ast::FunctionParameterDeclaration::Named(q, d) => {
            Param::Named(qualifiers_of(q)?, type_of(&d.ty)?, declarator_of(&d.ident))
        },
        ast::FunctionParameterDeclaration::Unnamed(q, t) => {
            Param::Unnamed(qualifiers_of(q)?, type_of(t)?)
        },
    })
}

/// Reads the head of a function that a `glsl::syntax::FunctionPrototype` is; `None` where a
/// part of it is not read.
#[verifier::external_body]
fn prototype_of(p: &ast::FunctionPrototype) -> Option<Prototype> {
    Some(Prototype {
        ty: full_type_of(&p.ty)?,
        name: p.name.0.clone(),
        params: p.parameters.iter().map(param_of).collect::<Option<_>>()?,
    })
}

/// Reads the precision that a `glsl::syntax::PrecisionQualifier` is.
#[verifier::external_body]
fn precision_of(p: &ast::PrecisionQualifier) -> Precision {
    match p {
        ast::PrecisionQualifier::High => Precision::High,
        ast::PrecisionQualifier::Medium => Precision::Medium,
        ast::PrecisionQualifier::Low => Precision::Low,
    }
}

/// Reads the variable-like declaration that a `glsl::syntax::InitDeclaratorList` is; `None`
/// where a part of it is not read.
#[verifier::external_body]
fn vars_of(list: &ast::InitDeclaratorList) -> Option<InitDeclList> {
    Some(InitDeclList {
        head: single_decl_of(&list.head)?,
        tail: list.tail.iter().map(tail_decl_of).collect::<Option<_>>()?,
    })
}

/// Reads the declaration that a `glsl::syntax::Declaration` is; `None` where a part of it
/// is not read.
#[verifier::external_body]
fn decl_of(d: &ast::Declaration) -> Option<Decl> {
    Some(match d {
        ast::Declaration::InitDeclaratorList(list) => Decl::Vars(vars_of(list)?),
        ast::Declaration::Block(b) => Decl::Block(block_of(b)?),
        ast::Declaration::Global(q, names) => {
            Decl::Global(qualifier_of(q)?, names.iter().map(|n| n.0.clone()).collect())
        },
        ast::Declaration::FunctionPrototype(p) => Decl::Prototype(prototype_of(p)?),
        ast::Declaration::Precision(p, t) => Decl::Precision(precision_of(p), type_of(t)?),
    })
}

/// Reads what a loop tests, which a `glsl::syntax::Condition` is; `None` where a part of it
/// is not read.
#[verifier::external_body]
fn guard_of(c: &ast::Condition) -> Option<Guard> {
    Some(match c {
        ast::Condition::Expr(e) => Guard::Expr(expression_of(e)),
        ast::Condition::Assignment(t, n, i) => {
            Guard::Binding(full_type_of(t)?, n.0.clone(), initial_value_of(i)?)
        },
    })
}

/// Reads what a `for` loop starts with, which a `glsl::syntax::ForInitStatement` is; `None`
/// where a part of it is not read.
#[verifier::external_body]
fn for_init_of(i: &ast::ForInitStatement) -> Option<ForInit> {
    Some(match i {
        ast::ForInitStatement::Expression(e) => ForInit::Expression(e.as_ref().map(expression_of)),
        ast::ForInitStatement::Declaration(d) => ForInit::Declaration(Box::new(decl_of(d)?)),
    })
}

/// Reads the statement that a `glsl::syntax::Statement` is, in a box; `None` where a part
/// of it is not read.
#[verifier::external_body]
fn boxed_stmt_of(s: &ast::Statement) -> Option<Box<Stmt>> {
    Some(Box::new(stmt_of(s)?))
}

/// Reads the `if` statement that a `glsl::syntax::SelectionStatement` is; `None` where a
/// part of it is not read.
#[verifier::external_body]
fn selection_of(s: &ast::SelectionStatement) -> Option<Selection> {
    let (body, otherwise) = match &s.rest {
        ast::SelectionRestStatement::Statement(t) => (boxed_stmt_of(t)?, None),
        ast::SelectionRestStatement::Else(t, e) => (boxed_stmt_of(t)?, Some(boxed_stmt_of(e)?)),
    };
    Some(Selection { cond: expression_of(&s.cond), body, otherwise })
}

/// Reads the `switch` statement that a `glsl::syntax::SwitchStatement` is; `None` where a
/// part of it is not read.
#[verifier::external_body]
fn switch_of(s: &ast::SwitchStatement) -> Option<Switch> {
    Some(Switch { head: expression_of(&s.head), body: stmts_of(&s.body)? })
}

/// Reads the loop that a `glsl::syntax::IterationStatement` is; `None` where a part of it
/// is not read.
#[verifier::external_body]
fn iteration_of(l: &ast::IterationStatement) -> Option<Iteration> {
    Some(match l {
        ast::IterationStatement::While(c, b) => Iteration::While(guard_of(c)?, boxed_stmt_of(b)?),
        ast::IterationStatement::DoWhile(b, e) => {
            Iteration::DoWhile(boxed_stmt_of(b)?, expression_of(e))
        },
        ast::IterationStatement::For(init, rest, b) => Iteration::For(
            for_init_of(init)?,
            match &rest.condition {
                Some(c) => Some(guard_of(c)?),
                None => None,
            },
            rest.post_expr.as_ref().map(|e| expression_of(e)),
            boxed_stmt_of(b)?,
        ),
    })
}

/// Reads the jump that a `glsl::syntax::JumpStatement` is.
#[verifier::external_body]
fn jump_of(j: &ast::JumpStatement) -> Jump {
    match j {
        ast::JumpStatement::Continue => Jump::Continue,
        ast::JumpStatement::Break => Jump::Break,
        ast::JumpStatement::Return(e) => Jump::Return(e.as_ref().map(|e| expression_of(e))),
        ast::JumpStatement::Discard => Jump::Discard,
    }
}

/// Reads the statements of a list; `None` where one of them is not read.
#[verifier::external_body]
fn stmts_of(list: &Vec<ast::Statement>) -> Option<Vec<Stmt>> {
    list.iter().map(stmt_of).collect()
}

/// Reads the statement that a `glsl::syntax::SimpleStatement` is; `None` where a part of it
/// is not read.
#[verifier::external_body]
fn simple_of(s: &ast::SimpleStatement) -> Option<Stmt> {
    Some(match s {
        ast::SimpleStatement::Declaration(d) => Stmt::Declaration(decl_of(d)?),
        ast::SimpleStatement::Expression(e) => Stmt::Expression(e.as_ref().map(expression_of)),
        ast::SimpleStatement::Selection(s) => Stmt::Selection(selection_of(s)?),
        ast::SimpleStatement::Switch(s) => Stmt::Switch(switch_of(s)?),
        ast::SimpleStatement::CaseLabel(ast::CaseLabel::Case(e)) => {
            Stmt::Case(Some(expression_of(e)))
        },
        ast::SimpleStatement::CaseLabel(ast::CaseLabel::Def) => Stmt::Case(None),
        ast::SimpleStatement::Iteration(l) => Stmt::Iteration(iteration_of(l)?),
        ast::SimpleStatement::Jump(j) => Stmt::Jump(jump_of(j)),
    })
}

/// Reads the statement that a `glsl::syntax::Statement` is; `None` where a part of it is
/// not read.
#[verifier::external_body]
fn stmt_of(s: &ast::Statement) -> Option<Stmt> {
    match s {
        ast::Statement::Compound(c) => Some(Stmt::Compound(stmts_of(&c.statement_list)?)),
        ast::Statement::Simple(simple) => simple_of(simple),
    }
}

/// Reads the function that a `glsl::syntax::FunctionDefinition` defines; `None` where a
/// part of it is not read.
#[verifier::external_body]
fn function_of(f: &ast::FunctionDefinition) -> Option<FunctionDef> {
    Some(FunctionDef {
        ty: full_type_of(&f.prototype.ty)?,
        name: f.prototype.name.0.clone(),
        params: f.prototype.parameters.iter().map(param_of).collect::<Option<_>>()?,
        body: stmts_of(&f.statement.statement_list)?,
    })
}

/// Reads the declaration that a `glsl::syntax::ExternalDeclaration` is; `None` where a part
/// of it is not read.
#[verifier::external_body]
fn external_decl_of(d: &ast::ExternalDeclaration) -> Option<ExternalDecl> {
    Some(match d {
        ast::ExternalDeclaration::FunctionDefinition(f) => ExternalDecl::Function(function_of(f)?),
        ast::ExternalDeclaration::Declaration(d) => ExternalDecl::Declaration(decl_of(d)?),
        ast::ExternalDeclaration::Preprocessor(p) => ExternalDecl::Directive(p.clone()),
    })
}

/// The end of the spaces, tabs and broken lines that stand from a position on; these may
/// stand between the words of a directive.
pub open spec fn directive_space_end(s: Text, i: int) -> int
    decreases s.len() - i,
{
    if 0 <= i < s.len() && (s[i] == ' ' || s[i] == '\t') {
        directive_space_end(s, i + 1)
    } else if 0 <= i && i + 1 < s.len() && s[i] == '\\' && s[i + 1] == '\n' {
        directive_space_end(s, i + 2)
    } else {
        i
    }
}

/// Whether the digits that stand from a position on, read after the value `value`, make a
/// number above 65535.
pub open spec fn digits_exceed(s: Text, i: int, value: nat) -> bool
    decreases s.len() - i,
{
    if 0 <= i < s.len() && '0' <= s[i] && s[i] <= '9' {
        let next = value * 10 + (s[i] as nat - '0' as nat);
        if next > 65535 {
            true
        } else {
            digits_exceed(s, i + 1, next as nat)
        }
    } else {
        false
    }
}

/// Whether the directive of a version begins at a position with a number above 65535: the
/// sign `#`, the word `version` and the digits of such a number.
pub open spec fn wide_version_at(s: Text, i: int) -> bool {
    let word = directive_space_end(s, i + 1);
    0 <= i < s.len() && s[i] == '#' && has_at(s, word, "version"@) && digits_exceed(
        s,
        directive_space_end(s, word + 7),
        0,
    )
}

/// Whether a text holds the directive of a version with a number above 65535. The parser
/// takes the number of a version for a number of sixteen bits.
pub open spec fn has_wide_version(s: Text) -> bool {
    exists|i: int| 0 <= i < s.len() && wide_version_at(s, i)
}

/// The end of the zeros that stand from a position on.
pub open spec fn zeros_end(s: Text, i: int) -> int
    decreases s.len() - i,
{
    if 0 <= i < s.len() && s[i] == '0' {
        zeros_end(s, i + 1)
    } else {
        i
    }
}

/// Whether a literal of the value 2147483648 begins at a position: in decimal digits, in
/// octal digits after at least one zero, or in hexadecimal digits after `0x` or `0X`.
pub open spec fn wide_literal_from(s: Text, i: int) -> bool {
    ||| has_at(s, i, "2147483648"@)
    ||| (zeros_end(s, i) > i && has_at(s, zeros_end(s, i), "20000000000"@))
    ||| ((has_at(s, i, "0x"@) || has_at(s, i, "0X"@)) && has_at(
        s,
        zeros_end(s, i + 2),
        "80000000"@,
    ))
}

/// Whether a minus sign stands at a position directly before a literal of the value
/// 2147483648.
pub open spec fn negated_literal_at(s: Text, i: int) -> bool {
    0 <= i < s.len() && s[i] == '-' && wide_literal_from(s, i + 1)
}

/// Whether a character is a letter or a digit of which literals are made.
pub open spec fn is_literal_char(c: char) -> bool {
    ('0' <= c && c <= '9') || ('a' <= c && c <= 'z') || ('A' <= c && c <= 'Z')
}

/// The end of the letters and digits that stand from a position on.
pub open spec fn literal_end(s: Text, i: int) -> int
    decreases s.len() - i,
{
    if 0 <= i < s.len() && is_literal_char(s[i]) {
        literal_end(s, i + 1)
    } else {
        i
    }
}

/// Whether the directive of a line begins at a position with a number that is a minus sign
/// directly before a literal of the value 2147483648: the sign `#`, the word `line` and one
/// or two numbers, of which the first or the second is such a number.
pub open spec fn wide_line_at(s: Text, i: int) -> bool {
    let word = directive_space_end(s, i + 1);
    let first = directive_space_end(s, word + 4);
    let digits = if 0 <= first < s.len() && s[first] == '-' {
        first + 1
    } else {
        first
    };
    let second = directive_space_end(s, literal_end(s, digits));
    0 <= i < s.len() && s[i] == '#' && has_at(s, word, "line"@) && (negated_literal_at(s, first)
        || negated_literal_at(s, second))
}

/// Whether a text holds the directive of a line with such a number. The parser negates the
/// numbers of the directive as numbers of 32 bits, which the negation of 2147483648 is not.
pub open spec fn has_wide_line(s: Text) -> bool {
    exists|i: int| 0 <= i < s.len() && wide_line_at(s, i)
}

/// The view of what the reading of shading code gives.
pub open spec fn code_view(res: Result<Option<Vec<ExternalDecl>>, String>) -> Result<
    Option<Seq<ExternalDeclView>>,
    Text,
> {
    match res {
        Ok(Some(decls)) => Ok(Some(views(decls@))),
        Ok(None) => Ok(None),
        Err(message) => Err(message@),
    }
}

/// Calls `<glsl::syntax::TranslationUnit as glsl::parser::Parse>::parse`, and reads the
/// declarations that it gives. The result depends on the code alone. The parser does not
/// return on the directive of a version whose number is above 65535, nor, where overflow is
/// checked, on the directive of a line one of whose numbers is the literal of 2147483648
/// behind a minus sign, so such code is left out.
#[verifier::external_body]
pub(crate) fn parse_code(code: &str) -> (res: Result<Option<Vec<ExternalDecl>>, String>)
    requires
        !has_wide_version(code@),
        !has_wide_line(code@),
    ensures
        code_view(res) == parsed_code(code@),
{
    let unit = ast::TranslationUnit::parse(code).map_err(|e| e.info)?;
    Ok((unit.0).0.iter().map(external_decl_of).collect())
}

} // verus!
