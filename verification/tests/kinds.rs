use spectra::interface::sink_single_as_ext_decls;
use spectra::parse::parse_module;
use glsl::syntax as ast;
use spectra::syntax::{
    ArithmeticOp, AssignOp, BitOp, BuiltIn, CompareOp, Constant, Decl, Expression,
    ExternalDecl, FloatVector, FullType, InfixOp, InitialValue, IntegralVector, Interpolation,
    LogicOp, MatrixShape, Memory, Operation, Precision, PrefixOp, Qualifier, QualifierSpec,
    Scalar, ShadowShape, Shape, SingleDecl, Storage, TypeKind, TypeSpec,
};

fn built_in_types() -> Vec<(BuiltIn, &'static str)> {
    vec![
        (BuiltIn::Scalar(Scalar::Void), "void"),
        (BuiltIn::Scalar(Scalar::Bool), "bool"),
        (BuiltIn::Scalar(Scalar::Int), "int"),
        (BuiltIn::Scalar(Scalar::UInt), "uint"),
        (BuiltIn::Scalar(Scalar::Float), "float"),
        (BuiltIn::Scalar(Scalar::Double), "double"),
        (BuiltIn::Scalar(Scalar::AtomicUInt), "atomic_uint"),
        (BuiltIn::FloatVector(FloatVector::Vec2), "vec2"),
        (BuiltIn::FloatVector(FloatVector::Vec3), "vec3"),
        (BuiltIn::FloatVector(FloatVector::DVec2), "dvec2"),
        (BuiltIn::FloatVector(FloatVector::DVec3), "dvec3"),
        (BuiltIn::FloatVector(FloatVector::DVec4), "dvec4"),
        (BuiltIn::IntegralVector(IntegralVector::BVec2), "bvec2"),
        (BuiltIn::IntegralVector(IntegralVector::BVec3), "bvec3"),
        (BuiltIn::IntegralVector(IntegralVector::BVec4), "bvec4"),
        (BuiltIn::IntegralVector(IntegralVector::IVec2), "ivec2"),
        (BuiltIn::IntegralVector(IntegralVector::IVec3), "ivec3"),
        (BuiltIn::IntegralVector(IntegralVector::IVec4), "ivec4"),
        (BuiltIn::IntegralVector(IntegralVector::UVec2), "uvec2"),
        (BuiltIn::IntegralVector(IntegralVector::UVec3), "uvec3"),
        (BuiltIn::IntegralVector(IntegralVector::UVec4), "uvec4"),
        (BuiltIn::Matrix(MatrixShape::Square2), "mat2"),
        (BuiltIn::Matrix(MatrixShape::Square3), "mat3"),
        (BuiltIn::Matrix(MatrixShape::Square4), "mat4"),
        (BuiltIn::Matrix(MatrixShape::Cols2Rows3), "mat2x3"),
        (BuiltIn::Matrix(MatrixShape::Cols2Rows4), "mat2x4"),
        (BuiltIn::Matrix(MatrixShape::Cols3Rows2), "mat3x2"),
        (BuiltIn::Matrix(MatrixShape::Cols3Rows4), "mat3x4"),
        (BuiltIn::Matrix(MatrixShape::Cols4Rows2), "mat4x2"),
        (BuiltIn::Matrix(MatrixShape::Cols4Rows3), "mat4x3"),
        (BuiltIn::DoubleMatrix(MatrixShape::Square2), "dmat2"),
        (BuiltIn::DoubleMatrix(MatrixShape::Square3), "dmat3"),
        (BuiltIn::DoubleMatrix(MatrixShape::Square4), "dmat4"),
        (BuiltIn::DoubleMatrix(MatrixShape::Cols2Rows3), "dmat2x3"),
        (BuiltIn::DoubleMatrix(MatrixShape::Cols2Rows4), "dmat2x4"),
        (BuiltIn::DoubleMatrix(MatrixShape::Cols3Rows2), "dmat3x2"),
        (BuiltIn::DoubleMatrix(MatrixShape::Cols3Rows4), "dmat3x4"),
        (BuiltIn::DoubleMatrix(MatrixShape::Cols4Rows2), "dmat4x2"),
        (BuiltIn::DoubleMatrix(MatrixShape::Cols4Rows3), "dmat4x3"),
        (BuiltIn::Sampler(Shape::D1), "sampler1D"),
        (BuiltIn::Sampler(Shape::D2), "sampler2D"),
        (BuiltIn::Sampler(Shape::D3), "sampler3D"),
        (BuiltIn::Sampler(Shape::Cube), "samplerCube"),
        (BuiltIn::Sampler(Shape::Rect), "sampler2DRect"),
        (BuiltIn::Sampler(Shape::Array1), "sampler1DArray"),
        (BuiltIn::Sampler(Shape::Array2), "sampler2DArray"),
        (BuiltIn::Sampler(Shape::Buffer), "samplerBuffer"),
        (BuiltIn::Sampler(Shape::Multisample), "sampler2DMS"),
        (BuiltIn::Sampler(Shape::MultisampleArray), "sampler2DMSArray"),
        (BuiltIn::Sampler(Shape::CubeArray), "samplerCubeArray"),
        (BuiltIn::Image(Shape::D1), "image1D"),
        (BuiltIn::Image(Shape::D2), "image2D"),
        (BuiltIn::Image(Shape::D3), "image3D"),
        (BuiltIn::Image(Shape::Cube), "imageCube"),
        (BuiltIn::Image(Shape::Rect), "image2DRect"),
        (BuiltIn::Image(Shape::Array1), "image1DArray"),
        (BuiltIn::Image(Shape::Array2), "image2DArray"),
        (BuiltIn::Image(Shape::Buffer), "imageBuffer"),
        (BuiltIn::Image(Shape::Multisample), "image2DMS"),
        (BuiltIn::Image(Shape::MultisampleArray), "image2DMSArray"),
        (BuiltIn::Image(Shape::CubeArray), "imageCubeArray"),
        (BuiltIn::ISampler(Shape::D1), "isampler1D"),
        (BuiltIn::ISampler(Shape::D2), "isampler2D"),
        (BuiltIn::ISampler(Shape::D3), "isampler3D"),
        (BuiltIn::ISampler(Shape::Cube), "isamplerCube"),
        (BuiltIn::ISampler(Shape::Rect), "isampler2DRect"),
        (BuiltIn::ISampler(Shape::Array1), "isampler1DArray"),
        (BuiltIn::ISampler(Shape::Array2), "isampler2DArray"),
        (BuiltIn::ISampler(Shape::Buffer), "isamplerBuffer"),
        (BuiltIn::ISampler(Shape::Multisample), "isampler2DMS"),
        (BuiltIn::ISampler(Shape::MultisampleArray), "isampler2DMSArray"),
        (BuiltIn::ISampler(Shape::CubeArray), "isamplerCubeArray"),
        (BuiltIn::IImage(Shape::D1), "iimage1D"),
        (BuiltIn::IImage(Shape::D2), "iimage2D"),
        (BuiltIn::IImage(Shape::D3), "iimage3D"),
        (BuiltIn::IImage(Shape::Cube), "iimageCube"),
        (BuiltIn::IImage(Shape::Rect), "iimage2DRect"),
        (BuiltIn::IImage(Shape::Array1), "iimage1DArray"),
        (BuiltIn::IImage(Shape::Array2), "iimage2DArray"),
        (BuiltIn::IImage(Shape::Buffer), "iimageBuffer"),
        (BuiltIn::IImage(Shape::Multisample), "iimage2DMS"),
        (BuiltIn::IImage(Shape::MultisampleArray), "iimage2DMSArray"),
        (BuiltIn::IImage(Shape::CubeArray), "iimageCubeArray"),
        (BuiltIn::USampler(Shape::D1), "usampler1D"),
        (BuiltIn::USampler(Shape::D2), "usampler2D"),
        (BuiltIn::USampler(Shape::D3), "usampler3D"),
        (BuiltIn::USampler(Shape::Cube), "usamplerCube"),
        (BuiltIn::USampler(Shape::Rect), "usampler2DRect"),
        (BuiltIn::USampler(Shape::Array1), "usampler1DArray"),
        (BuiltIn::USampler(Shape::Array2), "usampler2DArray"),
        (BuiltIn::USampler(Shape::Buffer), "usamplerBuffer"),
        (BuiltIn::USampler(Shape::Multisample), "usampler2DMS"),
        (BuiltIn::USampler(Shape::MultisampleArray), "usampler2DMSArray"),
        (BuiltIn::USampler(Shape::CubeArray), "usamplerCubeArray"),
        (BuiltIn::UImage(Shape::D1), "uimage1D"),
        (BuiltIn::UImage(Shape::D2), "uimage2D"),
        (BuiltIn::UImage(Shape::D3), "uimage3D"),
        (BuiltIn::UImage(Shape::Cube), "uimageCube"),
        (BuiltIn::UImage(Shape::Rect), "uimage2DRect"),
        (BuiltIn::UImage(Shape::Array1), "uimage1DArray"),
        (BuiltIn::UImage(Shape::Array2), "uimage2DArray"),
        (BuiltIn::UImage(Shape::Buffer), "uimageBuffer"),
        (BuiltIn::UImage(Shape::Multisample), "uimage2DMS"),
        (BuiltIn::UImage(Shape::MultisampleArray), "uimage2DMSArray"),
        (BuiltIn::UImage(Shape::CubeArray), "uimageCubeArray"),
        (BuiltIn::Shadow(ShadowShape::D1), "sampler1DShadow"),
        (BuiltIn::Shadow(ShadowShape::D2), "sampler2DShadow"),
        (BuiltIn::Shadow(ShadowShape::Rect), "sampler2DRectShadow"),
        (BuiltIn::Shadow(ShadowShape::Array1), "sampler1DArrayShadow"),
        (BuiltIn::Shadow(ShadowShape::Array2), "sampler2DArrayShadow"),
        (BuiltIn::Shadow(ShadowShape::Cube), "samplerCubeShadow"),
        (BuiltIn::Shadow(ShadowShape::CubeArray), "samplerCubeArrayShadow"),
    ]
}

fn qualifiers() -> Vec<(QualifierSpec, &'static str)> {
    vec![
        (QualifierSpec::In, "in"),
        (QualifierSpec::Out, "out"),
        (QualifierSpec::Uniform, "uniform"),
        (QualifierSpec::Storage(Storage::Const), "const"),
        (QualifierSpec::Storage(Storage::InOut), "inout"),
        (QualifierSpec::Storage(Storage::Centroid), "centroid"),
        (QualifierSpec::Storage(Storage::Patch), "patch"),
        (QualifierSpec::Storage(Storage::Sample), "sample"),
        (QualifierSpec::Storage(Storage::Attribute), "attribute"),
        (QualifierSpec::Storage(Storage::Varying), "varying"),
        (QualifierSpec::Storage(Storage::Buffer), "buffer"),
        (QualifierSpec::Storage(Storage::Shared), "shared"),
        (QualifierSpec::Memory(Memory::Coherent), "coherent"),
        (QualifierSpec::Memory(Memory::Volatile), "volatile"),
        (QualifierSpec::Memory(Memory::Restrict), "restrict"),
        (QualifierSpec::Memory(Memory::ReadOnly), "readonly"),
        (QualifierSpec::Memory(Memory::WriteOnly), "writeonly"),
        (QualifierSpec::Precision(Precision::High), "highp"),
        (QualifierSpec::Precision(Precision::Medium), "mediump"),
        (QualifierSpec::Precision(Precision::Low), "lowp"),
        (QualifierSpec::Interpolation(Interpolation::Smooth), "smooth"),
        (QualifierSpec::Interpolation(Interpolation::Flat), "flat"),
        (QualifierSpec::Interpolation(Interpolation::NoPerspective), "noperspective"),
        (QualifierSpec::Invariant, "invariant"),
        (QualifierSpec::Precise, "precise"),
    ]
}

fn declaration(qualifier: Option<QualifierSpec>, kind: TypeKind) -> SingleDecl {
    SingleDecl {
        ty: FullType {
            qualifier: qualifier.map(|first| Qualifier { first, rest: vec![] }),
            ty: TypeSpec { kind, array: None },
        },
        name: Some("x".to_owned()),
        array: None,
        initializer: None,
    }
}

fn written(decl: SingleDecl) -> String {
    let mut sink = String::new();
    sink_single_as_ext_decls(&mut sink, &vec![decl]);
    sink
}

fn read(source: &str) -> SingleDecl {
    let mut module = parse_module(source).expect("the source parses");
    assert_eq!(module.glsl.len(), 1);
    match module.glsl.remove(0) {
        ExternalDecl::Declaration(Decl::Vars(list)) => {
            assert!(list.tail.is_empty());
            list.head
        }
        other => panic!("unexpected declaration: {:?}", other),
    }
}

#[test]
fn every_built_in_type_is_written_by_its_keyword() {
    let types = built_in_types();
    assert_eq!(types.len(), 112);
    for (ty, keyword) in types {
        // The printer of the `glsl` crate writes two of the keywords in a form of its own.
        let keyword = match keyword {
            "isampler2DMS" => "isampler2MS",
            "usampler2DMSArray" => "usamplerDMSArray",
            other => other,
        };
        assert_eq!(written(declaration(None, TypeKind::BuiltIn(ty))), format!("{} x;\n", keyword));
    }
}

#[test]
fn every_built_in_type_is_read_from_its_keyword() {
    for (ty, keyword) in built_in_types() {
        assert_eq!(read(&format!("{} x;", keyword)), declaration(None, TypeKind::BuiltIn(ty)));
    }
}

#[test]
fn vec4_is_read_as_its_own_kind() {
    assert_eq!(read("vec4 x;"), declaration(None, TypeKind::Vec4));
    assert_eq!(written(declaration(None, TypeKind::Vec4)), "vec4 x;\n");
}

#[test]
fn every_qualifier_is_written_by_its_keyword() {
    for (qualifier, keyword) in qualifiers() {
        let decl = declaration(Some(qualifier), TypeKind::BuiltIn(BuiltIn::Scalar(Scalar::Float)));
        assert_eq!(written(decl), format!("{} float x;\n", keyword));
    }
}

#[test]
fn every_qualifier_is_read_from_its_keyword() {
    for (qualifier, keyword) in qualifiers() {
        let decl = declaration(Some(qualifier), TypeKind::BuiltIn(BuiltIn::Scalar(Scalar::Float)));
        assert_eq!(read(&format!("{} float x;", keyword)), decl);
    }
}

#[test]
fn subroutine_keeps_the_type_names_it_lists() {
    let names = vec!["a".to_owned(), "b".to_owned()];
    let qualifier = QualifierSpec::Storage(Storage::Subroutine(names));
    let decl = declaration(Some(qualifier), TypeKind::BuiltIn(BuiltIn::Scalar(Scalar::Float)));
    assert_eq!(written(read("subroutine(a, b) float x;")), "subroutine(a, b) float x;\n");
    assert_eq!(read("subroutine(a, b) float x;"), decl);
}

fn variable(name: &str) -> Box<Expression> {
    Box::new(Expression::Variable(name.to_owned()))
}

fn initialised(value: Expression) -> SingleDecl {
    let mut decl = declaration(None, TypeKind::BuiltIn(BuiltIn::Scalar(Scalar::Int)));
    decl.initializer = Some(InitialValue::Simple(value));
    decl
}

fn value_of(source: &str) -> Expression {
    match read(source).initializer {
        Some(InitialValue::Simple(value)) => value,
        other => panic!("unexpected value: {:?}", other),
    }
}

fn infix_operators() -> Vec<(InfixOp, &'static str)> {
    vec![
        (InfixOp::Logic(LogicOp::Or), "||"),
        (InfixOp::Logic(LogicOp::Xor), "^^"),
        (InfixOp::Logic(LogicOp::And), "&&"),
        (InfixOp::Bit(BitOp::Or), "|"),
        (InfixOp::Bit(BitOp::Xor), "^"),
        (InfixOp::Bit(BitOp::And), "&"),
        (InfixOp::Bit(BitOp::LShift), "<<"),
        (InfixOp::Bit(BitOp::RShift), ">>"),
        (InfixOp::Compare(CompareOp::Equal), "=="),
        (InfixOp::Compare(CompareOp::NonEqual), "!="),
        (InfixOp::Compare(CompareOp::LT), "<"),
        (InfixOp::Compare(CompareOp::GT), ">"),
        (InfixOp::Compare(CompareOp::LTE), "<="),
        (InfixOp::Compare(CompareOp::GTE), ">="),
        (InfixOp::Arithmetic(ArithmeticOp::Add), "+"),
        (InfixOp::Arithmetic(ArithmeticOp::Sub), "-"),
        (InfixOp::Arithmetic(ArithmeticOp::Mult), "*"),
        (InfixOp::Arithmetic(ArithmeticOp::Div), "/"),
        (InfixOp::Arithmetic(ArithmeticOp::Mod), "%"),
    ]
}

fn prefix_operators() -> Vec<(PrefixOp, &'static str)> {
    vec![
        (PrefixOp::Inc, "++"),
        (PrefixOp::Dec, "--"),
        (PrefixOp::Add, "+"),
        (PrefixOp::Minus, "-"),
        (PrefixOp::Not, "!"),
        (PrefixOp::Complement, "~"),
    ]
}

fn assign_operators() -> Vec<(AssignOp, &'static str)> {
    vec![
        (AssignOp::Mult, "*="),
        (AssignOp::Div, "/="),
        (AssignOp::Mod, "%="),
        (AssignOp::Add, "+="),
        (AssignOp::Sub, "-="),
        (AssignOp::LShift, "<<="),
        (AssignOp::RShift, ">>="),
        (AssignOp::And, "&="),
        (AssignOp::Xor, "^="),
        (AssignOp::Or, "|="),
    ]
}

#[test]
fn every_infix_operator_is_read_and_written_by_its_sign() {
    for (op, sign) in infix_operators() {
        let value = Expression::Operation(Operation::Infix(op, variable("a"), variable("b")));
        assert_eq!(value_of(&format!("int x = a {} b;", sign)), value);
        assert_eq!(written(initialised(value)), format!("int x = a{}b;\n", sign));
    }
}

#[test]
fn every_prefix_operator_is_read_and_written_by_its_sign() {
    for (op, sign) in prefix_operators() {
        let value = Expression::Operation(Operation::Prefix(op, variable("a")));
        assert_eq!(value_of(&format!("int x = {}a;", sign)), value);
        assert_eq!(written(initialised(value)), format!("int x = {}a;\n", sign));
    }
}

#[test]
fn every_assigning_operator_is_read_and_written_by_its_sign() {
    for (op, sign) in assign_operators() {
        let value = Expression::Operation(Operation::Assign(variable("a"), op, variable("b")));
        assert_eq!(value_of(&format!("int x = a {} b;", sign)), value);
        assert_eq!(written(initialised(value)), format!("int x = a {} b;\n", sign));
    }
}

#[test]
fn plain_assignment_is_read_as_its_own_kind() {
    let value = Expression::Assign(variable("a"), variable("b"));
    assert_eq!(value_of("int x = a = b;"), value);
    assert_eq!(written(initialised(value)), "int x = a = b;\n");
}

#[test]
fn operations_without_a_sign_of_their_own_are_read_and_written() {
    let ternary = Operation::Ternary(variable("a"), variable("b"), variable("c"));
    assert_eq!(value_of("int x = a ? b : c;"), Expression::Operation(ternary));
    let ternary = Operation::Ternary(variable("a"), variable("b"), variable("c"));
    assert_eq!(written(initialised(Expression::Operation(ternary))), "int x = a ? b : c;\n");

    let after = Expression::Operation(Operation::PostInc(variable("a")));
    assert_eq!(value_of("int x = a++;"), after);
    assert_eq!(written(initialised(after)), "int x = a++;\n");

    let after = Expression::Operation(Operation::PostDec(variable("a")));
    assert_eq!(value_of("int x = a--;"), after);
    assert_eq!(written(initialised(after)), "int x = a--;\n");

    let both = Expression::Operation(Operation::Comma(variable("a"), variable("b")));
    assert_eq!(value_of("int x = (a, b);"), both);
    assert_eq!(written(initialised(both)), "int x = a, b;\n");
}

#[test]
fn constants_are_read_and_written() {
    let unsigned = Expression::Constant(Constant::UInt(7));
    assert_eq!(value_of("int x = 7u;"), unsigned);
    assert_eq!(written(initialised(unsigned)), "int x = 7u;\n");

    let truth = Expression::Constant(Constant::Bool(true));
    assert_eq!(value_of("int x = true;"), truth);
    assert_eq!(written(initialised(truth)), "int x = true;\n");
    assert_eq!(value_of("int x = false;"), Expression::Constant(Constant::Bool(false)));

    assert_eq!(value_of("int x = 7;"), Expression::IntConst(7));

    match value_of("int x = 1.5;") {
        Expression::Constant(Constant::Real(real)) => {
            assert_eq!(*real.node(), ast::Expr::FloatConst(1.5));
        }
        other => panic!("unexpected value: {:?}", other),
    }
    match value_of("int x = 2.5lf;") {
        Expression::Constant(Constant::Real(real)) => {
            assert_eq!(*real.node(), ast::Expr::DoubleConst(2.5));
        }
        other => panic!("unexpected value: {:?}", other),
    }
    assert_eq!(written(initialised(value_of("int x = 1.5;"))), "int x = 1.5;\n");
}

#[test]
fn operands_of_an_operation_are_read_as_expressions() {
    let call = Expression::Call(spectra::syntax::Callee::Name("f".to_owned()), vec![]);
    let sum = Operation::Infix(
        InfixOp::Arithmetic(ArithmeticOp::Add),
        Box::new(call),
        Box::new(Expression::Dot(variable("v"), "x".to_owned())),
    );
    assert_eq!(value_of("int x = f() + v.x;"), Expression::Operation(sum));
}
