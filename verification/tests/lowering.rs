use spectra::error::GLSLConversionError;
use spectra::module::Module;
use spectra::parse::parse_module;
use spectra::pipeline::ModuleFold;
use spectra::syntax::{
    BuiltIn, Decl, ExternalDecl, Expression, FloatVector, FunctionDef, Layout, LayoutId, Param,
    Qualifier, QualifierSpec, SingleDecl, Stmt, StructDef, TypeKind,
};

fn module(source: &str) -> Module {
    parse_module(source).expect("the source parses")
}

fn lowered(source: &str) -> Result<ModuleFold, GLSLConversionError> {
    module(source).to_glsl_setup()
}

const MINIMUM: &str = "struct Vertex { vec4 chdr_Position; };
Vertex map_vertex(vec3 p) { return Vertex(vec4(p,1.)); }
struct F{vec4 c;};
F map_frag_data(Vertex v){ return F(vec4(1.)); }";

#[test]
fn minimum_pipeline_has_two_stages() {
    let fold = lowered(MINIMUM).expect("the pipeline lowers");
    assert_eq!(fold.gs, None);
    assert!(fold.vs.contains("layout (location = 0) in vec3 p;"));
    assert!(fold.fs.contains("out vec4 chdr_f_c;"));
}

#[test]
fn minimum_pipeline_vertex_source() {
    let fold = lowered(MINIMUM).expect("the pipeline lowers");
    assert_eq!(
        fold.vs,
        "layout (location = 0) in vec3 p;\n\
         struct Vertex {\nvec4 chdr_Position;\n};\n\
         Vertex map_vertex(vec3 p) {\nreturn Vertex(vec4(p, 1.));\n}\n\
         void main() {\n  Vertex v = map_vertex(p);\n  gl_Position = v.chdr_Position;\n}\n\n"
    );
}

#[test]
fn minimum_pipeline_fragment_source() {
    let fold = lowered(MINIMUM).expect("the pipeline lowers");
    assert_eq!(
        fold.fs,
        "out vec4 chdr_f_c;\n\
         struct Vertex {\n};\n\
         struct F {\nvec4 c;\n};\n\
         F map_frag_data(Vertex v) {\nreturn F(vec4(1.));\n}\n\
         void main() {\n  Vertex i = Vertex();\n  F o = map_frag_data(i);\n  chdr_f_c = o.c;\n}\n\n"
    );
}

#[test]
fn lowering_is_deterministic() {
    assert_eq!(lowered(MINIMUM), lowered(MINIMUM));
}

#[test]
fn module_without_map_vertex_has_no_vertex_shader() {
    let result = lowered("struct F { vec4 c; }; F map_frag_data(F v) { return v; }");
    assert_eq!(result, Err(GLSLConversionError::NoVertexShader));
}

#[test]
fn empty_like_module_has_no_vertex_shader() {
    let result = lowered("uniform float time;");
    assert_eq!(result, Err(GLSLConversionError::NoVertexShader));
}

#[test]
fn module_without_map_frag_data_has_no_fragment_shader() {
    let result = lowered(
        "struct Vertex { vec4 chdr_Position; };
         Vertex map_vertex(vec3 p) { return Vertex(vec4(p, 1.)); }",
    );
    assert_eq!(result, Err(GLSLConversionError::NoFragmentShader));
}

#[test]
fn position_of_another_type_is_a_wrong_first_field() {
    let result = lowered(
        "struct Vertex { vec3 chdr_Position; };
         Vertex map_vertex(vec3 p) { return Vertex(p); }
         struct F { vec4 c; };
         F map_frag_data(Vertex v) { return F(vec4(1.)); }",
    );
    match result {
        Err(GLSLConversionError::WrongOutputFirstField(field)) => {
            assert_eq!(field.first.name, "chdr_Position");
            assert!(matches!(
                &field.ty.kind,
                TypeKind::BuiltIn(BuiltIn::FloatVector(FloatVector::Vec3))
            ));
        }
        other => panic!("unexpected result: {:?}", other),
    }
}

#[test]
fn position_of_another_name_is_a_wrong_first_field() {
    let result = lowered(
        "struct Vertex { vec4 position; };
         Vertex map_vertex(vec3 p) { return Vertex(vec4(p, 1.)); }
         struct F { vec4 c; };
         F map_frag_data(Vertex v) { return F(vec4(1.)); }",
    );
    assert!(matches!(result, Err(GLSLConversionError::WrongOutputFirstField(_))));
}

#[test]
fn qualified_position_is_a_wrong_first_field() {
    let result = lowered(
        "struct Vertex { highp vec4 chdr_Position; };
         Vertex map_vertex(vec3 p) { return Vertex(vec4(p, 1.)); }
         struct F { vec4 c; };
         F map_frag_data(Vertex v) { return F(vec4(1.)); }",
    );
    assert!(matches!(result, Err(GLSLConversionError::WrongOutputFirstField(_))));
}

#[test]
fn position_declared_with_another_name_is_a_wrong_first_field() {
    let result = lowered(
        "struct Vertex { vec4 chdr_Position, other; };
         Vertex map_vertex(vec3 p) { return Vertex(vec4(p, 1.), vec4(1.)); }
         struct F { vec4 c; };
         F map_frag_data(Vertex v) { return F(vec4(1.)); }",
    );
    assert!(matches!(result, Err(GLSLConversionError::WrongOutputFirstField(_))));
}

#[test]
fn qualified_return_type_has_a_main_qualifier() {
    let result = lowered(
        "struct Vertex { vec4 chdr_Position; };
         highp Vertex map_vertex(vec3 p) { return Vertex(vec4(p, 1.)); }
         struct F { vec4 c; };
         F map_frag_data(Vertex v) { return F(vec4(1.)); }",
    );
    assert_eq!(result, Err(GLSLConversionError::OutputHasMainQualifier));
}

#[test]
fn return_type_that_is_no_struct_is_refused() {
    let result = lowered(
        "vec4 map_vertex(vec3 p) { return vec4(p, 1.); }
         struct F { vec4 c; };
         F map_frag_data(F v) { return v; }",
    );
    match result {
        Err(GLSLConversionError::ReturnTypeMustBeAStruct(ty)) => {
            assert_eq!(ty.kind, TypeKind::Vec4);
        }
        other => panic!("unexpected result: {:?}", other),
    }
}

#[test]
fn return_type_that_names_no_struct_is_refused() {
    let result = lowered(
        "Missing map_vertex(vec3 p) { return Missing(p); }
         struct F { vec4 c; };
         F map_frag_data(F v) { return v; }",
    );
    match result {
        Err(GLSLConversionError::ReturnTypeMustBeAStruct(ty)) => {
            assert_eq!(ty.kind, TypeKind::Named("Missing".to_owned()));
        }
        other => panic!("unexpected result: {:?}", other),
    }
}

#[test]
fn struct_typed_output_field_is_refused() {
    let result = lowered(
        "struct Inner { vec3 n; };
         struct Vertex { vec4 chdr_Position; vec3 color; Inner inner; };
         Vertex map_vertex(vec3 p) { return Vertex(vec4(p, 1.), p, Inner(p)); }
         struct F { vec4 c; };
         F map_frag_data(Vertex v) { return F(vec4(1.)); }",
    );
    assert_eq!(
        result,
        Err(GLSLConversionError::OutputFieldCannotBeTypeName(2, "Inner".to_owned()))
    );
}

#[test]
fn inline_struct_output_field_is_refused() {
    let result = lowered(
        "struct Vertex { vec4 chdr_Position; struct Inner { vec3 n; } inner; };
         Vertex map_vertex(vec3 p) { return Vertex(vec4(p, 1.), Inner(p)); }
         struct F { vec4 c; };
         F map_frag_data(Vertex v) { return F(vec4(1.)); }",
    );
    assert_eq!(result, Err(GLSLConversionError::OutputFieldCannotBeStruct(1)));
}

#[test]
fn fragment_input_of_another_type_is_unknown() {
    let result = lowered(
        "struct Vertex { vec4 chdr_Position; };
         Vertex map_vertex(vec3 p) { return Vertex(vec4(p, 1.)); }
         struct F { vec4 c; };
         F map_frag_data(F v) { return v; }",
    );
    assert_eq!(result, Err(GLSLConversionError::UnknownInputType("F".to_owned())));
}

#[test]
fn fragment_input_of_a_builtin_type_is_no_type_name() {
    let result = lowered(
        "struct Vertex { vec4 chdr_Position; };
         Vertex map_vertex(vec3 p) { return Vertex(vec4(p, 1.)); }
         struct F { vec4 c; };
         F map_frag_data(vec3 v) { return F(vec4(v, 1.)); }",
    );
    assert_eq!(result, Err(GLSLConversionError::NotTypeName));
}

#[test]
fn fragment_function_takes_one_argument() {
    let result = lowered(
        "struct Vertex { vec4 chdr_Position; };
         Vertex map_vertex(vec3 p) { return Vertex(vec4(p, 1.)); }
         struct F { vec4 c; };
         F map_frag_data(Vertex v, Vertex w) { return F(vec4(1.)); }",
    );
    assert_eq!(result, Err(GLSLConversionError::WrongNumberOfArgs(1, 2)));
    let result = lowered(
        "struct Vertex { vec4 chdr_Position; };
         Vertex map_vertex(vec3 p) { return Vertex(vec4(p, 1.)); }
         struct F { vec4 c; };
         F map_frag_data() { return F(vec4(1.)); }",
    );
    assert_eq!(result, Err(GLSLConversionError::WrongNumberOfArgs(1, 0)));
}

const COLORED: &str = "uniform mat4 projection, view;
uniform float time;
struct Light { vec3 dir; };
float shade(vec3 n) { return n.x; }
struct Vertex { vec4 chdr_Position; vec3 position; vec4 color; };
Vertex map_vertex(vec3 position, vec2, vec4 color) {
  return Vertex(projection * vec4(position, 1.), position, color);
}
struct GVertex { vec3 co; vec4 color; };
void concat_map_prim(Vertex[3] vertices, layout (triangle_strip, max_vertices = 3) out GVertex) {
  yield_vertex(GVertex(vertices[0].position, vertices[0].color));
  yield_vertex(GVertex(vertices[1].position, vertices[1].color));
  yield_vertex(GVertex(vertices[2].position, vertices[2].color));
  yield_primitive();
}
struct Frag { vec4 albedo; float depth[2]; };
Frag map_frag_data(GVertex v) { return Frag(v.color, float[2](1., 2.)); }";

const COLORED_COMMON: &str = "struct Light {\nvec3 dir;\n};\n\
uniform mat4 projection;\nuniform mat4 view;\nuniform float time;\n\
float shade(vec3 n) {\nreturn n.x;\n}\n";

#[test]
fn geometry_of_three_vertices_takes_triangles() {
    let fold = lowered(COLORED).expect("the pipeline lowers");
    let gs = fold.gs.expect("the pipeline has a geometry stage");
    assert!(gs.starts_with(
        "layout (triangles) in;\nlayout (triangle_strip, max_vertices = 3) out;\n"
    ));
}

#[test]
fn full_pipeline_vertex_source() {
    let fold = lowered(COLORED).expect("the pipeline lowers");
    let stage = "layout (location = 0) in vec3 position;\n\
         layout (location = 2) in vec4 color;\n\
         out vec3 chdr_v_position;\n\
         out vec4 chdr_v_color;\n\
         struct Vertex {\nvec4 chdr_Position;\nvec3 position;\nvec4 color;\n};\n\
         Vertex map_vertex(vec3 position, vec4 color) {\n\
         return Vertex(projection*vec4(position, 1.), position, color);\n}\n\
         void main() {\n  Vertex v = map_vertex(position, color);\n  \
         gl_Position = v.chdr_Position;\n  \
         chdr_v_position = v.position;\n  \
         chdr_v_color = v.color;\n}\n\n";
    assert_eq!(fold.vs, format!("{}{}", COLORED_COMMON, stage));
}

#[test]
fn full_pipeline_geometry_source() {
    let fold = lowered(COLORED).expect("the pipeline lowers");
    let yielded = |i: usize| {
        format!(
            "{{\nGVertex chdr_v = GVertex(vertices[{0}].position, vertices[{0}].color);\n\
             chdr_g_co = chdr_v.co;\nchdr_g_color = chdr_v.color;\nEmitVertex();\n}}\n",
            i
        )
    };
    let expected = format!(
        "layout (triangles) in;\n\
         layout (triangle_strip, max_vertices = 3) out;\n\
         in vec3[] chdr_v_position;\n\
         in vec4[] chdr_v_color;\n\
         out vec3 chdr_g_co;\n\
         out vec4 chdr_g_color;\n\
         struct Vertex {{\nvec3 position;\nvec4 color;\n}};\n\
         struct GVertex {{\nvec3 co;\nvec4 color;\n}};\n\
         void concat_map_prim(Vertex[3] vertices) {{\n{}{}{}EndPrimitive();\n}}\n\
         void main() {{\n  \
         Vertex[3] v = Vertex[](\
         Vertex(chdr_v_position[0], chdr_v_color[0]), \
         Vertex(chdr_v_position[1], chdr_v_color[1]), \
         Vertex(chdr_v_position[2], chdr_v_color[2]));\n  \
         concat_map_prim(v);\n}}\n\n",
        yielded(0),
        yielded(1),
        yielded(2)
    );
    assert_eq!(fold.gs, Some(expected));
}

#[test]
fn full_pipeline_fragment_source() {
    let fold = lowered(COLORED).expect("the pipeline lowers");
    let stage = "in vec3 chdr_g_co;\n\
         in vec4 chdr_g_color;\n\
         out vec4 chdr_f_albedo;\n\
         out float chdr_f_depth[2];\n\
         struct GVertex {\nvec3 co;\nvec4 color;\n};\n\
         struct Frag {\nvec4 albedo;\nfloat depth[2];\n};\n\
         Frag map_frag_data(GVertex v) {\nreturn Frag(v.color, float[2](1., 2.));\n}\n\
         void main() {\n  GVertex i = GVertex(chdr_g_co, chdr_g_color);\n  \
         Frag o = map_frag_data(i);\n  \
         chdr_f_albedo = o.albedo;\n  \
         chdr_f_depth = o.depth;\n}\n\n";
    assert_eq!(fold.fs, format!("{}{}", COLORED_COMMON, stage));
}

#[test]
fn geometry_source_has_no_common_part() {
    let fold = lowered(COLORED).expect("the pipeline lowers");
    let gs = fold.gs.expect("the pipeline has a geometry stage");
    assert!(!gs.contains("uniform"));
    assert!(!gs.contains("struct Light"));
    assert!(!gs.contains("shade"));
}

#[test]
fn structs_of_the_stages_are_not_shared() {
    let fold = lowered(COLORED).expect("the pipeline lowers");
    assert!(fold.vs.starts_with(COLORED_COMMON));
    assert!(fold.fs.starts_with(COLORED_COMMON));
    for name in ["struct Vertex", "struct GVertex", "struct Frag"] {
        assert!(!COLORED_COMMON.contains(name));
    }
    assert_eq!(fold.vs.matches("struct Vertex {").count(), 1);
    assert_eq!(fold.vs.matches("struct GVertex {").count(), 0);
    assert_eq!(fold.vs.matches("struct Frag {").count(), 0);
    assert_eq!(fold.vs.matches("struct Light {").count(), 1);
    assert_eq!(fold.fs.matches("struct Vertex {").count(), 0);
    assert_eq!(fold.fs.matches("struct GVertex {").count(), 1);
    assert_eq!(fold.fs.matches("struct Frag {").count(), 1);
}

#[test]
fn one_input_for_each_named_parameter_and_one_output_for_each_other_field() {
    let fold = lowered(COLORED).expect("the pipeline lowers");
    let stage = &fold.vs[COLORED_COMMON.len()..];
    assert_eq!(stage.matches("layout (location = ").count(), 2);
    assert_eq!(stage.matches(") in ").count(), 2);
    assert_eq!(stage.matches("out vec3 chdr_v_position;").count(), 1);
    assert_eq!(stage.matches("out vec4 chdr_v_color;").count(), 1);
    assert_eq!(stage.matches("\nout ").count(), 2);
    assert!(!stage.contains("out vec4 chdr_v_chdr_Position"));
}

fn geometry_result(params: &str) -> Result<ModuleFold, GLSLConversionError> {
    lowered(&format!(
        "struct Vertex {{ vec4 chdr_Position; vec3 n; }};
         Vertex map_vertex(vec3 p) {{ return Vertex(vec4(p, 1.), p); }}
         struct G {{ vec3 n; }};
         void concat_map_prim({}) {{ yield_vertex(G(vs[0].n)); yield_primitive(); }}
         struct F {{ vec4 c; }};
         F map_frag_data(G v) {{ return F(vec4(v.n, 1.)); }}",
        params
    ))
}

#[test]
fn input_primitive_follows_the_number_of_vertices() {
    let cases = [
        (1, "points"),
        (2, "lines"),
        (3, "triangles"),
        (4, "lines_adjacency"),
        (6, "triangles_adjacency"),
    ];
    for (dim, name) in cases {
        let fold = geometry_result(&format!(
            "Vertex[{}] vs, layout (points, max_vertices = 1) out G",
            dim
        ))
        .expect("the pipeline lowers");
        let gs = fold.gs.expect("the pipeline has a geometry stage");
        assert!(gs.starts_with(&format!(
            "layout ({}) in;\nlayout (points, max_vertices = 1) out;\n",
            name
        )));
        assert!(gs.contains(&format!("Vertex[{}] v = Vertex[](", dim)));
        assert_eq!(gs.matches("Vertex(chdr_v_n[").count(), dim);
    }
}

#[test]
fn other_numbers_of_vertices_are_wrong_dimensions() {
    for dim in [0, 5, 7, 12] {
        let result = geometry_result(&format!(
            "Vertex[{}] vs, layout (points, max_vertices = 1) out G",
            dim
        ));
        assert_eq!(result, Err(GLSLConversionError::WrongGeometryInputDim(dim)));
    }
}

#[test]
fn vertex_array_without_literal_dimension_is_a_wrong_input() {
    for input in ["Vertex vs", "Vertex[] vs", "Vertex[N] vs", "Vertex[3][2] vs", "Vertex vs[3]"] {
        let result = geometry_result(&format!(
            "{}, layout (points, max_vertices = 1) out G",
            input
        ));
        assert_eq!(result, Err(GLSLConversionError::WrongGeometryInput), "{}", input);
    }
}

#[test]
fn output_primitives_are_points_and_strips() {
    for prim in ["points", "line_strip", "triangle_strip"] {
        let fold = geometry_result(&format!(
            "Vertex[3] vs, layout ({}, max_vertices = 4) out G",
            prim
        ))
        .expect("the pipeline lowers");
        let gs = fold.gs.expect("the pipeline has a geometry stage");
        assert!(gs.contains(&format!("layout ({}, max_vertices = 4) out;\n", prim)));
    }
}

#[test]
fn other_output_qualifiers_are_wrong_layouts() {
    let inputs = [
        "G",
        "out G",
        "layout (triangles, max_vertices = 3) out G",
        "layout (points, max_vertex = 3) out G",
        "layout (points, max_vertices) out G",
        "layout (points, max_vertices = N) out G",
        "layout (points) out G",
        "layout (points, max_vertices = 3, invocations = 2) out G",
        "layout (points, max_vertices = 3) in G",
        "layout (points, max_vertices = 3) G",
        "out layout (points, max_vertices = 3) G",
    ];
    for output in inputs {
        let result = geometry_result(&format!("Vertex[3] vs, {}", output));
        assert!(
            matches!(result, Err(GLSLConversionError::WrongGeometryOutputLayout(_))),
            "{}: {:?}",
            output,
            result
        );
    }
    let result = geometry_result("Vertex[3] vs, G");
    assert_eq!(result, Err(GLSLConversionError::WrongGeometryOutputLayout(None)));
}

#[test]
fn geometry_function_takes_two_arguments() {
    let result = geometry_result("Vertex[3] vs");
    assert_eq!(result, Err(GLSLConversionError::WrongNumberOfArgs(2, 1)));
    let result = geometry_result(
        "Vertex[3] vs, layout (points, max_vertices = 1) out G, float extra",
    );
    assert_eq!(result, Err(GLSLConversionError::WrongNumberOfArgs(2, 3)));
}

#[test]
fn geometry_input_of_another_type_is_unknown() {
    let result = geometry_result("G[3] vs, layout (points, max_vertices = 1) out G");
    assert_eq!(result, Err(GLSLConversionError::UnknownInputType("G".to_owned())));
}

#[test]
fn geometry_input_of_a_builtin_type_is_no_type_name() {
    let result = geometry_result("vec3[3] vs, layout (points, max_vertices = 1) out G");
    assert_eq!(result, Err(GLSLConversionError::NotTypeName));
}

#[test]
fn geometry_output_that_names_no_struct_is_refused() {
    let result = geometry_result("Vertex[3] vs, layout (points, max_vertices = 1) out Missing");
    assert!(matches!(result, Err(GLSLConversionError::ReturnTypeMustBeAStruct(_))));
}

#[test]
fn yield_vertex_takes_one_argument() {
    let source = |call: &str| {
        format!(
            "struct Vertex {{ vec4 chdr_Position; vec3 n; }};
             Vertex map_vertex(vec3 p) {{ return Vertex(vec4(p, 1.), p); }}
             struct G {{ vec3 n; }};
             void concat_map_prim(Vertex[1] vs, layout (points, max_vertices = 1) out G) {{ {} }}
             struct F {{ vec4 c; }};
             F map_frag_data(G v) {{ return F(vec4(v.n, 1.)); }}",
            call
        )
    };
    assert_eq!(
        lowered(&source("yield_vertex();")),
        Err(GLSLConversionError::WrongNumberOfArgs(1, 0))
    );
    assert_eq!(
        lowered(&source("yield_vertex(G(vs[0].n), 2);")),
        Err(GLSLConversionError::WrongNumberOfArgs(1, 2))
    );
    assert!(lowered(&source("yield_vertex(G(vs[0].n));")).is_ok());
}

#[test]
fn nested_yield_is_left_as_it_is() {
    let fold = lowered(
        "struct Vertex { vec4 chdr_Position; vec3 n; };
         Vertex map_vertex(vec3 p) { return Vertex(vec4(p, 1.), p); }
         struct G { vec3 n; };
         void concat_map_prim(Vertex[1] vs, layout (points, max_vertices = 1) out G) {
           if (vs[0].n.x > 0.) { yield_vertex(G(vs[0].n)); yield_primitive(); }
           other_call(1);
         }
         struct F { vec4 c; };
         F map_frag_data(G v) { return F(vec4(v.n, 1.)); }",
    )
    .expect("the pipeline lowers");
    let gs = fold.gs.expect("the pipeline has a geometry stage");
    assert!(gs.contains("yield_vertex(G(vs[0].n));"));
    assert!(gs.contains("yield_primitive();"));
    assert!(gs.contains("other_call(1);"));
    assert!(!gs.contains("EmitVertex"));
    assert!(!gs.contains("EndPrimitive"));
}

fn parsed_statement(source: &str) -> Stmt {
    parsed_function(&format!("void f() {{ {} }}", source)).body[0].clone()
}

fn parsed_expression(source: &str) -> Expression {
    match parsed_statement(&format!("{};", source)) {
        Stmt::Expression(Some(e)) => e,
        other => panic!("unexpected statement: {:?}", other),
    }
}

fn parsed_struct(source: &str) -> StructDef {
    module(&format!("{};", source)).structs()[0].clone()
}

fn parsed_function(source: &str) -> FunctionDef {
    match &module(source).glsl[0] {
        ExternalDecl::Function(f) => f.clone(),
        other => panic!("unexpected declaration: {:?}", other),
    }
}

fn parsed_declaration(source: &str) -> SingleDecl {
    match &module(&format!("{};", source)).glsl[0] {
        ExternalDecl::Declaration(Decl::Vars(list)) => list.head.clone(),
        other => panic!("unexpected declaration: {:?}", other),
    }
}

#[test]
fn uniforms_are_listed_one_name_at_a_time() {
    let module = module(
        "uniform mat4 projection, view[2], model;
         uniform float time = 1.;
         in vec3 position;
         layout (std140) uniform sampler2D maps[4];
         float other;
         void f() { }",
    );
    let uniforms = module.uniforms();
    let expected = [
        "uniform mat4 projection",
        "uniform mat4 view[2]",
        "uniform mat4 model",
        "uniform float time = 1.",
        "layout (std140) uniform sampler2D maps[4]",
    ];
    assert_eq!(uniforms.len(), expected.len());
    for (uniform, source) in uniforms.iter().zip(expected) {
        assert_eq!(*uniform, parsed_declaration(source));
    }
}

#[test]
fn blocks_functions_and_structs_are_listed_in_order() {
    let module = module(
        "struct A { float x; };
         uniform Lights { vec3 dir; float power; } lights;
         void first() { }
         struct B { vec2 y; } b;
         float second(float x) { return x; }
         buffer Data { float values[]; };
         uniform float time;",
    );
    let blocks: Vec<String> = module.blocks().iter().map(|b| b.name.clone()).collect();
    assert_eq!(blocks, ["Lights", "Data"]);
    let functions: Vec<String> = module.functions().iter().map(|f| f.name.clone()).collect();
    assert_eq!(functions, ["first", "second"]);
    assert_eq!(
        module.structs(),
        [parsed_struct("struct A { float x; }"), parsed_struct("struct B { vec2 y; }")]
    );
    assert_eq!(module.uniforms(), [parsed_declaration("uniform float time")]);
}

#[test]
fn common_part_holds_uniforms_blocks_and_plain_functions() {
    let fold = lowered(&format!(
        "uniform Lights {{ vec3 dir; }} lights;
         uniform float time;
         float twice(float x) {{ return x; }}
         {}",
        MINIMUM
    ))
    .expect("the pipeline lowers");
    let common = "uniform float time;\n\
                  uniform Lights {vec3 dir;\n\n}lights\
                  float twice(float x) {\nreturn x;\n}\n";
    assert!(fold.vs.starts_with(common), "{}", fold.vs);
    assert!(fold.fs.starts_with(common), "{}", fold.fs);
    assert!(fold.vs[common.len()..].starts_with("layout (location = 0) in vec3 p;\n"));
    assert!(fold.fs[common.len()..].starts_with("out vec4 chdr_f_c;\n"));
}

#[test]
fn struct_declared_twice_is_shared_twice() {
    let fold = lowered(&format!("struct L {{ float x; }};\nstruct L {{ float x; }};\n{}", MINIMUM))
        .expect("the pipeline lowers");
    assert!(fold.vs.starts_with("struct L {\nfloat x;\n};\nstruct L {\nfloat x;\n};\n"));
}

#[test]
fn vertex_inputs_keep_the_location_of_their_position() {
    let f = parsed_function("Vertex map_vertex(vec3 a, vec2, flat vec4 c[2], float, int e) { }");
    let inputs = spectra::vertex::vertex_shader_inputs(&f.params).expect("it never fails");
    assert_eq!(
        inputs,
        [
            parsed_declaration("layout (location = 0) in vec3 a"),
            parsed_declaration("layout (location = 2) in flat vec4 c[2]"),
            parsed_declaration("layout (location = 4) in int e"),
        ]
    );
    let none: Vec<Param> = Vec::new();
    assert_eq!(spectra::vertex::vertex_shader_inputs(&none), Ok(Vec::new()));
}

#[test]
fn vertex_input_qualifier_starts_with_location_and_in() {
    let plain = spectra::vertex::vertex_shader_input_qualifier(7, &None);
    assert_eq!(plain, parsed_declaration("layout (location = 7) in float x").ty.qualifier.unwrap());
    let user = parsed_declaration("flat highp float x").ty.qualifier;
    let both = spectra::vertex::vertex_shader_input_qualifier(1, &user);
    assert_eq!(
        both,
        parsed_declaration("layout (location = 1) in flat highp float x").ty.qualifier.unwrap()
    );
}

#[test]
fn vertex_outputs_skip_the_position() {
    let structs = vec![
        parsed_struct("struct Other { vec4 chdr_Position; }"),
        parsed_struct("struct Vertex { vec4 chdr_Position; vec3 n, m; flat int id[2]; }"),
    ];
    let ty = parsed_function("Vertex map_vertex() { }").ty;
    let outputs = spectra::vertex::vertex_shader_outputs(&ty, &structs).expect("it lowers");
    assert_eq!(
        outputs,
        [
            parsed_declaration("out vec3 chdr_v_n"),
            parsed_declaration("out vec3 chdr_v_m"),
            parsed_declaration("flat out int chdr_v_id[2]"),
        ]
    );
}

#[test]
fn struct_without_field_is_no_vertex_output() {
    let structs = vec![StructDef { name: Some("Vertex".to_owned()), fields: Vec::new() }];
    let ty = parsed_function("Vertex map_vertex() { }").ty;
    let result = spectra::vertex::vertex_shader_outputs(&ty, &structs);
    assert_eq!(result, Err(GLSLConversionError::ReturnTypeMustBeAStruct(ty.ty)));
}

#[test]
fn first_struct_of_a_name_is_the_one_found() {
    let structs = vec![
        parsed_struct("struct A { float first; }"),
        parsed_struct("struct A { float second; }"),
    ];
    let ty = parsed_function("A f() { }").ty.ty;
    assert_eq!(spectra::interface::struct_from_ty_spec(&ty, &structs), Ok(structs[0].clone()));
}

#[test]
fn arguments_of_the_call_are_names_and_placeholders() {
    let f = parsed_function("void f(vec3, vec2 b, float, int d) { }");
    let mut sink = String::from("f(");
    spectra::vertex::sink_vertex_shader_input_args(&mut sink, &f);
    assert_eq!(sink, "f(chdr_unused0, b, d");
    let mut sink = String::new();
    spectra::vertex::sink_vertex_shader_input_arg(&mut sink, 1203, &f.params[2]);
    assert_eq!(sink, "chdr_unused1203");
    let mut sink = String::new();
    spectra::vertex::sink_vertex_shader_input_arg(&mut sink, 0, &f.params[0]);
    assert_eq!(sink, "chdr_unused0");
    let mut sink = String::new();
    spectra::vertex::sink_vertex_shader_input_arg(&mut sink, 9, &f.params[1]);
    assert_eq!(sink, "b");
    let mut sink = String::from("()");
    spectra::vertex::sink_vertex_shader_input_args(&mut sink, &parsed_function("void g() { }"));
    assert_eq!(sink, "()");
}

#[test]
fn vertex_output_assigns_every_name_after_the_position() {
    let ty = parsed_struct("struct V { vec4 chdr_Position; vec3 a, b; float c; }");
    let mut sink = String::new();
    let mut assigns = String::new();
    spectra::vertex::sink_vertex_shader_output(&mut sink, &mut assigns, &ty);
    assert_eq!(sink, "V");
    assert_eq!(
        assigns,
        "  gl_Position = v.chdr_Position;\n  chdr_v_a = v.a;\n  chdr_v_b = v.b;\n  \
         chdr_v_c = v.c;\n"
    );
}

#[test]
fn unused_arguments_are_removed() {
    let f = parsed_function("float f(vec3, vec2 b, float, int d) { return 1.; }");
    let reduced = spectra::interface::remove_unused_args_fn(&f);
    assert_eq!(reduced, parsed_function("float f(vec2 b, int d) { return 1.; }"));
    assert!(!spectra::interface::is_fn_arg_named(&f.params[0]));
    assert!(spectra::interface::is_fn_arg_named(&f.params[1]));
}

#[test]
fn first_field_is_dropped() {
    let s = parsed_struct("struct V { vec4 chdr_Position; vec3 a, b; float c; }");
    let dropped = spectra::interface::drop_first_field(&s);
    assert_eq!(dropped, parsed_struct("struct V { vec3 a, b; float c; }"));
    let empty = StructDef { name: None, fields: Vec::new() };
    assert_eq!(spectra::interface::drop_first_field(&empty), empty);
}

#[test]
fn inputs_mirror_outputs() {
    let outputs = vec![
        parsed_declaration("out vec3 chdr_v_n"),
        parsed_declaration("flat out int chdr_v_id[2]"),
        parsed_declaration("vec2 chdr_v_plain = x"),
    ];
    assert_eq!(
        spectra::interface::inputs_from_outputs(&outputs, false),
        [
            parsed_declaration("in vec3 chdr_v_n"),
            parsed_declaration("flat in int chdr_v_id[2]"),
            parsed_declaration("vec2 chdr_v_plain = x"),
        ]
    );
    assert_eq!(
        spectra::interface::inputs_from_outputs(&outputs, true),
        [
            parsed_declaration("in vec3[] chdr_v_n"),
            parsed_declaration("flat in int[] chdr_v_id[2]"),
            parsed_declaration("vec2[] chdr_v_plain = x"),
        ]
    );
}

#[test]
fn fields_become_outputs_behind_a_prefix() {
    let s = parsed_struct("struct G { vec3 co; smooth vec4 color, other; mat3 m[3]; }");
    assert_eq!(
        spectra::interface::fields_to_single_decls(&s.fields, 0, "chdr_g_"),
        Ok(vec![
            parsed_declaration("out vec3 chdr_g_co"),
            parsed_declaration("smooth out vec4 chdr_g_color"),
            parsed_declaration("smooth out vec4 chdr_g_other"),
            parsed_declaration("out mat3 chdr_g_m[3]"),
        ])
    );
    assert_eq!(
        spectra::interface::fields_to_single_decls(&s.fields, 2, "x_"),
        Ok(vec![parsed_declaration("out mat3 x_m[3]")])
    );
    assert_eq!(spectra::interface::fields_to_single_decls(&s.fields, 3, "x_"), Ok(Vec::new()));
    assert_eq!(spectra::interface::fields_to_single_decls(&s.fields, 9, "x_"), Ok(Vec::new()));
}

#[test]
fn output_primitive_names() {
    for name in ["points", "line_strip", "triangle_strip"] {
        assert!(spectra::geometry::check_gs_output_prim(name));
    }
    for name in ["", "point", "lines", "triangles", "triangle_strips", "Points", "line_strip "] {
        assert!(!spectra::geometry::check_gs_output_prim(name));
    }
}

#[test]
fn input_primitive_of_an_array() {
    let dims = |source: &str| parsed_declaration(source).ty.ty.array;
    let (dim, layout) =
        spectra::geometry::guess_gs_input_prim(&dims("V[4] x")).expect("it is a primitive");
    assert_eq!(dim, 4);
    assert_eq!(
        layout,
        Layout { first: LayoutId::Named("lines_adjacency".to_owned(), None), rest: Vec::new() }
    );
    assert_eq!(
        spectra::geometry::guess_gs_input_prim(&dims("V[5] x")),
        Err(GLSLConversionError::WrongGeometryInputDim(5))
    );
    assert_eq!(
        spectra::geometry::guess_gs_input_prim(&dims("V x")),
        Err(GLSLConversionError::WrongGeometryInput)
    );
    assert_eq!(
        spectra::geometry::guess_gs_input_prim(&dims("V[3u] x")),
        Err(GLSLConversionError::WrongGeometryInput)
    );
}

#[test]
fn yield_vertex_becomes_a_block() {
    let out_ty = parsed_struct("struct G { vec3 co; vec4 color, glow; }");
    let args = vec![parsed_expression("G(a, b, c)")];
    let block = spectra::geometry::yield_vertex(&args, &out_ty).expect("one argument");
    assert_eq!(
        block,
        parsed_statement(
            "{ G chdr_v = G(a, b, c); chdr_g_co = chdr_v.co; chdr_g_color = chdr_v.color; \
             chdr_g_glow = chdr_v.glow; EmitVertex(); }"
        )
    );
    assert_eq!(spectra::geometry::yield_primitive(), parsed_statement("EndPrimitive();"));
}

#[test]
fn vertex_array_is_rebuilt_from_the_inputs() {
    let v_ty = parsed_struct("struct V { vec3 n, m; float w; }");
    assert_eq!(
        spectra::geometry::gs_create_vertex_array(&v_ty, 2, "v"),
        parsed_statement(
            "V[2] v = V[](V(chdr_v_n[0], chdr_v_m[0], chdr_v_w[0]), \
             V(chdr_v_n[1], chdr_v_m[1], chdr_v_w[1]));"
        )
    );
    assert_eq!(
        spectra::geometry::gs_create_vertex_array(&v_ty, 0, "none"),
        parsed_statement("V[0] none = V[]();")
    );
}

#[test]
fn body_without_yield_is_left_as_it_is() {
    let f = parsed_function(
        "void concat_map_prim(Vertex[3] vs, layout (points, max_vertices = 1) out G) {
           float x = 1.;
           x = x + 2.;
           emit(x);
           for (int i = 0; i < 3; ++i) { yield_vertex(G(vs[i].n)); }
           { yield_primitive(); }
           return;
         }",
    );
    let out_ty = parsed_struct("struct G { vec3 n; }");
    let fixed = spectra::geometry::fix_concat_map_prim(f.clone(), &out_ty).expect("it lowers");
    assert_eq!(fixed.body, f.body);
    assert_eq!(fixed.name, f.name);
    assert_eq!(fixed.ty, f.ty);
    assert_eq!(fixed.params, f.params[..1]);
}

#[test]
fn yields_at_the_top_level_are_lowered() {
    let f = parsed_function(
        "void concat_map_prim(Vertex[1] vs, layout (points, max_vertices = 1) out G) {
           yield_vertex(G(vs[0].n));
           helper();
           yield_primitive();
         }",
    );
    let out_ty = parsed_struct("struct G { vec3 n; }");
    let fixed = spectra::geometry::fix_concat_map_prim(f, &out_ty).expect("it lowers");
    assert_eq!(
        fixed,
        parsed_function(
            "void concat_map_prim(Vertex[1] vs) {
               { G chdr_v = G(vs[0].n); chdr_g_n = chdr_v.n; EmitVertex(); }
               helper();
               EndPrimitive();
             }"
        )
    );
}

#[test]
fn layout_declaration_is_a_bare_qualifier() {
    let layout = Layout { first: LayoutId::Named("triangles".to_owned(), None), rest: Vec::new() };
    let decl =
        spectra::geometry::gs_layout_storage_external_decl(layout.clone(), QualifierSpec::In);
    let qualifier = Qualifier { first: QualifierSpec::Layout(layout), rest: vec![QualifierSpec::In] };
    assert_eq!(decl, ExternalDecl::Declaration(Decl::Global(qualifier, Vec::new())));
}

#[test]
fn output_layout_is_read_from_the_qualifiers() {
    let qualifier = |source: &str| parsed_declaration(source).ty.qualifier;
    let found = spectra::geometry::get_gs_output_layout_metadata(&qualifier(
        "layout (line_strip, max_vertices = 12) out G",
    ))
    .expect("it is a layout");
    assert_eq!(
        QualifierSpec::Layout(found),
        qualifier("layout (line_strip, max_vertices = 12) G").unwrap().first
    );
    let wrong = qualifier("layout (lines, max_vertices = 12) out G");
    assert_eq!(
        spectra::geometry::get_gs_output_layout_metadata(&wrong),
        Err(GLSLConversionError::WrongGeometryOutputLayout(wrong.clone()))
    );
}

#[test]
fn stages_hand_on_their_struct_and_outputs() {
    let module = module(COLORED);
    let structs = module.structs();
    let functions = module.functions();
    let find = |name: &str| functions.iter().find(|f| f.name == name).expect("it is defined");
    let mut vs = String::from("// vertex\n");
    let (vertex_ret, vertex_outputs) =
        spectra::vertex::sink_vertex_shader(&mut vs, find("map_vertex"), &structs)
            .expect("it lowers");
    assert!(vs.starts_with("// vertex\nlayout (location = 0) in vec3 position;\n"));
    assert_eq!(vertex_ret, structs[1]);
    assert_eq!(vertex_outputs.len(), 2);
    let handed = spectra::interface::drop_first_field(&vertex_ret);
    let mut gs = String::new();
    let (geometry_ret, geometry_outputs) = spectra::geometry::sink_geometry_shader(
        &mut gs,
        find("concat_map_prim"),
        &structs,
        &handed,
        &vertex_outputs,
    )
    .expect("it lowers");
    assert_eq!(geometry_ret, structs[2]);
    assert_eq!(
        geometry_outputs,
        [parsed_declaration("out vec3 chdr_g_co"), parsed_declaration("out vec4 chdr_g_color")]
    );
    let mut fs = String::from("#");
    let (fragment_ret, fragment_outputs) = spectra::fragment::sink_fragment_shader(
        &mut fs,
        find("map_frag_data"),
        &structs,
        &geometry_ret,
        &geometry_outputs,
    )
    .expect("it lowers");
    assert_eq!(fragment_ret, structs[3]);
    assert_eq!(fragment_outputs.len(), 2);
    assert!(fs.starts_with("#in vec3 chdr_g_co;\n"));
    let mut untouched = String::from("kept");
    let failed = spectra::fragment::sink_fragment_shader(
        &mut untouched,
        find("map_frag_data"),
        &structs,
        &handed,
        &vertex_outputs,
    );
    assert_eq!(failed, Err(GLSLConversionError::UnknownInputType("GVertex".to_owned())));
    assert_eq!(untouched, "kept");
}

#[test]
fn special_functions_are_filtered_out() {
    let module = module(COLORED);
    let plain = spectra::pipeline::filter_out_special_functions(&module.functions());
    let names: Vec<&str> = plain.iter().map(|f| f.name.as_str()).collect();
    assert_eq!(names, ["shade"]);
    let functions = module.functions();
    let found = spectra::pipeline::find_function_named(&functions, "map_frag_data");
    assert_eq!(found.map(|f| f.name.as_str()), Some("map_frag_data"));
    assert!(spectra::pipeline::find_function_named(&functions, "map_frag").is_none());
}

#[test]
fn copies_are_equal_to_their_originals() {
    let module = module(COLORED);
    assert_eq!(module.clone(), module);
    let fold = module.to_glsl_setup().expect("the pipeline lowers");
    assert_eq!(fold.clone(), fold);
    let error = GLSLConversionError::WrongGeometryOutputLayout(
        parsed_declaration("layout (points) out G").ty.qualifier,
    );
    assert_eq!(error.clone(), error);
}

#[test]
fn every_name_of_a_field_has_its_output() {
    let fold = lowered(
        "struct Vertex { vec4 chdr_Position; vec3 a, b[2]; };
         Vertex map_vertex(vec3 p) { return Vertex(vec4(p, 1.), p, vec3[2](p, p)); }
         struct G { vec2 s, t; };
         void concat_map_prim(Vertex[1] vs, layout (points, max_vertices = 1) out G) {
           yield_vertex(G(vs[0].a.xy, vs[0].a.yz));
         }
         struct F { vec4 c, d[3]; float e; };
         F map_frag_data(G v) { return F(vec4(1.), vec4[3](vec4(1.), vec4(1.), vec4(1.)), 1.); }",
    )
    .expect("the pipeline lowers");
    assert!(fold.vs.contains("out vec3 chdr_v_a;\nout vec3 chdr_v_b[2];\n"));
    assert!(fold.vs.contains("  chdr_v_a = v.a;\n  chdr_v_b = v.b;\n}"));
    let gs = fold.gs.expect("the pipeline has a geometry stage");
    assert!(gs.contains(
        "in vec3[] chdr_v_a;\nin vec3[] chdr_v_b[2];\nout vec2 chdr_g_s;\nout vec2 chdr_g_t;\n"
    ));
    assert!(gs.contains("chdr_g_s = chdr_v.s;\nchdr_g_t = chdr_v.t;\nEmitVertex();"));
    assert!(gs.contains("Vertex[1] v = Vertex[](Vertex(chdr_v_a[0], chdr_v_b[0]));"));
    assert!(fold.fs.contains(
        "in vec2 chdr_g_s;\nin vec2 chdr_g_t;\nout vec4 chdr_f_c;\nout vec4 chdr_f_d[3];\n\
         out float chdr_f_e;\n"
    ));
    assert!(fold.fs.contains("  G i = G(chdr_g_s, chdr_g_t);\n"));
    assert!(fold.fs.contains(
        "  chdr_f_c = o.c;\n  chdr_f_d = o.d;\n  chdr_f_e = o.e;\n}\n\n"
    ));
}

#[test]
fn position_with_array_dimensions_is_a_wrong_first_field() {
    for field in ["vec4[2] chdr_Position", "vec4 chdr_Position[2]", "vec4[] chdr_Position"] {
        let result = lowered(&format!(
            "struct Vertex {{ {}; }};
             Vertex map_vertex(vec3 p) {{ return Vertex(vec4(p, 1.)); }}
             struct F {{ vec4 c; }};
             F map_frag_data(Vertex v) {{ return F(vec4(1.)); }}",
            field
        ));
        assert!(
            matches!(result, Err(GLSLConversionError::WrongOutputFirstField(_))),
            "{}: {:?}",
            field,
            result
        );
    }
}

#[test]
fn fragment_input_without_name_is_refused() {
    let result = lowered(
        "struct Vertex { vec4 chdr_Position; };
         Vertex map_vertex(vec3 p) { return Vertex(vec4(p, 1.)); }
         struct F { vec4 c; };
         F map_frag_data(Vertex) { return F(vec4(1.)); }",
    );
    assert_eq!(result, Err(GLSLConversionError::UnnamedInput));
}

#[test]
fn yield_vertex_with_a_wrong_number_of_arguments_needs_no_name() {
    let nameless = StructDef { name: None, fields: Vec::new() };
    assert_eq!(
        spectra::geometry::yield_vertex(&Vec::new(), &nameless),
        Err(GLSLConversionError::WrongNumberOfArgs(1, 0))
    );
    let f = parsed_function("void concat_map_prim(V[1] vs) { helper(); yield_vertex(); }");
    assert_eq!(
        spectra::geometry::fix_concat_map_prim(f, &nameless),
        Err(GLSLConversionError::WrongNumberOfArgs(1, 0))
    );
    let f = parsed_function("void concat_map_prim(V[1] vs) { helper(); yield_primitive(); }");
    let fixed = spectra::geometry::fix_concat_map_prim(f, &nameless).expect("it lowers");
    assert_eq!(fixed.body[1], parsed_statement("EndPrimitive();"));
}

#[test]
fn inputs_keep_the_dimensions_behind_a_type() {
    let outputs = vec![
        parsed_declaration("out vec3[2] chdr_v_a"),
        parsed_declaration("smooth out vec4[] chdr_v_b[3]"),
        parsed_declaration("out mat2[2][4] chdr_v_c"),
    ];
    assert_eq!(
        spectra::interface::inputs_from_outputs(&outputs, false),
        [
            parsed_declaration("in vec3[2] chdr_v_a"),
            parsed_declaration("smooth in vec4[] chdr_v_b[3]"),
            parsed_declaration("in mat2[2][4] chdr_v_c"),
        ]
    );
    assert_eq!(
        spectra::interface::inputs_from_outputs(&outputs, true),
        [
            parsed_declaration("in vec3[][2] chdr_v_a"),
            parsed_declaration("smooth in vec4[][] chdr_v_b[3]"),
            parsed_declaration("in mat2[][2][4] chdr_v_c"),
        ]
    );
    for output in &outputs {
        let input = spectra::interface::input_from_output(output, false);
        assert_eq!(input.ty.ty, output.ty.ty);
        assert_eq!(input.name, output.name);
        assert_eq!(input.array, output.array);
    }
}

#[test]
fn fragment_inputs_have_the_types_of_the_vertex_outputs() {
    let fold = lowered(
        "struct Vertex { vec4 chdr_Position; vec3[2] a; float[3] b, c[4]; vec2 d; };
         Vertex map_vertex(vec3 p) { return Vertex(vec4(p, 1.), x, y, z, p.xy); }
         struct F { vec4[2] c; };
         F map_frag_data(Vertex v) { return F(w); }",
    )
    .expect("the pipeline lowers");
    assert!(fold.gs.is_none());
    assert!(fold.vs.contains(
        "out vec3[2] chdr_v_a;\nout float[3] chdr_v_b;\nout float[3] chdr_v_c[4];\n\
         out vec2 chdr_v_d;\n"
    ));
    assert!(fold.fs.contains(
        "in vec3[2] chdr_v_a;\nin float[3] chdr_v_b;\nin float[3] chdr_v_c[4];\n\
         in vec2 chdr_v_d;\nout vec4[2] chdr_f_c;\n"
    ));
    assert!(fold.fs.contains("  Vertex i = Vertex(chdr_v_a, chdr_v_b, chdr_v_c, chdr_v_d);\n"));
}

#[test]
fn inputs_after_a_geometry_stage_have_the_types_of_its_outputs() {
    let fold = lowered(
        "struct Vertex { vec4 chdr_Position; vec3[2] a; vec2 d; };
         Vertex map_vertex(vec3 p) { return Vertex(vec4(p, 1.), x, p.xy); }
         struct G { vec2[3] s; float t; };
         void concat_map_prim(Vertex[1] vs, layout (points, max_vertices = 1) out G) {
           yield_vertex(G(y, 1.));
         }
         struct F { vec4 c; };
         F map_frag_data(G v) { return F(vec4(1.)); }",
    )
    .expect("the pipeline lowers");
    assert!(fold.vs.contains("out vec3[2] chdr_v_a;\nout vec2 chdr_v_d;\n"));
    let gs = fold.gs.expect("the pipeline has a geometry stage");
    assert!(gs.contains(
        "in vec3[][2] chdr_v_a;\nin vec2[] chdr_v_d;\nout vec2[3] chdr_g_s;\nout float chdr_g_t;\n"
    ));
    assert!(gs.contains("Vertex[1] v = Vertex[](Vertex(chdr_v_a[0], chdr_v_d[0]));"));
    assert!(fold.fs.contains("in vec2[3] chdr_g_s;\nin float chdr_g_t;\nout vec4 chdr_f_c;\n"));
    assert!(fold.fs.contains("  G i = G(chdr_g_s, chdr_g_t);\n"));
}
