use spectra::module::{Module, ModuleKey};
use spectra::parse::{blank_from, chars_of, parse_module, ParseError};
use spectra::syntax::{Import, Stmt, TypeKind};

fn import(path: &[&str], symbols: &[&str]) -> Import {
    Import {
        path: path.iter().map(|name| name.to_string()).collect(),
        symbols: symbols.iter().map(|name| name.to_string()).collect(),
    }
}

#[test]
fn source_holds_imports_and_declarations() {
    let module = parse_module(
        "from lib.light import (shade, Light)
         from lib.math import ()
         uniform float time;
         struct Vertex { vec4 chdr_Position; };
         float twice(float x) { return x + x; }",
    )
    .expect("the source parses");
    assert_eq!(
        module.imports,
        [import(&["lib", "light"], &["shade", "Light"]), import(&["lib", "math"], &[])]
    );
    assert_eq!(module.glsl.len(), 3);
    assert_eq!(module.uniforms().len(), 1);
    assert_eq!(module.structs().len(), 1);
    assert_eq!(module.functions().len(), 1);
}

#[test]
fn blank_source_is_incomplete() {
    for source in ["", " ", "\n\t  \r\n"] {
        assert_eq!(parse_module(source), Err(ParseError::Incomplete));
    }
}

#[test]
fn source_of_imports_declares_nothing() {
    let module = parse_module("from a.b import (c)\n\n").expect("the source parses");
    assert_eq!(module, Module { imports: vec![import(&["a", "b"], &["c"])], glsl: Vec::new() });
}

#[test]
fn code_that_the_parser_refuses_is_a_syntax_error() {
    for source in ["void f( {", "from a import (b) struct", "from a.b import (x", "@"] {
        match parse_module(source) {
            Err(ParseError::Syntax(message)) => assert!(!message.is_empty()),
            other => panic!("unexpected result for {:?}: {:?}", source, other),
        }
    }
}

#[test]
fn list_that_the_parser_leaves_empty_is_refused() {
    assert_eq!(parse_module("struct A { float; };"), Err(ParseError::EmptyList));
    assert_eq!(parse_module("void f(struct A { float; } a) { }"), Err(ParseError::EmptyList));
    assert_eq!(parse_module("void f() { struct A { float; } a; }"), Err(ParseError::EmptyList));
}

#[test]
fn nodes_of_the_tree_are_read_apart() {
    let module = parse_module(
        "void f(Vertex[3] vs, layout (points, max_vertices = 1) out G) {
           yield_vertex(G(vs[0].n));
           v.x = 1;
           a += 2;
           if (a) { return; }
           { float x[2] = float[2](1., 2.); }
         }",
    )
    .expect("the source parses");
    let functions = module.functions();
    let body = &functions[0].body;
    assert!(matches!(body[0], Stmt::Expression(Some(spectra::syntax::Expression::Call(..)))));
    assert!(matches!(body[1], Stmt::Expression(Some(spectra::syntax::Expression::Assign(..)))));
    assert!(matches!(body[2], Stmt::Expression(Some(spectra::syntax::Expression::Operation(..)))));
    assert!(matches!(body[3], Stmt::Selection(..)));
    assert!(matches!(body[4], Stmt::Compound(..)));
    match &functions[0].params[0] {
        spectra::syntax::Param::Named(None, ty, name) => {
            assert_eq!(ty.kind, TypeKind::Named("Vertex".to_owned()));
            assert_eq!(name.name, "vs");
            assert_eq!(ty.array.as_ref().map(|a| a.dims.len()), Some(1));
        }
        other => panic!("unexpected parameter: {:?}", other),
    }
    assert!(matches!(&functions[0].params[1], spectra::syntax::Param::Unnamed(Some(_), _)));
}

#[test]
fn parsed_module_resolves_and_lowers() {
    let source = "from lib import (x)
        struct Vertex { vec4 chdr_Position; };
        Vertex map_vertex(vec3 p) { return Vertex(vec4(p, 1.)); }
        struct F { vec4 c; };
        F map_frag_data(Vertex v) { return F(vec4(1.)); }";
    let root = parse_module(source).expect("the source parses");
    let lib = parse_module("uniform float time;").expect("the source parses");
    let mut store = spectra::module::Store::new();
    store.insert(ModuleKey::new("lib"), lib);
    let (fold, deps) = root.gather(&store, &ModuleKey::new("root")).expect("it resolves");
    assert_eq!(deps, [ModuleKey::new("lib")]);
    let stages = fold.to_glsl_setup().expect("the pipeline lowers");
    assert!(stages.vs.starts_with("uniform float time;\nlayout (location = 0) in vec3 p;\n"));
    assert!(stages.fs.starts_with("uniform float time;\nout vec4 chdr_f_c;\n"));
}

#[test]
fn characters_of_a_text() {
    assert_eq!(chars_of("a\u{e9}\u{1f600}b"), ['a', '\u{e9}', '\u{1f600}', 'b']);
    assert_eq!(chars_of(""), Vec::<char>::new());
    let chars = chars_of("ab \t\r\n");
    assert!(!blank_from(&chars, 0));
    assert!(!blank_from(&chars, 1));
    assert!(blank_from(&chars, 2));
    assert!(blank_from(&chars, 6));
}

#[test]
fn common_part_reads_back_to_the_same_classification() {
    let module = parse_module(
        "uniform mat4 projection, view;
         uniform float time;
         struct Light { vec3 dir; float power[2]; };
         float shade(vec3 n, Light l) { return n.x * l.power[0]; }
         vec3 twice(vec3 v) { v = v + v; return v; }
         struct Vertex { vec4 chdr_Position; };
         Vertex map_vertex(vec3 p) { return Vertex(vec4(p, 1.)); }
         struct F { vec4 c; };
         F map_frag_data(Vertex v) { return F(vec4(1.)); }",
    )
    .expect("the source parses");
    let fold = module.to_glsl_setup().expect("the pipeline lowers");
    let end = fold.vs.find("layout (location = 0)").expect("the stage follows the common part");
    let common = parse_module(&fold.vs[..end]).expect("the common part parses");
    assert_eq!(common.uniforms(), module.uniforms());
    assert_eq!(common.blocks(), module.blocks());
    assert_eq!(
        common.functions(),
        spectra::pipeline::filter_out_special_functions(&module.functions())
    );
    assert_eq!(common.structs(), module.structs()[..1]);
}

const CONTROL: &str = "float walk(float x, int n) {
  float total = 0.;
  float table[2] = { 1., 2. };
  float helper(float y);
  switch (n) { case 1: total = 1.; break; default: discard; }
  while (n > 2) { n--; continue; }
  do { total += 1.; } while (total < 10.);
  for (int i = 0; i < n; ++i) { total += table[i % 2]; }
  for (; ; ) { break; }
  return helper(total);
}";

#[test]
fn statements_of_control_flow_read_back_to_themselves() {
    let source = format!(
        "{}
         struct Vertex {{ vec4 chdr_Position; }};
         Vertex map_vertex(vec3 p) {{ return Vertex(vec4(p, 1.)); }}
         struct F {{ vec4 c; }};
         F map_frag_data(Vertex v) {{ return F(vec4(1.)); }}",
        CONTROL
    );
    let module = parse_module(&source).expect("the source parses");
    let fold = module.to_glsl_setup().expect("the pipeline lowers");
    let end = fold.vs.find("layout (location = 0)").expect("the stage follows the common part");
    let common = parse_module(&fold.vs[..end]).expect("the common part parses");
    let body = &module.functions()[0].body;
    assert_eq!(body.len(), 9);
    assert!(matches!(body[1], Stmt::Declaration(spectra::syntax::Decl::Vars(_))));
    assert!(matches!(body[2], Stmt::Declaration(spectra::syntax::Decl::Prototype(_))));
    assert!(matches!(body[3], Stmt::Switch(_)));
    assert!(matches!(body[4], Stmt::Iteration(spectra::syntax::Iteration::While(..))));
    assert!(matches!(body[5], Stmt::Iteration(spectra::syntax::Iteration::DoWhile(..))));
    assert!(matches!(body[6], Stmt::Iteration(spectra::syntax::Iteration::For(..))));
    assert!(matches!(body[8], Stmt::Jump(spectra::syntax::Jump::Return(Some(_)))));
    let read_back = &common.functions()[0].body;
    for (i, (found, expected)) in read_back.iter().zip(body).enumerate() {
        assert_eq!(found, expected, "statement {}", i);
    }
    assert_eq!(common.functions(), module.functions()[..1]);
}

#[test]
fn precision_statement_is_a_declaration_of_its_own() {
    let module = parse_module("precision mediump float; void f() { precision lowp int; }")
        .expect("the source parses");
    match &module.glsl[0] {
        spectra::syntax::ExternalDecl::Declaration(spectra::syntax::Decl::Precision(p, ty)) => {
            assert_eq!(*p, spectra::syntax::Precision::Medium);
            assert_eq!(ty.array, None);
        }
        other => panic!("unexpected declaration: {:?}", other),
    }
    let functions = module.functions();
    assert!(matches!(
        functions[0].body[0],
        Stmt::Declaration(spectra::syntax::Decl::Precision(spectra::syntax::Precision::Low, _))
    ));
}

#[test]
fn selection_is_written_with_its_branches() {
    let module = parse_module(
        "float pick(float x) { if (x > 1.) { return x; } else { return 1.; } }
         struct Vertex { vec4 chdr_Position; };
         Vertex map_vertex(vec3 p) { return Vertex(vec4(p, 1.)); }
         struct F { vec4 c; };
         F map_frag_data(Vertex v) { return F(vec4(1.)); }",
    )
    .expect("the source parses");
    let fold = module.to_glsl_setup().expect("the pipeline lowers");
    assert!(fold.vs.starts_with(
        "float pick(float x) {\nif (x>1.) {\n{\nreturn x;\n}\n} else {\nreturn 1.;\n}\n}\n"
    ), "{}", fold.vs);
}

#[test]
fn empty_list_inside_a_statement_is_refused() {
    assert_eq!(
        parse_module("void f() { if (a) { struct A { float; } x; } }"),
        Err(ParseError::EmptyList)
    );
    assert_eq!(
        parse_module("void f() { for (struct A { float; } x; ; ) { } }"),
        Err(ParseError::EmptyList)
    );
    assert_eq!(parse_module("void f() { float x[1] = { }; }"), Err(ParseError::EmptyList));
    assert_eq!(parse_module("layout () uniform float x;"), Err(ParseError::EmptyList));
    assert_eq!(parse_module("void f(layout () in float x);"), Err(ParseError::EmptyList));
}

#[test]
fn version_number_above_sixteen_bits_is_refused() {
    for source in [
        "#version 70000\n",
        "#version 65536\nuniform float t;",
        "#  version \t 0065536 core\n",
        "#version \\\n 99999999999999999999999\n",
        "from a import (b)\n#version 70000\nvoid f() { }",
        "// #version 70000\nvoid f() { }",
    ] {
        assert_eq!(parse_module(source), Err(ParseError::VersionNumber), "{:?}", source);
    }
    for source in ["#version 65535\nuniform float t;", "#version 450 core\nvoid f() { }"] {
        let module = parse_module(source).expect("the source parses");
        assert!(matches!(module.glsl[0], spectra::syntax::ExternalDecl::Directive(_)));
    }
    assert!(parse_module("// version 70000\nvoid f() { }").is_ok());
    let chars = chars_of("uniform float version; float x = 70000.;");
    assert!(!spectra::parse::check_wide_version(&chars));
    assert!(spectra::parse::check_wide_version(&chars_of("#version 65536")));
    assert!(!spectra::parse::check_wide_version(&chars_of("version 65536")));
    assert!(!spectra::parse::check_wide_version(&chars_of("#version 65535")));
}

#[test]
fn line_number_that_negates_two_to_the_thirty_first_is_refused() {
    let sources = [
        "#line -2147483648\nint x;",
        "#line 5 -2147483648\nint x;",
        "#line 5-2147483648\nint x;",
        "#line -7 \\\n -0x80000000\nint x;",
        "#line\t-020000000000\nint x;",
        "#line 0x1F -0X0080000000\nint x;",
        "# line -2147483648",
    ];
    for source in sources {
        assert_eq!(parse_module(source), Err(ParseError::LineNumber));
    }
    assert!(parse_module("#line -2147483647\nint x;").is_ok());
    assert!(parse_module("#line 2147483648\nint x;").is_ok());
    assert!(parse_module("#line 5 -0x8000000\nint x;").is_ok());
    assert!(parse_module("int line = 1 -2147483648;").is_ok());
    assert!(spectra::parse::check_wide_line(&chars_of("#line -00020000000000")));
    assert!(!spectra::parse::check_wide_line(&chars_of("#line -20000000000")));
    assert!(!spectra::parse::check_wide_line(&chars_of("#line -0x")));
    assert!(!spectra::parse::check_wide_line(&chars_of("line -2147483648")));
    assert!(!spectra::parse::check_wide_line(&chars_of("#")));
}

#[test]
fn negated_literal_of_two_to_the_thirty_first_is_read_in_an_expression() {
    let sources = [
        "int x = -2147483648;",
        "int x = - 2147483648;",
        "int x = -020000000000;",
        "int x = -0x80000000;",
        "int x = (-2147483648);",
        "int x = 1 -2147483648;",
        "int x = 1-2147483648;",
        "int x = - -2147483648;",
        "int x = --2147483648;",
        "uint x = -2147483648u;",
        "int x[-2147483648];",
        "int x = a[-2147483648];",
        "int x = f(-2147483648, -0x80000000);",
        "int x = a ? -2147483648 : -2147483648;",
        "int x = -2147483648++;",
        "layout (location = -2147483648) in vec4 p;",
        "void f() { switch (a) { case -2147483648: break; } }",
        "void f() { for (int i = -2147483648; i < -2147483648; i += -2147483648) { } }",
        "void f() { return -2147483648; }",
        "void f() { -2147483648; }",
        "int x = { -2147483648, -2147483648 };",
        "#define X -2147483648\nint x;",
        "#pragma -2147483648\nint x;",
        "#if -2147483648\nint x;",
    ];
    for source in sources {
        assert!(parse_module(source).is_ok(), "{}", source);
    }
}

#[test]
fn negated_literal_in_code_that_the_parser_refuses_is_a_syntax_error() {
    let sources = [
        "int x = -2147483648[;",
        "int x = -2147483648.;;",
        "int x = -2147483648(;",
        "int x = -21474836480;",
        "int x = -2147483648 -;",
        "-2147483648",
    ];
    for source in sources {
        assert!(matches!(parse_module(source), Err(ParseError::Syntax(_))), "{}", source);
    }
}

#[test]
fn odd_sources_are_read_or_refused() {
    let sources = [
        "#", "# ", "#\n", "#version", "#version\n", "#version \n", "#version x\n", "#version 1é\n",
        "#version 0\n", "#version 00000000000000000000000000001\n", "#version 450 es\n",
        "#line", "#line\n", "#line -\n", "#line - 1\n", "#line 1 -\n", "#line 0x\n",
        "#line 4294967296\n", "#line -4294967295\n", "#line 08\n", "#line 1u\n",
        "#line -2147483649\n", "#line 1 2 3\n", "#extension", "#extension all : enable\n",
        "#define", "#define X(\n", "#define X(a, b) a + b\n", "#undef\n", "#include <a>\n",
        "#include \"a\"\n", "#include\n", "#pragma\n", "#error\n", "#if\n", "#ifdef\n",
        "#ifndef\n", "#elif\n", "#else\n", "#endif\n", "#é\n",
        "/*", "/* a", "//", "// a \\\n b", "\\", "\\\n", "é", "int é;", "int x = é;",
        "int x = 0x;", "int x = 0xu;", "int x = 08;", "int x = 1e;", "int x = 1e+;",
        "int x = .;", "int x = ..;", "int x = 1.e;", "int x = 1.f;", "int x = 1.lf;",
        "int x = 1.0LF;", "int x = 1.0F;", "int x = .5;", "int x = 5.;", "int x = 1e999999;",
        "int x = 1.0e-999999;", "int x = 4294967295;", "int x = 4294967296;",
        "int x = 0xFFFFFFFF;", "int x = 0x100000000;", "int x = 037777777777;",
        "int x = 040000000000;", "int x = 99999999999999999999u;", "int x = '", "int x = \"",
        "int x = a.;", "int x = a[;", "int x = a[];", "int x = f(;", "int x = f(void);",
        "int x = (;", "int x = );", "int x = {};", "int x = { };", "int x = {,};",
        "struct { };", "struct S { };", "struct S { int; };", "struct S { int a };",
        "layout () in;", "layout (,) in;", "layout in;", "in;", "uniform;", ";", ";;",
        "void f() {", "void f() }", "void f(,) { }", "void f(int) { }", "void f(void) { }",
        "void f() { if }", "void f() { if () ; }", "void f() { for (;;) ; }",
        "void f() { for () ; }", "void f() { while () ; }", "void f() { do ; while (); }",
        "void f() { switch () { } }", "void f() { switch (a) { case: } }",
        "void f() { return }", "void f() { discard }", "precision highp;", "precision;",
        "subroutine() void f();", "subroutine(a,) void f();", "int a[][];", "int a[-1];",
        "int[] a;", "int a, ;", "int a, b, c;", "int a = 1, b = { 1 }, c[2] = { 1, 2 };",
    ];
    for source in sources {
        let _ = parse_module(source);
    }
}
