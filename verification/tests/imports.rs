use spectra::import::{parse_imports, read_import};
use spectra::module::{import_key, ModuleKey};
use spectra::syntax::Import;

fn chars(source: &str) -> Vec<char> {
    source.chars().collect()
}

fn import(path: &[&str], symbols: &[&str]) -> Import {
    Import {
        path: path.iter().map(|name| name.to_string()).collect(),
        symbols: symbols.iter().map(|name| name.to_string()).collect(),
    }
}

fn parsed(source: &str) -> (Vec<Import>, String) {
    let source = chars(source);
    let (imports, code) = parse_imports(&source);
    (imports, source[code..].iter().collect())
}

#[test]
fn import_names_a_module_and_its_symbols() {
    let (imports, code) = parsed("from foo.bar.zoo import (yyyy, zzzz)\nvoid f() { }\n");
    assert_eq!(imports, [import(&["foo", "bar", "zoo"], &["yyyy", "zzzz"])]);
    assert_eq!(code, "\nvoid f() { }\n");
    assert_eq!(import_key(&imports[0]), ModuleKey::new("foo.bar.zoo"));
}

#[test]
fn several_imports_come_in_order() {
    let (imports, code) = parsed(
        "\n  from a import (x)\n\tfrom b.c import ( y ,z )\r\nfrom d_1.E2 import()uniform float t;",
    );
    assert_eq!(
        imports,
        [
            import(&["a"], &["x"]),
            import(&["b", "c"], &["y", "z"]),
            import(&["d_1", "E2"], &[]),
        ]
    );
    assert_eq!(code, "uniform float t;");
}

#[test]
fn source_without_import_is_all_code() {
    for source in ["", "   ", "void f() { }", "fromage x;", "from", "  uniform float from;"] {
        let (imports, code) = parsed(source);
        assert_eq!(imports, Vec::new(), "{:?}", source);
        assert_eq!(code, source);
    }
}

#[test]
fn import_list_may_be_empty() {
    assert_eq!(parsed("from a.b import ()"), (vec![import(&["a", "b"], &[])], String::new()));
    assert_eq!(parsed("from a.b import (  )x"), (vec![import(&["a", "b"], &[])], "x".to_owned()));
}

#[test]
fn malformed_import_is_left_to_the_code() {
    let sources = [
        "from a.b import (x",
        "from a.b import x",
        "from a.b (x)",
        "from a.b import (x,)",
        "from a.b import (,x)",
        "from a.b import (x y)",
        "from a..b import (x)",
        "from a. import (x)",
        "from .a import (x)",
        "from a.bimport (x)",
        "from import (x)",
        "from a.b imported (x)",
        "froma.b import (x)",
        "from a-b import (x)",
        "from a.b import [x]",
    ];
    for source in sources {
        let (imports, code) = parsed(source);
        assert_eq!(imports, Vec::new(), "{:?}", source);
        assert_eq!(code, source);
    }
}

#[test]
fn reading_stops_at_the_first_malformed_import() {
    let (imports, code) = parsed("from a import (x) from b import (y from c import (z)");
    assert_eq!(imports, [import(&["a"], &["x"])]);
    assert_eq!(code, " from b import (y from c import (z)");
}

#[test]
fn one_import_is_read_at_a_position() {
    let source = chars("xx from a.b import (c, d) rest");
    assert_eq!(read_import(&source, 2), Some((import(&["a", "b"], &["c", "d"]), 25)));
    assert_eq!(read_import(&source, 0), None);
    assert_eq!(read_import(&source, 3), Some((import(&["a", "b"], &["c", "d"]), 25)));
    assert_eq!(read_import(&source, 4), None);
    assert_eq!(read_import(&source, source.len()), None);
}

#[test]
fn names_hold_letters_digits_and_underscores() {
    let (imports, _) = parsed("from _a1.B_2 import (c3_, _)");
    assert_eq!(imports, [import(&["_a1", "B_2"], &["c3_", "_"])]);
    let (imports, _) = parsed("from caf\u{e9} import (x)");
    assert_eq!(imports, Vec::new());
}
