use spectra::module::{import_key, DepsError, Module, ModuleKey, Store};
use spectra::syntax::{Decl, ExternalDecl, Import, Qualifier, QualifierSpec};

fn import(path: &str) -> Import {
    Import { path: path.split('.').map(str::to_owned).collect(), symbols: Vec::new() }
}

/// A module that imports the given modules and declares `uniform <mark>;`.
fn module(imports: &[&str], mark: &str) -> Module {
    let qualifier = Qualifier { first: QualifierSpec::Uniform, rest: Vec::new() };
    Module {
        imports: imports.iter().map(|path| import(path)).collect(),
        glsl: vec![ExternalDecl::Declaration(Decl::Global(qualifier, vec![mark.to_owned()]))],
    }
}

fn store(modules: &[(&str, &[&str])]) -> Store {
    let mut store = Store::new();
    for (key, imports) in modules {
        assert!(store.insert(ModuleKey::new(key), module(imports, key)));
    }
    store
}

fn keys(names: &[&str]) -> Vec<ModuleKey> {
    names.iter().map(|name| ModuleKey::new(name)).collect()
}

fn marks(module: &Module) -> Vec<String> {
    module
        .glsl
        .iter()
        .map(|decl| match decl {
            ExternalDecl::Declaration(Decl::Global(_, names)) => names[0].clone(),
            other => panic!("unexpected declaration: {:?}", other),
        })
        .collect()
}

#[test]
fn import_names_a_dotted_key() {
    assert_eq!(import_key(&import("foo.bar.zoo")), ModuleKey::new("foo.bar.zoo"));
    assert_eq!(import_key(&import("solo")), ModuleKey::new("solo"));
    let none = Import { path: Vec::new(), symbols: Vec::new() };
    assert_eq!(import_key(&none), ModuleKey::new(""));
}

#[test]
fn symbols_of_an_import_have_no_effect() {
    let with = Import { path: vec!["a".to_owned()], symbols: vec!["x".to_owned()] };
    assert_eq!(import_key(&with), import_key(&import("a")));
}

#[test]
fn store_keeps_the_first_module_of_a_key() {
    let mut store = Store::new();
    assert!(!store.contains(&ModuleKey::new("a")));
    assert!(store.get(&ModuleKey::new("a")).is_none());
    assert!(store.insert(ModuleKey::new("a"), module(&[], "first")));
    assert!(!store.insert(ModuleKey::new("a"), module(&[], "second")));
    assert!(store.contains(&ModuleKey::new("a")));
    assert_eq!(store.get(&ModuleKey::new("a")), Some(&module(&[], "first")));
    assert!(store.get(&ModuleKey::new("b")).is_none());
}

#[test]
fn module_without_import_has_no_dependency() {
    let store = Store::new();
    let root = module(&[], "root");
    assert_eq!(root.deps(&store, &ModuleKey::new("root")), Ok(Vec::new()));
    let (fold, deps) = root.gather(&store, &ModuleKey::new("root")).expect("it resolves");
    assert_eq!(deps, Vec::new());
    assert_eq!(fold, module(&[], "root"));
}

#[test]
fn diamond_lists_the_shared_module_once() {
    let store = store(&[("b", &["d"]), ("c", &["d"]), ("d", &[])]);
    let root = module(&["b", "c"], "a");
    assert_eq!(root.deps(&store, &ModuleKey::new("a")), Ok(keys(&["d", "b", "c"])));
    let root = module(&["c", "b"], "a");
    assert_eq!(root.deps(&store, &ModuleKey::new("a")), Ok(keys(&["d", "c", "b"])));
}

#[test]
fn gather_folds_dependencies_before_the_root() {
    let store = store(&[("b", &["d"]), ("c", &["d"]), ("d", &[])]);
    let root = module(&["b", "c"], "a");
    let (fold, deps) = root.gather(&store, &ModuleKey::new("a")).expect("it resolves");
    assert_eq!(deps, keys(&["d", "b", "c"]));
    assert!(fold.imports.is_empty());
    assert_eq!(marks(&fold), ["d", "b", "c", "a"]);
}

#[test]
fn two_modules_that_import_each_other_are_a_cycle() {
    let store = store(&[("a", &["b"]), ("b", &["a"])]);
    let root = module(&["b"], "a");
    let cycle = DepsError::Cycle(ModuleKey::new("a"), ModuleKey::new("a"));
    assert_eq!(root.deps(&store, &ModuleKey::new("a")), Err(cycle.clone()));
    assert_eq!(root.gather(&store, &ModuleKey::new("a")), Err(cycle));
}

#[test]
fn module_that_imports_itself_is_a_cycle() {
    let store = Store::new();
    let root = module(&["a"], "a");
    assert_eq!(
        root.deps(&store, &ModuleKey::new("a")),
        Err(DepsError::Cycle(ModuleKey::new("a"), ModuleKey::new("a")))
    );
}

#[test]
fn cycle_below_the_root_is_found() {
    let store = store(&[("b", &["c"]), ("c", &["d"]), ("d", &["b"])]);
    let root = module(&["b"], "a");
    assert_eq!(
        root.deps(&store, &ModuleKey::new("a")),
        Err(DepsError::Cycle(ModuleKey::new("b"), ModuleKey::new("b")))
    );
}

#[test]
fn cycle_is_reported_where_only_a_module_out_of_reach_imports_a_missing_one() {
    let store = store(&[("b", &["c"]), ("c", &["b"]), ("far", &["missing"])]);
    let root = module(&["b"], "a");
    assert_eq!(
        root.gather(&store, &ModuleKey::new("a")),
        Err(DepsError::Cycle(ModuleKey::new("b"), ModuleKey::new("b")))
    );
}

#[test]
fn missing_module_is_a_load_error() {
    let store = store(&[("b", &["missing"])]);
    let root = module(&["b"], "a");
    assert_eq!(
        root.deps(&store, &ModuleKey::new("a")),
        Err(DepsError::LoadError(ModuleKey::new("missing")))
    );
    let root = module(&["gone", "b"], "a");
    assert_eq!(
        root.gather(&store, &ModuleKey::new("a")),
        Err(DepsError::LoadError(ModuleKey::new("gone")))
    );
}

#[test]
fn first_error_of_the_walk_is_returned() {
    let store = store(&[("b", &["a"])]);
    let root = module(&["missing", "b"], "a");
    assert_eq!(
        root.deps(&store, &ModuleKey::new("a")),
        Err(DepsError::LoadError(ModuleKey::new("missing")))
    );
    let root = module(&["b", "missing"], "a");
    assert_eq!(
        root.deps(&store, &ModuleKey::new("a")),
        Err(DepsError::Cycle(ModuleKey::new("a"), ModuleKey::new("a")))
    );
}

#[test]
fn repeated_import_is_listed_once() {
    let store = store(&[("b", &[]), ("c", &["b", "b"])]);
    let root = module(&["b", "c", "b", "c"], "a");
    assert_eq!(root.deps(&store, &ModuleKey::new("a")), Ok(keys(&["b", "c"])));
}

#[test]
fn root_is_resolved_from_its_own_imports() {
    let store = store(&[("a", &["x"]), ("b", &[])]);
    let root = module(&["b"], "a");
    assert_eq!(root.deps(&store, &ModuleKey::new("a")), Ok(keys(&["b"])));
}

#[test]
fn every_module_follows_the_modules_it_imports() {
    let graph: &[(&str, &[&str])] = &[
        ("b", &["e", "d"]),
        ("c", &["d", "f"]),
        ("d", &["g"]),
        ("e", &["g", "d"]),
        ("f", &[]),
        ("g", &[]),
    ];
    let store = store(graph);
    let root = module(&["b", "c", "g"], "a");
    let deps = root.deps(&store, &ModuleKey::new("a")).expect("it resolves");
    assert_eq!(deps, keys(&["g", "d", "e", "b", "f", "c"]));
    let mut order: Vec<&str> = deps.iter().map(|key| key.as_str()).collect();
    order.push("a");
    for (i, name) in order.iter().enumerate() {
        assert!(!order[..i].contains(name));
        let imports: &[&str] = if *name == "a" {
            &["b", "c", "g"]
        } else {
            graph.iter().find(|(key, _)| key == name).expect("the module is stored").1
        };
        for import in imports {
            assert!(order[..i].contains(import), "{} before {}", import, name);
        }
    }
}

#[test]
fn deep_chain_resolves_from_its_end() {
    let names: Vec<String> = (0..200).map(|i| format!("m{}", i)).collect();
    let mut store = Store::new();
    for i in 0..200 {
        let imports: Vec<&str> = if i + 1 < 200 { vec![&names[i + 1]] } else { Vec::new() };
        store.insert(ModuleKey::new(&names[i]), module(&imports, &names[i]));
    }
    let root = module(&["m0"], "root");
    let deps = root.deps(&store, &ModuleKey::new("root")).expect("it resolves");
    assert_eq!(deps.len(), 200);
    assert_eq!(deps[0], ModuleKey::new("m199"));
    assert_eq!(deps[199], ModuleKey::new("m0"));
}

#[test]
fn errors_copy_to_equal_errors() {
    let cycle = DepsError::Cycle(ModuleKey::new("a"), ModuleKey::new("a"));
    assert_eq!(cycle.clone(), cycle);
    let load = DepsError::LoadError(ModuleKey::new("b"));
    assert_eq!(load.clone(), load);
    assert_ne!(cycle, load);
}
