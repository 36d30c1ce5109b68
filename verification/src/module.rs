//! Shader modules, the store that holds them by key, and the resolution of their imports.
//!
//! A module names the modules it imports. Resolution walks those imports depth first and
//! lists every module that the root depends on, each after the modules it imports itself.
use vstd::prelude::*;
use vstd::string::StringExecFns;
use crate::copy::clone_list;
use crate::resolution::{law_no_repeats, law_topological, topological};
use crate::syntax::{ExternalDecl, Import};
use crate::view::{views, ExternalDeclView, ImportView, Text};

verus! {

/// Key of a module: its dotted path, such as `foo.bar.zoo`.
#[derive(Debug, Eq, Hash, PartialEq)]
pub struct ModuleKey(String);

impl View for ModuleKey {
    type V = Text;

    closed spec fn view(&self) -> Text {
        self.0@
    }
}

impl Clone for ModuleKey {
    fn clone(&self) -> (res: Self)
        ensures
            res@ == self@,
    {
        ModuleKey(self.0.clone())
    }
}

/// The path of a dotted key: every dot becomes a slash.
pub open spec fn slashed(key: Text) -> Text {
    Seq::new(
        key.len(),
        |i: int|
            if key[i] == '.' {
                '/'
            } else {
                key[i]
            },
    )
}

/// Keys that hold no slash have different paths: a path with the key it comes from names
/// one module.
pub proof fn law_path_names_one_key(a: Text, b: Text)
    requires
        !a.contains('/'),
        !b.contains('/'),
        slashed(a) == slashed(b),
    ensures
        a == b,
{
    assert(a.len() == slashed(a).len());
    assert(b.len() == slashed(b).len());
    assert forall|i: int| 0 <= i < a.len() implies a[i] == b[i] by {
        assert(slashed(a)[i] == slashed(b)[i]);
        assert(a.contains(a[i]));
        assert(b.contains(b[i]));
        assert(a[i] != '/' && b[i] != '/');
        assert(slashed(a)[i] == if a[i] == '.' { '/' } else { a[i] });
        assert(slashed(b)[i] == if b[i] == '.' { '/' } else { b[i] });
    }
    assert(a =~= b);
}

/// Calls `str::replace`, which puts the second string wherever the first one stands: here a
/// slash for every dot.
#[verifier::external_body]
fn dots_to_slashes(key: &str) -> (path: String)
    ensures
        path@ == slashed(key@),
{
    key.replace(".", "/")
}

impl ModuleKey {
    /// Creates a module key from the dotted path of the module.
    pub fn new(key: &str) -> (res: Self)
        ensures
            res@ == key@,
    {
        ModuleKey(key.to_owned())
    }

    /// The dotted path.
    pub fn as_str(&self) -> (res: &str)
        ensures
            res@ == self@,
    {
        self.0.as_str()
    }

    /// Relative path of the file that holds the module: the dots of the key become slashes,
    /// and the extension `.chdr` follows.
    pub fn key_to_path(&self) -> (path: String)
        ensures
            path@ == slashed(self@) + ".chdr"@,
    {
        dots_to_slashes(self.0.as_str()).concat(".chdr")
    }
}

/// Errors that can happen in dependencies.
#[derive(Debug, PartialEq)]
pub enum DepsError {
    /// An import leads back to a module that is still being resolved. Both keys name that
    /// module.
    Cycle(ModuleKey, ModuleKey),
    /// A module is not in the store.
    LoadError(ModuleKey),
}

pub ghost enum DepsErrorView {
    Cycle(Text, Text),
    LoadError(Text),
}

impl View for DepsError {
    type V = DepsErrorView;

    open spec fn view(&self) -> DepsErrorView {
        match *self {
            DepsError::Cycle(a, b) => DepsErrorView::Cycle(a@, b@),
            DepsError::LoadError(k) => DepsErrorView::LoadError(k@),
        }
    }
}

impl Clone for DepsError {
    fn clone(&self) -> (res: Self)
        ensures
            res@ == self@,
    {
        match self {
            DepsError::Cycle(a, b) => DepsError::Cycle(a.clone(), b.clone()),
            DepsError::LoadError(k) => DepsError::LoadError(k.clone()),
        }
    }
}

/// Shader module: its imports and its declarations, both in source order.
#[derive(Debug, PartialEq)]
pub struct Module {
    pub imports: Vec<Import>,
    pub glsl: Vec<ExternalDecl>,
}

pub ghost struct ModuleView {
    pub imports: Seq<ImportView>,
    pub glsl: Seq<ExternalDeclView>,
}

impl View for Module {
    type V = ModuleView;

    open spec fn view(&self) -> ModuleView {
        ModuleView { imports: views(self.imports@), glsl: views(self.glsl@) }
    }
}

impl Clone for Module {
    fn clone(&self) -> (res: Self)
        ensures
            res@ == self@,
    {
        Module { imports: clone_list(&self.imports), glsl: clone_list(&self.glsl) }
    }
}

/// The modules that have been loaded, each under its key.
pub struct Store {
    entries: Vec<(ModuleKey, Module)>,
}

/// What a store holds: keys and modules, in the order they came.
pub type StoreView = Seq<(Text, ModuleView)>;

impl View for Store {
    type V = StoreView;

    closed spec fn view(&self) -> StoreView {
        Seq::new(self.entries@.len(), |i: int| (self.entries@[i].0@, self.entries@[i].1@))
    }
}

/// The module that a store holds under a key: the first one, if there are several.
pub open spec fn lookup(store: StoreView, key: Text) -> Option<ModuleView>
    decreases store.len(),
{
    if store.len() == 0 {
        None
    } else if store[0].0 == key {
        Some(store[0].1)
    } else {
        lookup(store.drop_first(), key)
    }
}

/// The names of a path joined by dots.
pub open spec fn dotted(path: Seq<Text>) -> Text
    decreases path.len(),
{
    if path.len() == 0 {
        Seq::empty()
    } else if path.len() == 1 {
        path[0]
    } else {
        dotted(path.drop_last()) + seq!['.'] + path.last()
    }
}

/// The keys of the modules that a module imports, in source order.
pub open spec fn import_keys(module: ModuleView) -> Seq<Text> {
    Seq::new(module.imports.len(), |i: int| dotted(module.imports[i].path))
}

/// How many entries of a store have a key that is not among `parents`.
pub open spec fn unvisited(store: StoreView, parents: Seq<Text>) -> nat
    decreases store.len(),
{
    if store.len() == 0 {
        0
    } else {
        unvisited(store.drop_last(), parents) + if parents.contains(store.last().0) {
            0nat
        } else {
            1nat
        }
    }
}

/// A key that the store holds and that is not yet among the parents counts as unvisited, so
/// adding it to the parents lowers the count.
pub proof fn lemma_unvisited_decreases(store: StoreView, parents: Seq<Text>, key: Text)
    requires
        lookup(store, key) is Some,
        !parents.contains(key),
    ensures
        unvisited(store, parents.push(key)) < unvisited(store, parents),
    decreases store.len(),
{
    lemma_unvisited_monotone(store, parents, key);
    lemma_lookup_index(store, key);
    let last = store.last();
    assert(parents.push(key).last() == key);
    if last.0 == key {
        assert(parents.push(key).contains(key));
        lemma_unvisited_monotone(store.drop_last(), parents, key);
    } else {
        lemma_lookup_drop_last(store, key);
        lemma_unvisited_decreases(store.drop_last(), parents, key);
        assert(parents.push(key).contains(last.0) == parents.contains(last.0)) by {
            lemma_push_contains(parents, key, last.0);
        }
    }
}

/// A longer list of parents leaves no more entries unvisited.
pub proof fn lemma_unvisited_monotone(store: StoreView, parents: Seq<Text>, key: Text)
    ensures
        unvisited(store, parents.push(key)) <= unvisited(store, parents),
    decreases store.len(),
{
    if store.len() > 0 {
        lemma_unvisited_monotone(store.drop_last(), parents, key);
        lemma_push_contains(parents, key, store.last().0);
    }
}

/// What a list contains after a push.
pub proof fn lemma_push_contains(s: Seq<Text>, pushed: Text, key: Text)
    ensures
        s.push(pushed).contains(key) == (s.contains(key) || pushed == key),
{
    let t = s.push(pushed);
    if s.contains(key) {
        let i = choose|i: int| 0 <= i < s.len() && s[i] == key;
        assert(t[i] == key);
    }
    if pushed == key {
        assert(t[s.len() as int] == key);
    }
    if t.contains(key) {
        let i = choose|i: int| 0 <= i < t.len() && t[i] == key;
        if i < s.len() {
            assert(s[i] == key);
        }
    }
}

/// A key that a store holds stands at one of its entries.
pub proof fn lemma_lookup_index(store: StoreView, key: Text)
    requires
        lookup(store, key) is Some,
    ensures
        store.len() > 0,
        exists|i: int| 0 <= i < store.len() && store[i].0 == key,
    decreases store.len(),
{
    if store[0].0 == key {
    } else {
        lemma_lookup_index(store.drop_first(), key);
        let i = choose|i: int|
            0 <= i < store.drop_first().len() && store.drop_first()[i].0 == key;
        assert(store[i + 1].0 == key);
    }
}

/// A key that a store holds, but not at its last entry, is held by the entries before it.
pub proof fn lemma_lookup_drop_last(store: StoreView, key: Text)
    requires
        lookup(store, key) is Some,
        store.len() > 0,
        store.last().0 != key,
    ensures
        lookup(store.drop_last(), key) is Some,
    decreases store.len(),
{
    if store[0].0 == key {
        assert(store.len() > 1);
        assert(store.drop_last()[0] == store[0]);
    } else {
        assert(store.len() > 1) by {
            if store.len() == 1 {
                assert(store.drop_first().len() == 0);
            }
        }
        lemma_lookup_drop_last(store.drop_first(), key);
        assert(store.drop_first().drop_last() =~= store.drop_last().drop_first());
        assert(store.drop_last()[0] == store[0]);
    }
}

/// The walk over the imports that are left of one module.
///
/// `parents` are the modules whose imports are being walked, the innermost last; `seen` are
/// the modules that are done. An import that is done is passed over. One that is among the
/// parents closes a cycle. Any other is looked up, its own imports are walked with it among
/// the parents, and it is done after them.
pub open spec fn visit(
    store: StoreView,
    imports: Seq<Text>,
    parents: Seq<Text>,
    seen: Seq<Text>,
) -> Result<Seq<Text>, DepsErrorView>
    decreases unvisited(store, parents), imports.len(),
{
    if imports.len() == 0 {
        Ok(seen)
    } else {
        let child = imports[0];
        let rest = imports.drop_first();
        if seen.contains(child) {
            visit(store, rest, parents, seen)
        } else if parents.contains(child) {
            Err(DepsErrorView::Cycle(child, child))
        } else {
            match lookup(store, child) {
                None => Err(DepsErrorView::LoadError(child)),
                Some(module) => {
                    proof {
                        lemma_unvisited_decreases(store, parents, child);
                    }
                    match visit(store, import_keys(module), parents.push(child), seen) {
                        Err(e) => Err(e),
                        Ok(done) => visit(store, rest, parents, done.push(child)),
                    }
                },
            }
        }
    }
}

/// The modules that a root module depends on, each after the modules it imports; or the
/// first error that the walk meets.
pub open spec fn resolve(store: StoreView, root: ModuleView, key: Text) -> Result<
    Seq<Text>,
    DepsErrorView,
> {
    visit(store, import_keys(root), seq![key], Seq::empty())
}

/// The declarations of the listed modules, one module after the other. A key that the store
/// does not hold adds nothing.
pub open spec fn gathered(store: StoreView, deps: Seq<Text>) -> Seq<ExternalDeclView>
    decreases deps.len(),
{
    if deps.len() == 0 {
        Seq::empty()
    } else {
        gathered(store, deps.drop_last()) + match lookup(store, deps.last()) {
            Some(module) => module.glsl,
            None => Seq::empty(),
        }
    }
}

/// The module that a root folds into: no import, and the declarations of its dependencies
/// before its own.
pub open spec fn folded(store: StoreView, root: ModuleView, deps: Seq<Text>) -> ModuleView {
    ModuleView { imports: Seq::empty(), glsl: gathered(store, deps) + root.glsl }
}

impl Store {
    /// A store that holds no module.
    pub fn new() -> (res: Self)
        ensures
            res@ == Seq::<(Text, ModuleView)>::empty(),
    {
        let res = Store { entries: Vec::new() };
        assert(res@ =~= Seq::<(Text, ModuleView)>::empty());
        res
    }

    /// The module held under a key.
    pub fn get(&self, key: &ModuleKey) -> (res: Option<&Module>)
        ensures
            match lookup(self@, key@) {
                Some(module) => res matches Some(found) && found@ == module,
                None => res is None,
            },
    {
        let mut i: usize = 0;
        assert(self@.subrange(0, self@.len() as int) =~= self@);
        while i < self.entries.len()
            invariant
                i <= self.entries.len(),
                self@.len() == self.entries.len(),
                lookup(self@, key@) == lookup(self@.subrange(i as int, self@.len() as int), key@),
            decreases self.entries.len() - i,
        {
            let ghost rest = self@.subrange(i as int, self@.len() as int);
            assert(rest[0] == self@[i as int]);
            assert(rest.drop_first() =~= self@.subrange(i + 1, self@.len() as int));
            if self.entries[i].0.0 == key.0 {
                return Some(&self.entries[i].1);
            }
            i = i + 1;
        }
        assert(self@.subrange(i as int, self@.len() as int).len() == 0);
        None
    }

    /// Whether a module is held under a key.
    pub fn contains(&self, key: &ModuleKey) -> (res: bool)
        ensures
            res == lookup(self@, key@) is Some,
    {
        self.get(key).is_some()
    }

    /// Puts a module in the store, unless the store holds one under that key already. Tells
    /// whether the module was put in.
    pub fn insert(&mut self, key: ModuleKey, module: Module) -> (res: bool)
        ensures
            res == lookup(old(self)@, key@) is None,
            final(self)@ == if res {
                old(self)@.push((key@, module@))
            } else {
                old(self)@
            },
    {
        if self.contains(&key) {
            false
        } else {
            self.entries.push((key, module));
            assert(self@ =~= old(self)@.push((key@, module@)));
            true
        }
    }
}

/// The key that an import names.
pub fn import_key(import: &Import) -> (key: ModuleKey)
    ensures
        key@ == dotted(import@.path),
{
    let mut name = String::new();
    let mut i: usize = 0;
    while i < import.path.len()
        invariant
            i <= import.path.len(),
            name@ == dotted(import@.path.subrange(0, i as int)),
        decreases import.path.len() - i,
    {
        let ghost before = import@.path.subrange(0, i as int);
        let ghost after = import@.path.subrange(0, i + 1);
        assert(after.drop_last() =~= before);
        assert(after.last() == import.path@[i as int]@);
        if i > 0 {
            proof {
                reveal_strlit(".");
            }
            name.append(".");
            assert("."@ =~= seq!['.']);
        }
        name.append(import.path[i].as_str());
        assert(name@ =~= dotted(after));
        i = i + 1;
    }
    assert(import@.path.subrange(0, i as int) =~= import@.path);
    ModuleKey(name)
}

/// Whether a key stands in a list of keys.
pub fn contains_key(keys: &Vec<ModuleKey>, key: &ModuleKey) -> (res: bool)
    ensures
        res == views(keys@).contains(key@),
{
    let mut i: usize = 0;
    while i < keys.len()
        invariant
            i <= keys.len(),
            forall|j: int| 0 <= j < i ==> views(keys@)[j] != key@,
        decreases keys.len() - i,
    {
        if keys[i].0 == key.0 {
            assert(views(keys@)[i as int] == key@);
            return true;
        }
        i = i + 1;
    }
    false
}

impl Module {
    /// Retrieves all the modules this module depends on, without duplicates, each after the
    /// modules it imports itself.
    ///
    /// Fails with `Cycle` where an import leads back to a module whose imports are being
    /// walked, and with `LoadError` where the store does not hold an imported module.
    pub fn deps(&self, store: &Store, key: &ModuleKey) -> (res: Result<Vec<ModuleKey>, DepsError>)
        ensures
            match resolve(store@, self@, key@) {
                Ok(deps) => res matches Ok(found) && views(found@) == deps,
                Err(e) => res matches Err(found) && found@ == e,
            },
            res matches Ok(found) ==> views(found@).no_duplicates() && topological(
                store@,
                self@,
                key@,
                views(found@),
            ),
    {
        proof {
            if resolve(store@, self@, key@) is Ok {
                law_no_repeats(store@, self@, key@);
                law_topological(store@, self@, key@);
            }
        }
        let mut parents: Vec<ModuleKey> = Vec::new();
        let mut deps: Vec<ModuleKey> = Vec::new();
        assert(views(parents@).push(key@) =~= seq![key@]);
        assert(views(deps@) =~= Seq::<Text>::empty());
        match self.deps_no_cycle(store, key, &mut parents, &mut deps) {
            Ok(()) => Ok(deps),
            Err(e) => Err(e),
        }
    }

    /// Walks the imports of this module, which has the key `key` and whose parents are
    /// `parents`, and adds to `deps` the modules that are done.
    #[verifier::rlimit(50)]
    fn deps_no_cycle(
        &self,
        store: &Store,
        key: &ModuleKey,
        parents: &mut Vec<ModuleKey>,
        deps: &mut Vec<ModuleKey>,
    ) -> (res: Result<(), DepsError>)
        ensures
            match visit(
                store@,
                import_keys(self@),
                views(old(parents)@).push(key@),
                views(old(deps)@),
            ) {
                Ok(done) => res is Ok && views(final(deps)@) == done && views(final(parents)@)
                    == views(old(parents)@),
                Err(e) => res matches Err(found) && found@ == e,
            },
        decreases unvisited(store@, views(old(parents)@).push(key@)),
    {
        let ghost above = views(parents@);
        let ghost seen = views(deps@);
        let ghost all = import_keys(self@);
        parents.push(key.clone());
        let ghost path = above.push(key@);
        assert(views(parents@) =~= path);
        let mut i: usize = 0;
        assert(all.subrange(0, all.len() as int) =~= all);
        while i < self.imports.len()
            invariant
                i <= self.imports.len(),
                all == import_keys(self@),
                all.len() == self.imports.len(),
                views(parents@) == path,
                path == above.push(key@),
                above == views(old(parents)@),
                seen == views(old(deps)@),
                visit(store@, all, path, seen) == visit(
                    store@,
                    all.subrange(i as int, all.len() as int),
                    path,
                    views(deps@),
                ),
            decreases self.imports.len() - i,
        {
            let ghost rest = all.subrange(i as int, all.len() as int);
            let child = import_key(&self.imports[i]);
            assert(rest[0] == child@);
            assert(rest.drop_first() =~= all.subrange(i + 1, all.len() as int));
            if contains_key(deps, &child) {
            } else if contains_key(parents, &child) {
                let again = child.clone();
                assert(visit(store@, rest, path, views(deps@)) == Err::<Seq<Text>, DepsErrorView>(
                    DepsErrorView::Cycle(child@, child@),
                ));
                return Err(DepsError::Cycle(again, child));
            } else {
                match store.get(&child) {
                    None => {
                        assert(visit(store@, rest, path, views(deps@)) == Err::<
                            Seq<Text>,
                            DepsErrorView,
                        >(DepsErrorView::LoadError(child@)));
                        return Err(DepsError::LoadError(child));
                    },
                    Some(module) => {
                        proof {
                            lemma_unvisited_decreases(store@, path, child@);
                        }
                        match module.deps_no_cycle(store, &child, parents, deps) {
                            Err(e) => {
                                return Err(e);
                            },
                            Ok(()) => {},
                        }
                        let ghost done = views(deps@);
                        deps.push(child);
                        assert(views(deps@) =~= done.push(child@));
                    },
                }
            }
            i = i + 1;
        }
        assert(all.subrange(i as int, all.len() as int).len() == 0);
        let ghost full = parents@;
        parents.pop();
        assert(parents@ =~= full.drop_last());
        assert(views(parents@) =~= views(full).drop_last());
        assert(views(parents@) =~= above);
        Ok(())
    }

    /// Folds a module and its dependencies into a single module: the declarations of the
    /// dependencies, in the order of the list, then those of the module itself, and no
    /// import. The list of dependencies is also returned.
    #[verifier::rlimit(50)]
    pub fn gather(&self, store: &Store, key: &ModuleKey) -> (res: Result<
        (Module, Vec<ModuleKey>),
        DepsError,
    >)
        ensures
            match resolve(store@, self@, key@) {
                Ok(deps) => res matches Ok(found) && views(found.1@) == deps && found.0@ == folded(
                    store@,
                    self@,
                    deps,
                ),
                Err(e) => res matches Err(found) && found@ == e,
            },
            res matches Ok(found) ==> views(found.1@).no_duplicates() && topological(
                store@,
                self@,
                key@,
                views(found.1@),
            ),
    {
        let deps = match self.deps(store, key) {
            Ok(deps) => deps,
            Err(e) => {
                return Err(e);
            },
        };
        let mut glsl: Vec<ExternalDecl> = Vec::new();
        let mut i: usize = 0;
        assert(views(deps@).subrange(0, 0) =~= Seq::<Text>::empty());
        assert(views(glsl@) =~= Seq::<ExternalDeclView>::empty());
        while i < deps.len()
            invariant
                i <= deps.len(),
                views(glsl@) == gathered(store@, views(deps@).subrange(0, i as int)),
            decreases deps.len() - i,
        {
            let ghost before = views(deps@).subrange(0, i as int);
            let ghost after = views(deps@).subrange(0, i + 1);
            assert(after.drop_last() =~= before);
            assert(after.last() == deps@[i as int]@);
            match store.get(&deps[i]) {
                Some(module) => {
                    append_decls(&mut glsl, &module.glsl);
                },
                None => {
                    assert(views(glsl@) =~= views(glsl@) + Seq::<ExternalDeclView>::empty());
                },
            }
            i = i + 1;
        }
        assert(views(deps@).subrange(0, i as int) =~= views(deps@));
        append_decls(&mut glsl, &self.glsl);
        let module = Module { imports: Vec::new(), glsl };
        assert(module@.imports =~= Seq::<ImportView>::empty());
        Ok((module, deps))
    }
}

/// Adds copies of declarations at the end of a list.
pub fn append_decls(list: &mut Vec<ExternalDecl>, more: &Vec<ExternalDecl>)
    ensures
        views(final(list)@) == views(old(list)@) + views(more@),
{
    let ghost start = views(list@);
    let mut i: usize = 0;
    assert(views(more@).subrange(0, 0) =~= Seq::<ExternalDeclView>::empty());
    assert(start + Seq::<ExternalDeclView>::empty() =~= start);
    while i < more.len()
        invariant
            i <= more.len(),
            views(list@) == start + views(more@).subrange(0, i as int),
        decreases more.len() - i,
    {
        let ghost before = views(list@);
        list.push(more[i].clone());
        assert(views(list@) =~= before.push(more@[i as int]@));
        assert(views(list@) =~= start + views(more@).subrange(0, i + 1));
        i = i + 1;
    }
    assert(views(more@).subrange(0, i as int) =~= views(more@));
}

} // verus!
