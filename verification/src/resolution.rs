//! What holds of every resolution of imports: the order of the list, the absence of repeats,
//! and the refusal of cycles.
use vstd::prelude::*;
use crate::module::{
    import_keys, lemma_push_contains, lemma_unvisited_decreases, lookup, resolve, unvisited,
    visit, DepsErrorView, ModuleView, StoreView,
};
use crate::view::Text;

verus! {

/// The keys that the module held under a key imports; none where the store holds no module
/// under the key.
pub open spec fn stored_imports(store: StoreView, key: Text) -> Seq<Text> {
    match lookup(store, key) {
        Some(module) => import_keys(module),
        None => Seq::empty(),
    }
}

/// The keys that a module imports, in a resolution that starts at the module `root` with the
/// key `root_key`: the imports of the root for its key, and for any other key those of the
/// module that the store holds.
pub open spec fn imports_of(store: StoreView, root: ModuleView, root_key: Text, key: Text) -> Seq<
    Text,
> {
    if key == root_key {
        import_keys(root)
    } else {
        stored_imports(store, key)
    }
}

/// Whether a list begins with another.
pub open spec fn begins_with(list: Seq<Text>, start: Seq<Text>) -> bool {
    start.len() <= list.len() && list.subrange(0, start.len() as int) == start
}

/// Whether every key of `keys` stands in `list`.
pub open spec fn all_in(keys: Seq<Text>, list: Seq<Text>) -> bool {
    forall|j: int| 0 <= j < keys.len() ==> list.contains(#[trigger] keys[j])
}

/// Whether the keys of a list from a position on are held by the store and are not among
/// `parents`.
pub open spec fn fresh_from(store: StoreView, parents: Seq<Text>, list: Seq<Text>, from: int) -> bool {
    forall|i: int|
        from <= i < list.len() ==> !parents.contains(#[trigger] list[i]) && lookup(
            store,
            list[i],
        ) is Some
}

/// Whether every import of the module at a position of a list stands before it in the list.
pub open spec fn imports_before(store: StoreView, list: Seq<Text>, i: int) -> bool {
    all_in(stored_imports(store, list[i]), list.subrange(0, i))
}

/// Whether `imports_before` holds at every position of a list from a position on.
pub open spec fn closed_from(store: StoreView, list: Seq<Text>, from: int) -> bool {
    forall|i: int| from <= i < list.len() ==> #[trigger] imports_before(store, list, i)
}

/// What a walk that succeeds has done to the list of the modules that are done.
pub open spec fn walked(
    store: StoreView,
    imports: Seq<Text>,
    parents: Seq<Text>,
    seen: Seq<Text>,
    done: Seq<Text>,
) -> bool {
    &&& begins_with(done, seen)
    &&& all_in(imports, done)
    &&& fresh_from(store, parents, done, seen.len() as int)
    &&& done.no_duplicates()
    &&& closed_from(store, done, seen.len() as int)
}

/// A key of the start of a list stands in the list.
proof fn lemma_begins_contains(list: Seq<Text>, start: Seq<Text>, key: Text)
    requires
        begins_with(list, start),
        start.contains(key),
    ensures
        list.contains(key),
{
    let i = choose|i: int| 0 <= i < start.len() && start[i] == key;
    assert(list.subrange(0, start.len() as int)[i] == key);
    assert(list[i] == key);
}

/// The start of the start of a list is a start of the list.
proof fn lemma_begins_transitive(list: Seq<Text>, middle: Seq<Text>, start: Seq<Text>)
    requires
        begins_with(list, middle),
        begins_with(middle, start),
    ensures
        begins_with(list, start),
{
    assert(list.subrange(0, start.len() as int) =~= middle.subrange(0, start.len() as int)) by {
        assert forall|i: int| 0 <= i < start.len() implies list[i] == middle[i] by {
            assert(list.subrange(0, middle.len() as int)[i] == middle[i]);
        }
    }
}

/// Every walk that succeeds keeps the modules that were done, in their order; has every
/// import done at its end; adds only modules that the store holds and that are not among the
/// parents; repeats no module; and adds a module only after all the modules it imports.
#[verifier::rlimit(50)]
pub proof fn lemma_visit(store: StoreView, imports: Seq<Text>, parents: Seq<Text>, seen: Seq<Text>)
    requires
        visit(store, imports, parents, seen) is Ok,
        seen.no_duplicates(),
    ensures
        walked(store, imports, parents, seen, visit(store, imports, parents, seen)->Ok_0),
    decreases unvisited(store, parents), imports.len(),
{
    if imports.len() == 0 {
        assert(seen.subrange(0, seen.len() as int) =~= seen);
    } else {
        let child = imports[0];
        let rest = imports.drop_first();
        if seen.contains(child) {
            lemma_visit(store, rest, parents, seen);
            let out = visit(store, rest, parents, seen)->Ok_0;
            assert(all_in(imports, out)) by {
                assert forall|j: int| 0 <= j < imports.len() implies out.contains(
                    #[trigger] imports[j],
                ) by {
                    if j == 0 {
                        lemma_begins_contains(out, seen, child);
                    } else {
                        assert(imports[j] == rest[j - 1]);
                    }
                }
            }
        } else {
            let module = lookup(store, child)->0;
            lemma_unvisited_decreases(store, parents, child);
            let inner_parents = parents.push(child);
            lemma_visit(store, import_keys(module), inner_parents, seen);
            let done = visit(store, import_keys(module), inner_parents, seen)->Ok_0;
            let after = done.push(child);
            assert(!done.contains(child)) by {
                if done.contains(child) {
                    let k = choose|k: int| 0 <= k < done.len() && done[k] == child;
                    if k < seen.len() {
                        assert(done.subrange(0, seen.len() as int)[k] == done[k]);
                        assert(seen[k] == child);
                    } else {
                        assert(inner_parents[parents.len() as int] == child);
                        assert(!inner_parents.contains(done[k]));
                    }
                }
            }
            assert(after.no_duplicates()) by {
                assert forall|a: int, b: int|
                    0 <= a < after.len() && 0 <= b < after.len() && a != b implies after[a]
                    != after[b] by {
                    if a < done.len() && b < done.len() {
                    } else if a < done.len() {
                        assert(done[a] != child);
                    } else {
                        assert(done[b] != child);
                    }
                }
            }
            lemma_visit(store, rest, parents, after);
            let out = visit(store, rest, parents, after)->Ok_0;
            assert(begins_with(after, done)) by {
                assert(after.subrange(0, done.len() as int) =~= done);
            }
            lemma_begins_transitive(after, done, seen);
            lemma_begins_transitive(out, after, seen);
            lemma_begins_transitive(out, after, done);
            assert forall|i: int| 0 <= i < after.len() implies out[i] == after[i] by {
                assert(out.subrange(0, after.len() as int)[i] == after[i]);
            }
            assert(all_in(imports, out)) by {
                assert forall|j: int| 0 <= j < imports.len() implies out.contains(
                    #[trigger] imports[j],
                ) by {
                    if j == 0 {
                        assert(out[done.len() as int] == child);
                    } else {
                        assert(imports[j] == rest[j - 1]);
                    }
                }
            }
            assert(fresh_from(store, parents, out, seen.len() as int)) by {
                assert forall|i: int| seen.len() <= i < out.len() implies !parents.contains(
                    #[trigger] out[i],
                ) && lookup(store, out[i]) is Some by {
                    if i < done.len() {
                        assert(out[i] == done[i]);
                        assert(!inner_parents.contains(done[i]));
                        lemma_push_contains(parents, child, done[i]);
                    } else if i == done.len() {
                        assert(out[i] == child);
                    }
                }
            }
            assert(closed_from(store, out, seen.len() as int)) by {
                assert forall|i: int| seen.len() <= i < out.len() implies #[trigger] imports_before(
                    store,
                    out,
                    i,
                ) by {
                    if i < done.len() {
                        assert(imports_before(store, done, i));
                        assert(out[i] == done[i]);
                        assert(out.subrange(0, i) =~= done.subrange(0, i)) by {
                            assert forall|k: int| 0 <= k < i implies out[k] == done[k] by {
                                assert(out[k] == after[k]);
                            }
                        }
                    } else if i == done.len() {
                        assert(out[i] == child);
                        assert(out.subrange(0, i) =~= done) by {
                            assert forall|k: int| 0 <= k < i implies out[k] == done[k] by {
                                assert(out[k] == after[k]);
                            }
                        }
                    }
                }
            }
        }
    }
}

/// Whether a list of dependencies is in topological order for a root: every module that a
/// module of `deps` followed by the root imports stands before it there.
pub open spec fn topological(
    store: StoreView,
    root: ModuleView,
    key: Text,
    deps: Seq<Text>,
) -> bool {
    forall|i: int|
        0 <= i <= deps.len() ==> all_in(
            imports_of(store, root, key, #[trigger] deps.push(key)[i]),
            deps.push(key).subrange(0, i),
        )
}

/// The list of a resolution that succeeds holds no module twice, and does not hold the root.
pub proof fn law_no_repeats(store: StoreView, root: ModuleView, key: Text)
    requires
        resolve(store, root, key) is Ok,
    ensures
        resolve(store, root, key)->Ok_0.no_duplicates(),
        !resolve(store, root, key)->Ok_0.contains(key),
        resolve(store, root, key)->Ok_0.push(key).no_duplicates(),
{
    let deps = resolve(store, root, key)->Ok_0;
    lemma_visit(store, import_keys(root), seq![key], Seq::empty());
    assert(!deps.contains(key)) by {
        if deps.contains(key) {
            let i = choose|i: int| 0 <= i < deps.len() && deps[i] == key;
            assert(seq![key][0] == key);
            assert(!seq![key].contains(deps[i]));
        }
    }
    let order = deps.push(key);
    assert forall|a: int, b: int|
        0 <= a < order.len() && 0 <= b < order.len() && a != b implies order[a] != order[b] by {
        if a < deps.len() && b < deps.len() {
        } else if a < deps.len() {
            assert(deps[a] != key);
        } else {
            assert(deps[b] != key);
        }
    }
}

/// The list of a resolution that succeeds is in topological order: for every module of the
/// list and for the root, every module it imports stands before it in the list followed by
/// the root.
pub proof fn law_topological(store: StoreView, root: ModuleView, key: Text)
    requires
        resolve(store, root, key) is Ok,
    ensures
        topological(store, root, key, resolve(store, root, key)->Ok_0),
{
    let deps = resolve(store, root, key)->Ok_0;
    let order = deps.push(key);
    lemma_visit(store, import_keys(root), seq![key], Seq::empty());
    law_no_repeats(store, root, key);
    assert forall|i: int| 0 <= i <= deps.len() implies all_in(
        imports_of(store, root, key, #[trigger] order[i]),
        order.subrange(0, i),
    ) by {
        if i == deps.len() {
            assert(order.subrange(0, i) =~= deps);
        } else {
            assert(order[i] == deps[i]);
            assert(deps[i] != key);
            assert(imports_before(store, deps, i));
            assert(order.subrange(0, i) =~= deps.subrange(0, i));
        }
    }
}

/// Whether every module of a walk imports the module that follows it.
pub open spec fn follows_imports(
    store: StoreView,
    root: ModuleView,
    key: Text,
    walk: Seq<Text>,
) -> bool {
    forall|n: int|
        0 <= n < walk.len() - 1 ==> imports_of(store, root, key, #[trigger] walk[n]).contains(
            walk[n + 1],
        )
}

/// The position of a key in a list that holds it.
pub open spec fn position(list: Seq<Text>, key: Text) -> int {
    choose|i: int| 0 <= i < list.len() && list[i] == key
}

/// Along a walk that follows imports from the root, every module stands in the list of a
/// resolution that succeeds, followed by the root, and before the module it follows.
proof fn lemma_walk_descends(
    store: StoreView,
    root: ModuleView,
    key: Text,
    walk: Seq<Text>,
    n: int,
)
    requires
        resolve(store, root, key) is Ok,
        walk.len() > 0,
        walk[0] == key,
        follows_imports(store, root, key, walk),
        0 <= n < walk.len(),
    ensures
        resolve(store, root, key)->Ok_0.push(key).contains(walk[n]),
        n > 0 ==> position(resolve(store, root, key)->Ok_0.push(key), walk[n]) < position(
            resolve(store, root, key)->Ok_0.push(key),
            walk[n - 1],
        ),
    decreases n,
{
    let deps = resolve(store, root, key)->Ok_0;
    let order = deps.push(key);
    law_no_repeats(store, root, key);
    law_topological(store, root, key);
    if n == 0 {
        assert(order[deps.len() as int] == key);
    } else {
        lemma_walk_descends(store, root, key, walk, n - 1);
        let p = position(order, walk[n - 1]);
        assert(order[p] == walk[n - 1]);
        let before = order.subrange(0, p);
        let imports = imports_of(store, root, key, order[p]);
        assert(imports.contains(walk[n]));
        let j = choose|j: int| 0 <= j < imports.len() && imports[j] == walk[n];
        assert(before.contains(imports[j]));
        let q = choose|q: int| 0 <= q < before.len() && before[q] == walk[n];
        assert(order[q] == walk[n]);
        let found = position(order, walk[n]);
        assert(order[found] == walk[n]);
        assert(found == q);
    }
}

/// The positions of the modules of a walk fall from one module to any later one.
proof fn lemma_walk_falls(
    store: StoreView,
    root: ModuleView,
    key: Text,
    walk: Seq<Text>,
    i: int,
    j: int,
)
    requires
        resolve(store, root, key) is Ok,
        walk.len() > 0,
        walk[0] == key,
        follows_imports(store, root, key, walk),
        0 <= i < j < walk.len(),
    ensures
        position(resolve(store, root, key)->Ok_0.push(key), walk[j]) < position(
            resolve(store, root, key)->Ok_0.push(key),
            walk[i],
        ),
    decreases j - i,
{
    lemma_walk_descends(store, root, key, walk, j);
    if i + 1 < j {
        lemma_walk_falls(store, root, key, walk, i, j - 1);
    }
}

/// Where the imports lead from the root to a module and from that module back to itself,
/// resolution fails: a walk that starts at the root, follows imports and meets a module
/// twice shows such a cycle.
pub proof fn law_cycle_fails(
    store: StoreView,
    root: ModuleView,
    key: Text,
    walk: Seq<Text>,
    i: int,
    j: int,
)
    requires
        walk.len() > 0,
        walk[0] == key,
        follows_imports(store, root, key, walk),
        0 <= i < j < walk.len(),
        walk[i] == walk[j],
    ensures
        resolve(store, root, key) is Err,
{
    if resolve(store, root, key) is Ok {
        lemma_walk_falls(store, root, key, walk, i, j);
    }
}

/// Every module of the list of a resolution that succeeds is held by the store.
pub proof fn law_dependencies_are_loaded(store: StoreView, root: ModuleView, key: Text)
    requires
        resolve(store, root, key) is Ok,
    ensures
        forall|i: int|
            0 <= i < resolve(store, root, key)->Ok_0.len() ==> lookup(
                store,
                #[trigger] resolve(store, root, key)->Ok_0[i],
            ) is Some,
{
    lemma_visit(store, import_keys(root), seq![key], Seq::empty());
}

/// What a walk that fails reports: a cycle is reported with the same key twice, and a load
/// error names a module that the store does not hold.
pub proof fn lemma_visit_error(
    store: StoreView,
    imports: Seq<Text>,
    parents: Seq<Text>,
    seen: Seq<Text>,
)
    requires
        visit(store, imports, parents, seen) is Err,
    ensures
        match visit(store, imports, parents, seen)->Err_0 {
            DepsErrorView::Cycle(a, b) => a == b,
            DepsErrorView::LoadError(k) => lookup(store, k) is None,
        },
    decreases unvisited(store, parents), imports.len(),
{
    let child = imports[0];
    let rest = imports.drop_first();
    if seen.contains(child) {
        lemma_visit_error(store, rest, parents, seen);
    } else if parents.contains(child) {
    } else {
        match lookup(store, child) {
            None => {},
            Some(module) => {
                lemma_unvisited_decreases(store, parents, child);
                match visit(store, import_keys(module), parents.push(child), seen) {
                    Err(_) => {
                        lemma_visit_error(store, import_keys(module), parents.push(child), seen);
                    },
                    Ok(done) => {
                        lemma_visit_error(store, rest, parents, done.push(child));
                    },
                }
            },
        }
    }
}

/// A load error of a resolution names a module that the store does not hold, and a cycle is
/// reported with the same key twice.
pub proof fn law_errors(store: StoreView, root: ModuleView, key: Text)
    requires
        resolve(store, root, key) is Err,
    ensures
        match resolve(store, root, key)->Err_0 {
            DepsErrorView::Cycle(a, b) => a == b,
            DepsErrorView::LoadError(k) => lookup(store, k) is None,
        },
{
    lemma_visit_error(store, import_keys(root), seq![key], Seq::empty());
}

/// Whether the store holds every module that the imports lead to from the root: every
/// module but the first of every walk that starts at the root and follows imports.
pub open spec fn holds_what_is_reached(store: StoreView, root: ModuleView, key: Text) -> bool {
    forall|walk: Seq<Text>, n: int|
        walk.len() > 0 && walk[0] == key && #[trigger] follows_imports(store, root, key, walk)
            && 0 < n < walk.len() ==> lookup(store, #[trigger] walk[n]) is Some
}

/// Where a walk over imports of the innermost parent reports a load error, and the parents
/// are a walk that starts at the root and follows imports, the imports lead from the root to
/// the module that the error names: the walk that is given back ends at it.
proof fn lemma_load_error_is_reached(
    store: StoreView,
    root: ModuleView,
    key: Text,
    imports: Seq<Text>,
    parents: Seq<Text>,
    seen: Seq<Text>,
) -> (walk: Seq<Text>)
    requires
        visit(store, imports, parents, seen) matches Err(DepsErrorView::LoadError(_)),
        parents.len() > 0,
        parents[0] == key,
        follows_imports(store, root, key, parents),
        forall|j: int|
            0 <= j < imports.len() ==> imports_of(store, root, key, parents.last()).contains(
                #[trigger] imports[j],
            ),
    ensures
        walk.len() > 1,
        walk[0] == key,
        follows_imports(store, root, key, walk),
        visit(store, imports, parents, seen) == Err::<Seq<Text>, DepsErrorView>(
            DepsErrorView::LoadError(walk.last()),
        ),
    decreases unvisited(store, parents), imports.len(),
{
    let child = imports[0];
    let rest = imports.drop_first();
    assert forall|j: int| 0 <= j < rest.len() implies imports_of(
        store,
        root,
        key,
        parents.last(),
    ).contains(#[trigger] rest[j]) by {
        assert(rest[j] == imports[j + 1]);
    }
    if seen.contains(child) {
        lemma_load_error_is_reached(store, root, key, rest, parents, seen)
    } else {
        let longer = parents.push(child);
        assert(follows_imports(store, root, key, longer)) by {
            assert forall|n: int| 0 <= n < longer.len() - 1 implies imports_of(
                store,
                root,
                key,
                #[trigger] longer[n],
            ).contains(longer[n + 1]) by {
                if n < parents.len() - 1 {
                    assert(longer[n] == parents[n]);
                    assert(longer[n + 1] == parents[n + 1]);
                } else {
                    assert(longer[n] == parents.last());
                    assert(longer[n + 1] == imports[0]);
                }
            }
        }
        match lookup(store, child) {
            None => longer,
            Some(module) => {
                lemma_unvisited_decreases(store, parents, child);
                assert(child != key);
                match visit(store, import_keys(module), longer, seen) {
                    Err(_) => {
                        assert forall|j: int| 0 <= j < import_keys(module).len() implies imports_of(
                            store,
                            root,
                            key,
                            longer.last(),
                        ).contains(#[trigger] import_keys(module)[j]) by {}
                        lemma_load_error_is_reached(
                            store,
                            root,
                            key,
                            import_keys(module),
                            longer,
                            seen,
                        )
                    },
                    Ok(done) => lemma_load_error_is_reached(
                        store,
                        root,
                        key,
                        rest,
                        parents,
                        done.push(child),
                    ),
                }
            },
        }
    }
}

/// Where the store holds every module that the imports lead to from the root, and the
/// imports lead from the root to a module and from that module back to itself, resolution
/// fails with a cycle.
pub proof fn law_cycle_is_reported(
    store: StoreView,
    root: ModuleView,
    key: Text,
    walk: Seq<Text>,
    i: int,
    j: int,
)
    requires
        holds_what_is_reached(store, root, key),
        walk.len() > 0,
        walk[0] == key,
        follows_imports(store, root, key, walk),
        0 <= i < j < walk.len(),
        walk[i] == walk[j],
    ensures
        resolve(store, root, key) matches Err(DepsErrorView::Cycle(a, b)) && a == b,
{
    law_cycle_fails(store, root, key, walk, i, j);
    law_errors(store, root, key);
    if resolve(store, root, key) matches Err(DepsErrorView::LoadError(_)) {
        let start = seq![key];
        assert(follows_imports(store, root, key, start));
        let reached = lemma_load_error_is_reached(
            store,
            root,
            key,
            import_keys(root),
            start,
            Seq::empty(),
        );
        assert(lookup(store, reached[reached.len() - 1]) is Some);
    }
}

} // verus!
