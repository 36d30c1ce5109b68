//! The lowering of a pipeline module to the sources of its stages.
//!
//! A pipeline module defines `map_vertex` and `map_frag_data`, and may define
//! `concat_map_prim`. Each of them gives one stage. What the module declares beside them is
//! the common part, which stands before the source of the vertex stage and before that of the
//! fragment stage.
use vstd::prelude::*;
use crate::classify::{all_blocks, all_functions, all_structs, all_uniforms};
use crate::copy::clone_opt;
use crate::error::{GLSLConversionError, GLSLConversionErrorView};
use crate::fragment::{
    all_named, fragment_stage, lemma_fields_outputs_named, sink_fragment_shader,
};
use crate::geometry::{geometry_stage, sink_geometry_shader};
use crate::interface::{
    drop_first_field, struct_of_type, without_first_field, StageView,
};
use crate::module::{Module, ModuleView};
use crate::printer::{
    block_text, function_definition_text, show_block, show_function_definition,
    show_single_declaration, show_struct, single_declaration_text, struct_text,
};
use crate::syntax::{FunctionDef, StructDef};
use crate::text::{push_text, same_text};
use crate::vertex::{sink_vertex_shader, vertex_stage};
use crate::view::{
    view_opt, views, FunctionDefView, InterfaceBlockView, SingleDeclView, StructDefView, Text,
};

verus! {

/// Module fold (pipeline): the sources of the stages of a pipeline module.
#[derive(Debug, PartialEq)]
pub struct ModuleFold {
    /// The source of the vertex stage.
    pub vs: String,
    /// The source of the geometry stage, if the module has one.
    pub gs: Option<String>,
    /// The source of the fragment stage.
    pub fs: String,
}

pub ghost struct ModuleFoldView {
    pub vs: Text,
    pub gs: Option<Text>,
    pub fs: Text,
}

impl View for ModuleFold {
    type V = ModuleFoldView;

    open spec fn view(&self) -> ModuleFoldView {
        ModuleFoldView { vs: self.vs@, gs: view_opt(self.gs), fs: self.fs@ }
    }
}

impl Clone for ModuleFold {
    fn clone(&self) -> (res: Self)
        ensures
            res@ == self@,
    {
        ModuleFold { vs: self.vs.clone(), gs: clone_opt(&self.gs), fs: self.fs.clone() }
    }
}

/// Whether a name is that of one of the three functions that give the stages.
pub open spec fn is_special(name: Text) -> bool {
    name == "map_vertex"@ || name == "concat_map_prim"@ || name == "map_frag_data"@
}

/// The functions that give no stage, in order.
pub open spec fn plain_functions(functions: Seq<FunctionDefView>) -> Seq<FunctionDefView>
    decreases functions.len(),
{
    if functions.len() == 0 {
        Seq::empty()
    } else if is_special(functions.last().name) {
        plain_functions(functions.drop_last())
    } else {
        plain_functions(functions.drop_last()).push(functions.last())
    }
}

/// Filters out the three functions that give the stages.
pub fn filter_out_special_functions(functions: &Vec<FunctionDef>) -> (res: Vec<FunctionDef>)
    ensures
        views(res@) == plain_functions(views(functions@)),
{
    let mut kept: Vec<FunctionDef> = Vec::new();
    let ghost all = views(functions@);
    let mut i: usize = 0;
    assert(all.subrange(0, 0) =~= Seq::<FunctionDefView>::empty());
    assert(views(kept@) =~= Seq::<FunctionDefView>::empty());
    while i < functions.len()
        invariant
            i <= functions.len(),
            all == views(functions@),
            views(kept@) == plain_functions(all.subrange(0, i as int)),
        decreases functions.len() - i,
    {
        let ghost after = all.subrange(0, i + 1);
        assert(after.drop_last() =~= all.subrange(0, i as int));
        assert(after.last() == functions@[i as int]@);
        let n = functions[i].name.as_str();
        if !(same_text(n, "map_vertex") || same_text(n, "concat_map_prim") || same_text(
            n,
            "map_frag_data",
        )) {
            let ghost before = views(kept@);
            kept.push(functions[i].clone());
            assert(views(kept@) =~= before.push(functions@[i as int]@));
        }
        i = i + 1;
    }
    assert(all.subrange(0, i as int) =~= all);
    kept
}

/// The first function of a list that has a given name.
pub open spec fn find_function(functions: Seq<FunctionDefView>, name: Text) -> Option<
    FunctionDefView,
>
    decreases functions.len(),
{
    if functions.len() == 0 {
        None
    } else if functions[0].name == name {
        Some(functions[0])
    } else {
        find_function(functions.drop_first(), name)
    }
}

/// Finds the first function of a list that has a given name.
pub fn find_function_named<'a>(functions: &'a Vec<FunctionDef>, name: &str) -> (res: Option<
    &'a FunctionDef,
>)
    ensures
        match find_function(views(functions@), name@) {
            Some(f) => res matches Some(found) && found@ == f,
            None => res is None,
        },
{
    let ghost all = views(functions@);
    let mut i: usize = 0;
    assert(all.subrange(0, all.len() as int) =~= all);
    while i < functions.len()
        invariant
            i <= functions.len(),
            all == views(functions@),
            find_function(all, name@) == find_function(
                all.subrange(i as int, all.len() as int),
                name@,
            ),
        decreases functions.len() - i,
    {
        let ghost rest = all.subrange(i as int, all.len() as int);
        assert(rest[0] == functions@[i as int]@);
        assert(rest.drop_first() =~= all.subrange(i + 1, all.len() as int));
        if same_text(functions[i].name.as_str(), name) {
            return Some(&functions[i]);
        }
        i = i + 1;
    }
    assert(all.subrange(i as int, all.len() as int).len() == 0);
    None
}

/// The text of uniforms, each ended by a semicolon and a line end.
pub open spec fn uniforms_text(uniforms: Seq<SingleDeclView>) -> Text
    decreases uniforms.len(),
{
    if uniforms.len() == 0 {
        Seq::empty()
    } else {
        uniforms_text(uniforms.drop_last()) + single_declaration_text(uniforms.last()) + ";\n"@
    }
}

/// The text of interface blocks.
pub open spec fn blocks_text(blocks: Seq<InterfaceBlockView>) -> Text
    decreases blocks.len(),
{
    if blocks.len() == 0 {
        Seq::empty()
    } else {
        blocks_text(blocks.drop_last()) + block_text(blocks.last())
    }
}

/// The text of function definitions.
pub open spec fn functions_text(functions: Seq<FunctionDefView>) -> Text
    decreases functions.len(),
{
    if functions.len() == 0 {
        Seq::empty()
    } else {
        functions_text(functions.drop_last()) + function_definition_text(functions.last())
    }
}

/// The structs whose name is not among the names that belong to the stages, in order.
pub open spec fn shared_structs(structs: Seq<StructDefView>, local: Seq<Option<Text>>) -> Seq<
    StructDefView,
>
    decreases structs.len(),
{
    if structs.len() == 0 {
        Seq::empty()
    } else if local.contains(structs.last().name) {
        shared_structs(structs.drop_last(), local)
    } else {
        shared_structs(structs.drop_last(), local).push(structs.last())
    }
}

/// The text of struct definitions.
pub open spec fn structs_text(structs: Seq<StructDefView>) -> Text
    decreases structs.len(),
{
    if structs.len() == 0 {
        Seq::empty()
    } else {
        structs_text(structs.drop_last()) + struct_text(structs.last())
    }
}

/// The text of the structs whose name is not among the names that belong to the stages.
pub open spec fn shared_structs_text(structs: Seq<StructDefView>, local: Seq<Option<Text>>) -> Text {
    structs_text(shared_structs(structs, local))
}

/// The structs that stand in the part shared by the stages are the structs of the module
/// whose name belongs to no stage: none of them has the name of the struct that the vertex
/// stage hands on, of the struct that the geometry stage emits or of the struct that the
/// fragment stage returns, and every other struct of the module is among them.
pub proof fn law_shared_structs(structs: Seq<StructDefView>, local: Seq<Option<Text>>)
    ensures
        forall|i: int|
            0 <= i < shared_structs(structs, local).len() ==> !local.contains(
                (#[trigger] shared_structs(structs, local)[i]).name,
            ) && structs.contains(shared_structs(structs, local)[i]),
        forall|i: int|
            0 <= i < structs.len() && !local.contains((#[trigger] structs[i]).name)
                ==> shared_structs(structs, local).contains(structs[i]),
    decreases structs.len(),
{
    if structs.len() > 0 {
        let front = structs.drop_last();
        let last = structs.last();
        law_shared_structs(front, local);
        let shared = shared_structs(structs, local);
        let before = shared_structs(front, local);
        assert forall|i: int| 0 <= i < shared.len() implies !local.contains(
            (#[trigger] shared[i]).name,
        ) && structs.contains(shared[i]) by {
            if i < before.len() {
                assert(shared[i] == before[i]);
                let k = choose|k: int| 0 <= k < front.len() && front[k] == before[i];
                assert(structs[k] == before[i]);
            } else {
                assert(shared[i] == last);
                assert(structs[structs.len() - 1] == last);
            }
        }
        assert forall|i: int|
            0 <= i < structs.len() && !local.contains((#[trigger] structs[i]).name)
            implies shared.contains(structs[i]) by {
            if i < front.len() {
                assert(front[i] == structs[i]);
                let k = choose|k: int| 0 <= k < before.len() && before[k] == front[i];
                assert(shared[k] == structs[i]);
            } else {
                assert(shared[shared.len() - 1] == structs[i]);
            }
        }
    }
}

/// What a module declares for all its stages: its uniforms, its interface blocks, and its
/// functions that give no stage.
pub open spec fn common_text(module: ModuleView) -> Text {
    uniforms_text(all_uniforms(module.glsl)) + blocks_text(all_blocks(module.glsl))
        + functions_text(plain_functions(all_functions(module.glsl)))
}

/// The geometry stage of a module, if it has a `concat_map_prim` function.
pub open spec fn geometry_part(
    concat_map_prim: Option<FunctionDefView>,
    structs: Seq<StructDefView>,
    prev_ret: StructDefView,
    prev_outputs: Seq<SingleDeclView>,
) -> Result<Option<StageView>, GLSLConversionErrorView> {
    match concat_map_prim {
        None => Ok(None),
        Some(f) => match geometry_stage(f, structs, prev_ret, prev_outputs) {
            Err(e) => Err(e),
            Ok(stage) => Ok(Some(stage)),
        },
    }
}

/// The names of the structs that belong to the stages: what the vertex stage hands on, what
/// the geometry stage emits, and what the fragment stage returns.
pub open spec fn stage_struct_names(
    handed: StructDefView,
    geometry: Option<StageView>,
    fragment: StageView,
) -> Seq<Option<Text>> {
    seq![handed.name] + match geometry {
        Some(g) => seq![g.ret.name],
        None => Seq::empty(),
    } + seq![fragment.ret.name]
}

/// The sources of the stages, put together from the stages and the module.
pub open spec fn assembled(
    module: ModuleView,
    vertex: StageView,
    geometry: Option<StageView>,
    fragment: StageView,
) -> Result<ModuleFoldView, GLSLConversionErrorView> {
    let local = stage_struct_names(without_first_field(vertex.ret), geometry, fragment);
    let common = shared_structs_text(all_structs(module.glsl), local) + common_text(module);
    if vertex.text.len() == 0 {
        Err(GLSLConversionErrorView::NoVertexShader)
    } else if fragment.text.len() == 0 {
        Err(GLSLConversionErrorView::NoFragmentShader)
    } else {
        Ok(
            ModuleFoldView {
                vs: common + vertex.text,
                gs: match geometry {
                    Some(g) => if g.text.len() == 0 {
                        None
                    } else {
                        Some(g.text)
                    },
                    None => None,
                },
                fs: common + fragment.text,
            },
        )
    }
}

/// The sources of the stages of a pipeline module, or the first error of its lowering.
///
/// The vertex stage comes from `map_vertex`. The struct it returns is handed on without its
/// first field, to the geometry stage where the module has a `concat_map_prim` function, and
/// else to the fragment stage, which takes what the stage before it hands on. The structs
/// that belong to no stage, then the common part, stand before the source of the vertex
/// stage and before that of the fragment stage. The source of the geometry stage stands
/// alone.
pub open spec fn setup(module: ModuleView) -> Result<ModuleFoldView, GLSLConversionErrorView> {
    let structs = all_structs(module.glsl);
    let functions = all_functions(module.glsl);
    match find_function(functions, "map_vertex"@) {
        None => Err(GLSLConversionErrorView::NoVertexShader),
        Some(map_vertex) => match find_function(functions, "map_frag_data"@) {
            None => Err(GLSLConversionErrorView::NoFragmentShader),
            Some(map_frag_data) => match vertex_stage(map_vertex, structs) {
                Err(e) => Err(e),
                Ok(vertex) => {
                    let handed = without_first_field(vertex.ret);
                    match geometry_part(
                        find_function(functions, "concat_map_prim"@),
                        structs,
                        handed,
                        vertex.outputs,
                    ) {
                        Err(e) => Err(e),
                        Ok(geometry) => {
                            let prev = match geometry {
                                Some(g) => (g.ret, g.outputs),
                                None => (handed, vertex.outputs),
                            };
                            match fragment_stage(map_frag_data, structs, prev.0, prev.1) {
                                Err(e) => Err(e),
                                Ok(fragment) => assembled(module, vertex, geometry, fragment),
                            }
                        },
                    }
                },
            },
        },
    }
}

/// The source of a stage is never empty: it ends with its main function. So the lowering of
/// a module that defines `map_vertex` and `map_frag_data` fails only where a stage fails.
pub proof fn law_stage_sources_hold_text(
    module: ModuleView,
    vertex: StageView,
    geometry: Option<StageView>,
    fragment: StageView,
)
    requires
        vertex.text.len() >= 3,
        fragment.text.len() >= 3,
        geometry matches Some(g) ==> g.text.len() >= 3,
    ensures
        assembled(module, vertex, geometry, fragment) is Ok,
        assembled(module, vertex, geometry, fragment)->Ok_0.gs is Some <==> geometry is Some,
{
}

/// The source of the vertex stage ends with the end of its main function.
pub proof fn law_vertex_source_holds_text(f: FunctionDefView, structs: Seq<StructDefView>)
    requires
        vertex_stage(f, structs) is Ok,
    ensures
        vertex_stage(f, structs)->Ok_0.text.len() >= 3,
{
    reveal_strlit("}\n\n");
}

/// The source of the geometry stage ends with the end of its main function.
pub proof fn law_geometry_source_holds_text(
    f: FunctionDefView,
    structs: Seq<StructDefView>,
    prev_ret: StructDefView,
    prev_outputs: Seq<SingleDeclView>,
)
    requires
        geometry_stage(f, structs, prev_ret, prev_outputs) is Ok,
    ensures
        geometry_stage(f, structs, prev_ret, prev_outputs)->Ok_0.text.len() >= 3,
{
    reveal_strlit("}\n\n");
}

/// The source of the fragment stage ends with the end of its main function.
pub proof fn law_fragment_source_holds_text(
    f: FunctionDefView,
    structs: Seq<StructDefView>,
    prev_ret: StructDefView,
    prev_outputs: Seq<SingleDeclView>,
)
    requires
        fragment_stage(f, structs, prev_ret, prev_outputs) is Ok,
    ensures
        fragment_stage(f, structs, prev_ret, prev_outputs)->Ok_0.text.len() >= 3,
{
    reveal_strlit("}\n\n");
}

/// The outputs of the vertex stage have names.
pub proof fn lemma_vertex_outputs_named(f: FunctionDefView, structs: Seq<StructDefView>)
    requires
        vertex_stage(f, structs) is Ok,
    ensures
        all_named(vertex_stage(f, structs)->Ok_0.outputs),
{
    let s = struct_of_type(f.ty.ty, structs)->Ok_0;
    lemma_fields_outputs_named(s.fields.drop_first(), "chdr_v_"@);
}

/// The outputs of the geometry stage have names.
pub proof fn lemma_geometry_outputs_named(
    f: FunctionDefView,
    structs: Seq<StructDefView>,
    prev_ret: StructDefView,
    prev_outputs: Seq<SingleDeclView>,
)
    requires
        geometry_stage(f, structs, prev_ret, prev_outputs) is Ok,
    ensures
        all_named(geometry_stage(f, structs, prev_ret, prev_outputs)->Ok_0.outputs),
{
    let stage = geometry_stage(f, structs, prev_ret, prev_outputs)->Ok_0;
    lemma_fields_outputs_named(stage.ret.fields, "chdr_g_"@);
}

/// Writes the common part of a module.
#[verifier::rlimit(50)]
fn sink_common(common: &mut String, module: &Module, functions: &Vec<FunctionDef>)
    requires
        views(functions@) == all_functions(module@.glsl),
    ensures
        final(common)@ == old(common)@ + common_text(module@),
{
    let ghost start = common@;
    let uniforms = module.uniforms();
    let blocks = module.blocks();
    let ghost all_u = views(uniforms@);
    let mut i: usize = 0;
    assert(start + uniforms_text(all_u.subrange(0, 0)) =~= start);
    while i < uniforms.len()
        invariant
            i <= uniforms.len(),
            all_u == views(uniforms@),
            common@ == start + uniforms_text(all_u.subrange(0, i as int)),
        decreases uniforms.len() - i,
    {
        let ghost after = all_u.subrange(0, i + 1);
        assert(after.drop_last() =~= all_u.subrange(0, i as int));
        assert(after.last() == uniforms@[i as int]@);
        let text = show_single_declaration(&uniforms[i]);
        push_text(common, text.as_str());
        push_text(common, ";\n");
        assert(common@ =~= start + uniforms_text(after));
        i = i + 1;
    }
    assert(all_u.subrange(0, i as int) =~= all_u);
    let ghost first = common@;
    let ghost all_b = views(blocks@);
    let mut i: usize = 0;
    assert(first + blocks_text(all_b.subrange(0, 0)) =~= first);
    while i < blocks.len()
        invariant
            i <= blocks.len(),
            all_b == views(blocks@),
            common@ == first + blocks_text(all_b.subrange(0, i as int)),
        decreases blocks.len() - i,
    {
        let ghost after = all_b.subrange(0, i + 1);
        assert(after.drop_last() =~= all_b.subrange(0, i as int));
        assert(after.last() == blocks@[i as int]@);
        let text = show_block(&blocks[i]);
        push_text(common, text.as_str());
        assert(common@ =~= first + blocks_text(after));
        i = i + 1;
    }
    assert(all_b.subrange(0, i as int) =~= all_b);
    let ghost second = common@;
    let plain = filter_out_special_functions(functions);
    let ghost all_f = views(plain@);
    let mut i: usize = 0;
    assert(second + functions_text(all_f.subrange(0, 0)) =~= second);
    while i < plain.len()
        invariant
            i <= plain.len(),
            all_f == views(plain@),
            common@ == second + functions_text(all_f.subrange(0, i as int)),
        decreases plain.len() - i,
    {
        let ghost after = all_f.subrange(0, i + 1);
        assert(after.drop_last() =~= all_f.subrange(0, i as int));
        assert(after.last() == plain@[i as int]@);
        let text = show_function_definition(&plain[i]);
        push_text(common, text.as_str());
        assert(common@ =~= second + functions_text(after));
        i = i + 1;
    }
    assert(all_f.subrange(0, i as int) =~= all_f);
    assert(common@ =~= start + common_text(module@));
}

/// The views of optional names.
pub open spec fn names_view(names: Seq<Option<String>>) -> Seq<Option<Text>> {
    Seq::new(names.len(), |i: int| view_opt(names[i]))
}

/// Tells whether the name of a struct is among the names that belong to the stages.
fn is_stage_struct(local: &Vec<Option<String>>, s: &StructDef) -> (res: bool)
    ensures
        res == names_view(local@).contains(s@.name),
{
    let ghost all = names_view(local@);
    let mut i: usize = 0;
    while i < local.len()
        invariant
            i <= local.len(),
            all == names_view(local@),
            forall|j: int| 0 <= j < i ==> all[j] != s@.name,
        decreases local.len() - i,
    {
        assert(all[i as int] == view_opt(local@[i as int]));
        let same = match (&local[i], &s.name) {
            (Some(a), Some(b)) => *a == *b,
            (None, None) => true,
            _ => false,
        };
        if same {
            return true;
        }
        i = i + 1;
    }
    false
}

/// Writes the structs that belong to no stage.
fn sink_shared_structs(sink: &mut String, structs: &Vec<StructDef>, local: &Vec<Option<String>>)
    ensures
        final(sink)@ == old(sink)@ + shared_structs_text(views(structs@), names_view(local@)),
{
    let ghost start = sink@;
    let ghost all = views(structs@);
    let mut i: usize = 0;
    assert(start + shared_structs_text(all.subrange(0, 0), names_view(local@)) =~= start);
    while i < structs.len()
        invariant
            i <= structs.len(),
            all == views(structs@),
            sink@ == start + shared_structs_text(all.subrange(0, i as int), names_view(local@)),
        decreases structs.len() - i,
    {
        let ghost after = all.subrange(0, i + 1);
        assert(after.drop_last() =~= all.subrange(0, i as int));
        assert(after.last() == structs@[i as int]@);
        if !is_stage_struct(local, &structs[i]) {
            let ghost kept = shared_structs(all.subrange(0, i as int), names_view(local@));
            assert(shared_structs(after, names_view(local@)).drop_last() =~= kept);
            let text = show_struct(&structs[i]);
            push_text(sink, text.as_str());
            assert(sink@ =~= start + shared_structs_text(after, names_view(local@)));
        }
        i = i + 1;
    }
    assert(all.subrange(0, i as int) =~= all);
}

impl Module {
    /// Folds a module into the sources of the stages of its pipeline.
    ///
    /// Fails with `NoVertexShader` where the module has no `map_vertex` function, with
    /// `NoFragmentShader` where it has one but no `map_frag_data` function, and else with the
    /// first error of the vertex stage, of the geometry stage or of the fragment stage, in
    /// that order.
    #[verifier::rlimit(50)]
    pub fn to_glsl_setup(&self) -> (res: Result<ModuleFold, GLSLConversionError>)
        ensures
            match setup(self@) {
                Ok(fold) => res matches Ok(found) && found@ == fold,
                Err(e) => res matches Err(found) && found@ == e,
            },
    {
        let structs = self.structs();
        let functions = self.functions();
        let mut common = String::new();
        let mut vs = String::new();
        let mut gs = String::new();
        let mut fs = String::new();
        let mut structs_str = String::new();
        sink_common(&mut common, self, &functions);
        assert(common@ =~= common_text(self@));
        let mut filter_out_struct_def: Vec<Option<String>> = Vec::new();
        let map_vertex = match find_function_named(&functions, "map_vertex") {
            Some(f) => f,
            None => {
                return Err(GLSLConversionError::NoVertexShader);
            },
        };
        let concat_map_prim = find_function_named(&functions, "concat_map_prim");
        let map_frag_data = match find_function_named(&functions, "map_frag_data") {
            Some(f) => f,
            None => {
                return Err(GLSLConversionError::NoFragmentShader);
            },
        };
        let (vertex_ret_ty, vertex_outputs) = match sink_vertex_shader(
            &mut vs,
            map_vertex,
            &structs,
        ) {
            Ok(stage) => stage,
            Err(e) => {
                return Err(e);
            },
        };
        let ghost vertex = vertex_stage(map_vertex@, views(structs@))->Ok_0;
        assert(vs@ =~= vertex.text);
        proof {
            lemma_vertex_outputs_named(map_vertex@, views(structs@));
        }
        let vertex_ret_ty_fixed = drop_first_field(&vertex_ret_ty);
        filter_out_struct_def.push(clone_opt(&vertex_ret_ty_fixed.name));
        assert(names_view(filter_out_struct_def@) =~= seq![vertex_ret_ty_fixed@.name]);
        let ghost geometry: Option<StageView> = None;
        let (fs_prev_ret_ty, fs_prev_outputs) = match concat_map_prim {
            Some(concat_map_prim) => {
                let (ret_ty, outputs) = match sink_geometry_shader(
                    &mut gs,
                    concat_map_prim,
                    &structs,
                    &vertex_ret_ty_fixed,
                    &vertex_outputs,
                ) {
                    Ok(stage) => stage,
                    Err(e) => {
                        return Err(e);
                    },
                };
                proof {
                    geometry = Some(
                        geometry_stage(
                            concat_map_prim@,
                            views(structs@),
                            vertex_ret_ty_fixed@,
                            views(vertex_outputs@),
                        )->Ok_0,
                    );
                    lemma_geometry_outputs_named(
                        concat_map_prim@,
                        views(structs@),
                        vertex_ret_ty_fixed@,
                        views(vertex_outputs@),
                    );
                }
                assert(gs@ =~= geometry->0.text);
                filter_out_struct_def.push(clone_opt(&ret_ty.name));
                assert(names_view(filter_out_struct_def@) =~= seq![vertex_ret_ty_fixed@.name] + seq![
                    ret_ty@.name,
                ]);
                (ret_ty, outputs)
            },
            None => {
                assert(names_view(filter_out_struct_def@) =~= seq![vertex_ret_ty_fixed@.name]
                    + Seq::<Option<Text>>::empty());
                (vertex_ret_ty_fixed, vertex_outputs)
            },
        };
        let (fragment_ret_ty, _) = match sink_fragment_shader(
            &mut fs,
            map_frag_data,
            &structs,
            &fs_prev_ret_ty,
            &fs_prev_outputs,
        ) {
            Ok(stage) => stage,
            Err(e) => {
                return Err(e);
            },
        };
        let ghost fragment = fragment_stage(
            map_frag_data@,
            views(structs@),
            fs_prev_ret_ty@,
            views(fs_prev_outputs@),
        )->Ok_0;
        assert(fs@ =~= fragment.text);
        let ghost names = names_view(filter_out_struct_def@);
        filter_out_struct_def.push(clone_opt(&fragment_ret_ty.name));
        assert(names_view(filter_out_struct_def@) =~= names + seq![fragment_ret_ty@.name]);
        assert(names_view(filter_out_struct_def@) == stage_struct_names(
            without_first_field(vertex.ret),
            geometry,
            fragment,
        ));
        sink_shared_structs(&mut structs_str, &structs, &filter_out_struct_def);
        let common = structs_str.concat(common.as_str());
        if vs.as_str().is_empty() {
            Err(GLSLConversionError::NoVertexShader)
        } else if fs.as_str().is_empty() {
            Err(GLSLConversionError::NoFragmentShader)
        } else {
            let gs = if gs.as_str().is_empty() {
                None
            } else {
                Some(gs)
            };
            let setup = ModuleFold {
                vs: common.clone().concat(vs.as_str()),
                gs,
                fs: common.concat(fs.as_str()),
            };
            Ok(setup)
        }
    }
}

} // verus!
