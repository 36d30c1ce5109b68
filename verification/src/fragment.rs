//! The fragment stage, lowered from the `map_frag_data` function of a module.
//!
//! The function takes the struct that the stage before hands on, rebuilt from the inputs
//! that carry its fields, and returns a struct whose fields become the outputs of the
//! pipeline.
use vstd::prelude::*;
use crate::error::{GLSLConversionError, GLSLConversionErrorView};
use crate::geometry::struct_is_named;
use crate::interface::{
    as_inputs, declarations_text, fields_from, fields_outputs, fields_to_single_decls,
    get_fn1_input_ty_name, get_fn_ret_ty, inputs_from_outputs, lemma_fields_outputs_all,
    remove_unused_args_fn, sink_single_as_ext_decls, struct_of_type, unary_input_name,
    without_unused_args, StageView,
};
use crate::printer::{
    function_definition_text, show_function_definition, show_struct, struct_text,
};
use crate::syntax::{FunctionDef, SingleDecl, StructDef};
use crate::text::push_text;
use crate::vertex::{fields_assigns_text, lemma_struct_of_type_name, sink_fields_assigns};
use crate::view::{views, FunctionDefView, SingleDeclView, StructDefView, StructFieldView, Text};

verus! {

/// Whether every declaration of a list has a name.
pub open spec fn all_named(decls: Seq<SingleDeclView>) -> bool {
    forall|i: int| 0 <= i < decls.len() ==> (#[trigger] decls[i]).name is Some
}

/// The names of declarations, separated by commas.
pub open spec fn names_joined(decls: Seq<SingleDeclView>) -> Text
    decreases decls.len(),
{
    if decls.len() == 0 {
        Seq::empty()
    } else if decls.len() == 1 {
        decls[0].name->0
    } else {
        names_joined(decls.drop_last()) + ", "@ + decls.last().name->0
    }
}

/// The source of the fragment stage: the inputs that take the outputs of the stage before,
/// its outputs, the struct it takes and the struct it returns, `map_frag_data` without its
/// parameters that have no name, and the main function.
pub open spec fn fragment_text(
    f: FunctionDefView,
    prev_ret: StructDefView,
    prev_outputs: Seq<SingleDeclView>,
    ret: StructDefView,
    outputs: Seq<SingleDeclView>,
) -> Text {
    declarations_text(as_inputs(prev_outputs, false)) + declarations_text(outputs)
        + struct_text(prev_ret) + struct_text(ret) + function_definition_text(
        without_unused_args(f),
    ) + "void main() {\n  "@ + prev_ret.name->0 + " i = "@ + prev_ret.name->0 + "("@
        + names_joined(as_inputs(prev_outputs, false)) + ");\n"@ + "  "@ + ret.name->0
        + " o = "@ + "map_frag_data"@ + "(i);\n"@ + fields_assigns_text(
        ret.fields,
        "chdr_f_"@,
        "o"@,
    ) + "}\n\n"@
}

/// The fragment stage of a `map_frag_data` function, with the structs of the module, the
/// struct that the stage before hands on and the outputs of that stage.
pub open spec fn fragment_stage(
    f: FunctionDefView,
    structs: Seq<StructDefView>,
    prev_ret: StructDefView,
    prev_outputs: Seq<SingleDeclView>,
) -> Result<StageView, GLSLConversionErrorView> {
    match unary_input_name(f) {
        Err(e) => Err(e),
        Ok(input_name) => if prev_ret.name != Some(input_name) {
            Err(GLSLConversionErrorView::UnknownInputType(input_name))
        } else {
            match struct_of_type(f.ty.ty, structs) {
                Err(e) => Err(e),
                Ok(ret) => match fields_outputs(ret.fields, "chdr_f_"@) {
                    Err(e) => Err(e),
                    Ok(outputs) => Ok(
                        StageView {
                            ret,
                            outputs,
                            text: fragment_text(f, prev_ret, prev_outputs, ret, outputs),
                        },
                    ),
                },
            }
        },
    }
}

/// The outputs of fields have names.
pub proof fn lemma_fields_outputs_named(fields: Seq<StructFieldView>, prefix: Text)
    requires
        fields_outputs(fields, prefix) is Ok,
    ensures
        all_named(fields_outputs(fields, prefix)->Ok_0),
{
    lemma_fields_outputs_all(fields, prefix);
}

/// Writes the names of declarations, separated by commas.
fn sink_names(sink: &mut String, decls: &Vec<SingleDecl>)
    requires
        all_named(views(decls@)),
    ensures
        final(sink)@ == old(sink)@ + names_joined(views(decls@)),
{
    let ghost start = sink@;
    let ghost all = views(decls@);
    let mut i: usize = 0;
    assert(all.subrange(0, 0) =~= Seq::<SingleDeclView>::empty());
    assert(start + names_joined(all.subrange(0, 0)) =~= start);
    while i < decls.len()
        invariant
            i <= decls.len(),
            all == views(decls@),
            all_named(all),
            sink@ == start + names_joined(all.subrange(0, i as int)),
        decreases decls.len() - i,
    {
        let ghost after = all.subrange(0, i + 1);
        assert(after.drop_last() =~= all.subrange(0, i as int));
        assert(after.last() == all[i as int]);
        assert(all[i as int].name is Some);
        if i > 0 {
            push_text(sink, ", ");
        }
        match &decls[i].name {
            Some(name) => {
                push_text(sink, name.as_str());
            },
            None => {},
        }
        assert(sink@ =~= start + names_joined(after));
        i = i + 1;
    }
    assert(all.subrange(0, i as int) =~= all);
}

/// Writes the source of the fragment stage from its parts.
#[verifier::rlimit(50)]
fn write_fragment_stage(
    sink: &mut String,
    map_frag_data: &FunctionDef,
    prev_ret_ty: &StructDef,
    prev_inputs: &Vec<SingleDecl>,
    ret_ty: &StructDef,
    outputs: &Vec<SingleDecl>,
)
    requires
        prev_ret_ty@.name is Some,
        ret_ty@.name is Some,
        all_named(views(prev_inputs@)),
    ensures
        final(sink)@ == old(sink)@ + fragment_text(
            map_frag_data@,
            prev_ret_ty@,
            views(prev_inputs@),
            ret_ty@,
            views(outputs@),
        ),
{
    let ghost start = sink@;
    let inputs = inputs_from_outputs(prev_inputs, false);
    assert(all_named(views(inputs@))) by {
        assert forall|i: int| 0 <= i < views(inputs@).len() implies (#[trigger] views(
            inputs@,
        )[i]).name is Some by {
            assert(views(prev_inputs@)[i].name is Some);
        }
    }
    sink_single_as_ext_decls(sink, &inputs);
    sink_single_as_ext_decls(sink, outputs);
    let text = show_struct(prev_ret_ty);
    push_text(sink, text.as_str());
    let text = show_struct(ret_ty);
    push_text(sink, text.as_str());
    let map_frag_data_reduced = remove_unused_args_fn(map_frag_data);
    let text = show_function_definition(&map_frag_data_reduced);
    push_text(sink, text.as_str());
    push_text(sink, "void main() {\n  ");
    match &prev_ret_ty.name {
        Some(name) => {
            push_text(sink, name.as_str());
            push_text(sink, " i = ");
            push_text(sink, name.as_str());
        },
        None => {},
    }
    push_text(sink, "(");
    sink_names(sink, &inputs);
    push_text(sink, ");\n");
    push_text(sink, "  ");
    match &ret_ty.name {
        Some(name) => {
            push_text(sink, name.as_str());
        },
        None => {},
    }
    push_text(sink, " o = ");
    push_text(sink, "map_frag_data");
    push_text(sink, "(i);\n");
    assert(fields_from(ret_ty@.fields, 0) =~= ret_ty@.fields);
    sink_fields_assigns(sink, &ret_ty.fields, 0, "chdr_f_", "o");
    push_text(sink, "}\n\n");
    assert(sink@ =~= start + fragment_text(
        map_frag_data@,
        prev_ret_ty@,
        views(prev_inputs@),
        ret_ty@,
        views(outputs@),
    ));
}

/// Sinks a fragment shader: writes the source of the fragment stage behind what the sink
/// holds, and returns the struct that `map_frag_data` returns with the outputs of the stage.
/// Where it fails, the sink is left as it was.
///
/// Fails as `get_fn1_input_ty_name` does on the parameters of `map_frag_data`, with
/// `UnknownInputType` where the parameter is not what the stage before hands on, with
/// `ReturnTypeMustBeAStruct` where the function returns no struct of the list, and as
/// `fields_to_single_decls` does on the fields of that struct.
#[verifier::rlimit(50)]
pub fn sink_fragment_shader(
    sink: &mut String,
    map_frag_data: &FunctionDef,
    structs: &Vec<StructDef>,
    prev_ret_ty: &StructDef,
    prev_inputs: &Vec<SingleDecl>,
) -> (res: Result<(StructDef, Vec<SingleDecl>), GLSLConversionError>)
    requires
        fragment_stage(
            map_frag_data@,
            views(structs@),
            prev_ret_ty@,
            views(prev_inputs@),
        ) is Ok ==> all_named(views(prev_inputs@)),
    ensures
        match fragment_stage(map_frag_data@, views(structs@), prev_ret_ty@, views(prev_inputs@)) {
            Ok(stage) => res matches Ok(found) && found.0@ == stage.ret && views(found.1@)
                == stage.outputs && final(sink)@ == old(sink)@ + stage.text,
            Err(e) => res matches Err(found) && found@ == e && final(sink)@ == old(sink)@,
        },
{
    let input_ty_name = match get_fn1_input_ty_name(map_frag_data) {
        Ok(name) => name,
        Err(e) => {
            return Err(e);
        },
    };
    if !struct_is_named(prev_ret_ty, &input_ty_name) {
        return Err(GLSLConversionError::UnknownInputType(input_ty_name));
    }
    let ret_ty = match get_fn_ret_ty(map_frag_data, structs) {
        Ok(ret_ty) => ret_ty,
        Err(e) => {
            return Err(e);
        },
    };
    proof {
        lemma_struct_of_type_name(map_frag_data@.ty.ty, views(structs@));
    }
    assert(ret_ty@.fields.subrange(0, ret_ty@.fields.len() as int) =~= ret_ty@.fields);
    let outputs = match fields_to_single_decls(&ret_ty.fields, 0, "chdr_f_") {
        Ok(outputs) => outputs,
        Err(e) => {
            return Err(e);
        },
    };
    proof {
        lemma_fields_outputs_named(ret_ty@.fields, "chdr_f_"@);
    }
    write_fragment_stage(sink, map_frag_data, prev_ret_ty, prev_inputs, &ret_ty, &outputs);
    Ok((ret_ty, outputs))
}

} // verus!
