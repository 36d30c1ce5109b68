//! The vertex stage, lowered from the `map_vertex` function of a module.
//!
//! Every named parameter of `map_vertex` becomes an input at the location of its position.
//! The function returns a struct whose first field is the position of the vertex; every other
//! field becomes an output that carries it to the next stage.
use vstd::prelude::*;
use crate::copy::clone_opt;
use crate::error::{GLSLConversionError, GLSLConversionErrorView};
use crate::interface::{
    all_outputs, declarations_text, fields_after_first, fields_from, fields_outputs,
    fields_to_single_decls, find_struct, get_fn_ret_ty, is_fn_arg_named,
    lemma_fields_outputs_all, named_params, remove_unused_args_fn, sink_single_as_ext_decls,
    struct_from_ty_spec, struct_of_type, without_unused_args, StageView,
};
use crate::printer::{
    decimal_text, function_definition_text, show_function_definition, show_number, show_struct,
    struct_text,
};
use crate::syntax::{
    Declarator, Expression, FullType, FunctionDef, Layout, LayoutId, Param, Qualifier,
    QualifierSpec, SingleDecl, StructDef, StructField, TypeKind,
};
use crate::text::{push_text, same_text};
use crate::view::{
    struct_fields_view, view_opt, views, DeclaratorView, ExpressionView, FullTypeView,
    FunctionDefView, LayoutIdView, ParamView, QualifierSpecView, QualifierView, SingleDeclView,
    StructDefView, StructFieldView, Text, TypeKindView, TypeSpecView,
};

verus! {

/// The qualifier `layout (location = i)`.
pub open spec fn location_layout(i: usize) -> QualifierSpecView {
    QualifierSpecView::Layout(
        seq![LayoutIdView::Named("location"@, Some(ExpressionView::IntConst(i as i32)))],
    )
}

/// The qualifiers of the input at a position: `layout (location = i) in`, then the
/// qualifiers that the parameter has.
pub open spec fn input_qualifier(i: usize, q: Option<QualifierView>) -> QualifierView {
    seq![location_layout(i), QualifierSpecView::In] + match q {
        Some(q) => q,
        None => Seq::empty(),
    }
}

/// Creates the qualifiers of a vertex input from its position and the qualifiers of the
/// parameter.
pub fn vertex_shader_input_qualifier(i: usize, ty_qual: &Option<Qualifier>) -> (res: Qualifier)
    ensures
        res@ == input_qualifier(i, view_opt(*ty_qual)),
{
    let location = LayoutId::Named(
        "location".to_owned(),
        Some(Box::new(Expression::IntConst(#[verifier::truncate] (i as i32)))),
    );
    let layout = Layout { first: location, rest: Vec::new() };
    assert(layout@ =~= seq![
        LayoutIdView::Named("location"@, Some(ExpressionView::IntConst(i as i32))),
    ]);
    let mut rest: Vec<QualifierSpec> = Vec::new();
    rest.push(QualifierSpec::In);
    match ty_qual {
        Some(q) => {
            rest.push(q.first.clone());
            let mut j: usize = 0;
            while j < q.rest.len()
                invariant
                    j <= q.rest.len(),
                    rest@.len() == j + 2,
                    rest@[0]@ == QualifierSpecView::In,
                    rest@[1]@ == q.first@,
                    forall|k: int| 0 <= k < j ==> rest@[k + 2]@ == q.rest@[k]@,
                decreases q.rest.len() - j,
            {
                rest.push(q.rest[j].clone());
                j = j + 1;
            }
        },
        None => {},
    }
    let res = Qualifier { first: QualifierSpec::Layout(layout), rest };
    assert(res@ =~= input_qualifier(i, view_opt(*ty_qual)));
    res
}

/// The input that a parameter at a position gives: one for a named parameter, none for a
/// parameter without name.
pub open spec fn vertex_input(i: usize, p: ParamView) -> Seq<SingleDeclView> {
    match p {
        ParamView::Named(q, ty, d) => seq![
            SingleDeclView {
                ty: FullTypeView { qualifier: Some(input_qualifier(i, q)), ty },
                name: Some(d.name),
                array: d.array,
                initializer: None,
            },
        ],
        ParamView::Unnamed(..) => Seq::empty(),
    }
}

/// The inputs of the vertex stage: one for each named parameter, in order, at the location
/// of the position of the parameter among all the parameters.
pub open spec fn vertex_inputs(params: Seq<ParamView>) -> Seq<SingleDeclView>
    decreases params.len(),
{
    if params.len() == 0 {
        Seq::empty()
    } else {
        vertex_inputs(params.drop_last()) + vertex_input(
            (params.len() - 1) as usize,
            params.last(),
        )
    }
}

/// Extracts the vertex shader inputs from a list of parameters. A parameter without name is
/// no error: it gives no input and keeps its location.
pub fn vertex_shader_inputs(args: &Vec<Param>) -> (res: Result<
    Vec<SingleDecl>,
    GLSLConversionError,
>)
    ensures
        res matches Ok(found) && views(found@) == vertex_inputs(views(args@)),
{
    let mut inputs: Vec<SingleDecl> = Vec::new();
    let ghost all = views(args@);
    let mut i: usize = 0;
    assert(all.subrange(0, 0) =~= Seq::<ParamView>::empty());
    assert(views(inputs@) =~= Seq::<SingleDeclView>::empty());
    while i < args.len()
        invariant
            i <= args.len(),
            all == views(args@),
            views(inputs@) == vertex_inputs(all.subrange(0, i as int)),
        decreases args.len() - i,
    {
        let ghost after = all.subrange(0, i + 1);
        assert(after.drop_last() =~= all.subrange(0, i as int));
        assert(after.last() == args@[i as int]@);
        let ghost before = views(inputs@);
        match &args[i] {
            Param::Named(ty_qual, ty, decl) => {
                let qualifier = vertex_shader_input_qualifier(i, ty_qual);
                let sd = SingleDecl {
                    ty: FullType { qualifier: Some(qualifier), ty: ty.clone() },
                    name: Some(decl.name.clone()),
                    array: clone_opt(&decl.array),
                    initializer: None,
                };
                inputs.push(sd);
                assert(views(inputs@) =~= before + vertex_input(i, args@[i as int]@));
            },
            Param::Unnamed(..) => {
                assert(before + vertex_input(i, args@[i as int]@) =~= before);
            },
        }
        i = i + 1;
    }
    assert(all.subrange(0, i as int) =~= all);
    Ok(inputs)
}

/// Whether a field is the position of the vertex: `vec4 chdr_Position`, without qualifier
/// and without array dimensions.
pub open spec fn is_position_field(f: StructFieldView) -> bool {
    &&& f.qualifier is None
    &&& f.ty.kind == TypeKindView::Vec4
    &&& f.ty.array is None
    &&& f.identifiers == seq![DeclaratorView { name: "chdr_Position"@, array: None }]
}

/// Tells whether a field is the position of the vertex.
pub fn check_position_field(f: &StructField) -> (res: bool)
    ensures
        res == is_position_field(f@),
{
    let vec4 = match &f.ty.kind {
        TypeKind::Vec4 => true,
        _ => false,
    };
    let named = same_text(f.first.name.as_str(), "chdr_Position");
    let res = f.qualifier.is_none() && vec4 && f.ty.array.is_none() && named
        && f.first.array.is_none() && f.rest.len() == 0;
    proof {
        let expected = seq![DeclaratorView { name: "chdr_Position"@, array: None }];
        if res {
            assert(f@.identifiers =~= expected);
        } else if f@.qualifier is None && f@.ty.kind == TypeKindView::Vec4 && f@.ty.array is None {
            if f.rest.len() != 0 {
                assert(f@.identifiers.len() != expected.len());
            } else {
                assert(f@.identifiers[0] == f.first@);
                assert(f@.identifiers[0] != expected[0]);
            }
        }
    }
    res
}

/// The outputs of the vertex stage, or the reason why a type cannot be what `map_vertex`
/// returns.
///
/// The type carries no qualifier and names a struct of the list that has fields. The first
/// field of that struct is the position of the vertex. Every name of every other field
/// gives an output, named by that name behind `chdr_v_`.
pub open spec fn vertex_outputs(fsty: FullTypeView, structs: Seq<StructDefView>) -> Result<
    Seq<SingleDeclView>,
    GLSLConversionErrorView,
> {
    if fsty.qualifier is Some {
        Err(GLSLConversionErrorView::OutputHasMainQualifier)
    } else {
        match struct_of_type(fsty.ty, structs) {
            Err(e) => Err(e),
            Ok(s) => if s.fields.len() == 0 {
                Err(GLSLConversionErrorView::ReturnTypeMustBeAStruct(fsty.ty))
            } else if !is_position_field(s.fields[0]) {
                Err(GLSLConversionErrorView::WrongOutputFirstField(s.fields[0]))
            } else {
                fields_outputs(s.fields.drop_first(), "chdr_v_"@)
            },
        }
    }
}

/// Extracts the vertex shader outputs from the return type of `map_vertex`.
///
/// Fails with `OutputHasMainQualifier` where the type carries a qualifier, with
/// `ReturnTypeMustBeAStruct` where it names no struct of the list or one without field, with
/// `WrongOutputFirstField` where the first field of the struct is not the position, and as
/// `fields_to_single_decls` does on the other fields.
#[verifier::rlimit(50)]
pub fn vertex_shader_outputs(fsty: &FullType, structs: &Vec<StructDef>) -> (res: Result<
    Vec<SingleDecl>,
    GLSLConversionError,
>)
    ensures
        match vertex_outputs(fsty@, views(structs@)) {
            Ok(outputs) => res matches Ok(found) && views(found@) == outputs,
            Err(e) => res matches Err(found) && found@ == e,
        },
{
    if fsty.qualifier.is_some() {
        return Err(GLSLConversionError::OutputHasMainQualifier);
    }
    let s = match struct_from_ty_spec(&fsty.ty, structs) {
        Ok(s) => s,
        Err(e) => {
            return Err(e);
        },
    };
    if s.fields.len() == 0 {
        return Err(GLSLConversionError::ReturnTypeMustBeAStruct(fsty.ty.clone()));
    }
    if !check_position_field(&s.fields[0]) {
        return Err(GLSLConversionError::WrongOutputFirstField(s.fields[0].clone()));
    }
    assert(s@.fields.subrange(1, s@.fields.len() as int) =~= s@.fields.drop_first());
    fields_to_single_decls(&s.fields, 1, "chdr_v_")
}

/// The vertex stage has one input for each named parameter of `map_vertex`, in order. The
/// input of a named parameter has the name of the parameter, and its qualifiers begin with
/// the location of the position of the parameter and with `in`.
pub proof fn law_vertex_inputs(params: Seq<ParamView>)
    ensures
        vertex_inputs(params).len() == named_params(params).len(),
        forall|i: int|
            0 <= i < params.len() && (#[trigger] params[i]) is Named ==> {
                let k = named_params(params.subrange(0, i)).len() as int;
                &&& k < vertex_inputs(params).len()
                &&& vertex_inputs(params)[k].name == Some(params[i]->Named_2.name)
                &&& vertex_inputs(params)[k].ty.qualifier is Some
                &&& vertex_inputs(params)[k].ty.qualifier->0.len() >= 2
                &&& vertex_inputs(params)[k].ty.qualifier->0[0] == location_layout(i as usize)
                &&& vertex_inputs(params)[k].ty.qualifier->0[1] == QualifierSpecView::In
            },
    decreases params.len(),
{
    if params.len() > 0 {
        let front = params.drop_last();
        law_vertex_inputs(front);
        assert forall|i: int| 0 <= i < params.len() && (#[trigger] params[i]) is Named implies {
            let k = named_params(params.subrange(0, i)).len() as int;
            &&& k < vertex_inputs(params).len()
            &&& vertex_inputs(params)[k].name == Some(params[i]->Named_2.name)
            &&& vertex_inputs(params)[k].ty.qualifier is Some
            &&& vertex_inputs(params)[k].ty.qualifier->0.len() >= 2
            &&& vertex_inputs(params)[k].ty.qualifier->0[0] == location_layout(i as usize)
            &&& vertex_inputs(params)[k].ty.qualifier->0[1] == QualifierSpecView::In
        } by {
            if i < front.len() {
                assert(front[i] == params[i]);
                assert(front.subrange(0, i) =~= params.subrange(0, i));
            } else {
                assert(params.subrange(0, i) =~= front);
            }
        }
    }
}

/// Where a type can be what `map_vertex` returns, the vertex stage has one output for each
/// name of each field of the struct after the position, in order. The output of a name has
/// that name behind `chdr_v_` and the array dimensions of that name, and `out` is the last
/// of its qualifiers.
pub proof fn law_vertex_outputs(fsty: FullTypeView, structs: Seq<StructDefView>)
    requires
        vertex_outputs(fsty, structs) is Ok,
    ensures
        struct_of_type(fsty.ty, structs) is Ok,
        vertex_outputs(fsty, structs)->Ok_0 == all_outputs(
            struct_of_type(fsty.ty, structs)->Ok_0.fields.drop_first(),
            "chdr_v_"@,
        ),
        forall|i: int|
            0 <= i < vertex_outputs(fsty, structs)->Ok_0.len() ==> {
                let output = #[trigger] vertex_outputs(fsty, structs)->Ok_0[i];
                &&& output.name is Some
                &&& output.ty.qualifier is Some
                &&& output.ty.qualifier->0.len() > 0
                &&& output.ty.qualifier->0.last() == QualifierSpecView::Out
            },
{
    let s = struct_of_type(fsty.ty, structs)->Ok_0;
    lemma_fields_outputs_all(s.fields.drop_first(), "chdr_v_"@);
}

/// The argument that the call of `map_vertex` passes for a parameter: the name of a named
/// parameter, and `chdr_unused` with the position for a parameter without name.
pub open spec fn call_arg_text(i: usize, p: ParamView) -> Text {
    match p {
        ParamView::Named(_, _, d) => d.name,
        ParamView::Unnamed(..) => "chdr_unused"@ + decimal_text(i as nat),
    }
}

/// The arguments after the first: each named parameter behind a comma.
pub open spec fn more_call_args_text(params: Seq<ParamView>) -> Text
    decreases params.len(),
{
    if params.len() <= 1 {
        Seq::empty()
    } else if params.last() is Named {
        more_call_args_text(params.drop_last()) + ", "@ + call_arg_text(
            (params.len() - 1) as usize,
            params.last(),
        )
    } else {
        more_call_args_text(params.drop_last())
    }
}

/// The arguments of the call of a function with given parameters.
pub open spec fn call_args_text(params: Seq<ParamView>) -> Text {
    if params.len() == 0 {
        Seq::empty()
    } else {
        call_arg_text(0, params[0]) + more_call_args_text(params)
    }
}

/// Sinks an argument of a function.
pub fn sink_vertex_shader_input_arg(sink: &mut String, i: usize, arg: &Param)
    ensures
        final(sink)@ == old(sink)@ + call_arg_text(i, arg@),
{
    match arg {
        Param::Named(_, _, d) => {
            push_text(sink, d.name.as_str());
        },
        Param::Unnamed(..) => {
            let ghost start = sink@;
            push_text(sink, "chdr_unused");
            let number = show_number(i);
            push_text(sink, number.as_str());
            assert(sink@ =~= start + ("chdr_unused"@ + decimal_text(i as nat)));
        },
    }
}

/// Sinks the arguments of the call of a function.
pub fn sink_vertex_shader_input_args(sink: &mut String, map_vertex: &FunctionDef)
    ensures
        final(sink)@ == old(sink)@ + call_args_text(map_vertex@.params),
{
    let args = &map_vertex.params;
    let ghost start = sink@;
    let ghost all = views(args@);
    if args.len() > 0 {
        sink_vertex_shader_input_arg(sink, 0, &args[0]);
        let ghost first = sink@;
        let mut i: usize = 1;
        assert(first + more_call_args_text(all.subrange(0, 1)) =~= first);
        while i < args.len()
            invariant
                1 <= i <= args.len(),
                all == views(args@),
                sink@ == first + more_call_args_text(all.subrange(0, i as int)),
            decreases args.len() - i,
        {
            let ghost after = all.subrange(0, i + 1);
            assert(after.drop_last() =~= all.subrange(0, i as int));
            assert(after.last() == args@[i as int]@);
            if is_fn_arg_named(&args[i]) {
                let ghost before = sink@;
                push_text(sink, ", ");
                sink_vertex_shader_input_arg(sink, i, &args[i]);
                assert(sink@ =~= before + ", "@ + call_arg_text(i, args@[i as int]@));
                assert(sink@ =~= first + more_call_args_text(after));
            }
            i = i + 1;
        }
        assert(all.subrange(0, i as int) =~= all);
        assert(sink@ =~= start + call_args_text(all));
    } else {
        assert(sink@ =~= start + call_args_text(all));
    }
}

/// The assignment of one name of a field of the value `value` to its output, which has
/// that name behind the prefix.
pub open spec fn assign_text(prefix: Text, value: Text, name: Text) -> Text {
    "  "@ + prefix + name + " = "@ + value + "."@ + name + ";\n"@
}

/// The assignments of the names of one field line.
pub open spec fn names_assigns_text(
    identifiers: Seq<DeclaratorView>,
    prefix: Text,
    value: Text,
) -> Text
    decreases identifiers.len(),
{
    if identifiers.len() == 0 {
        Seq::empty()
    } else {
        names_assigns_text(identifiers.drop_last(), prefix, value) + assign_text(
            prefix,
            value,
            identifiers.last().name,
        )
    }
}

/// The assignments of the names of field lines.
pub open spec fn fields_assigns_text(fields: Seq<StructFieldView>, prefix: Text, value: Text) -> Text
    decreases fields.len(),
{
    if fields.len() == 0 {
        Seq::empty()
    } else {
        fields_assigns_text(fields.drop_last(), prefix, value) + names_assigns_text(
            fields.last().identifiers,
            prefix,
            value,
        )
    }
}

/// What the main function of the vertex stage does with the result of `map_vertex`: the
/// position goes to `gl_Position`, and every name of every other field to its output.
pub open spec fn vertex_assigns_text(s: StructDefView) -> Text {
    "  gl_Position = v.chdr_Position;\n"@ + fields_assigns_text(
        fields_after_first(s.fields),
        "chdr_v_"@,
        "v"@,
    )
}

/// Writes the assignment of one name.
fn sink_assign(assigns: &mut String, d: &Declarator, prefix: &str, value: &str)
    ensures
        final(assigns)@ == old(assigns)@ + assign_text(prefix@, value@, d@.name),
{
    let ghost start = assigns@;
    push_text(assigns, "  ");
    push_text(assigns, prefix);
    push_text(assigns, d.name.as_str());
    push_text(assigns, " = ");
    push_text(assigns, value);
    push_text(assigns, ".");
    push_text(assigns, d.name.as_str());
    push_text(assigns, ";\n");
    assert(assigns@ =~= start + assign_text(prefix@, value@, d@.name));
}

/// Writes the assignments of the names of one field line.
fn sink_field_assigns(assigns: &mut String, field: &StructField, prefix: &str, value: &str)
    ensures
        final(assigns)@ == old(assigns)@ + names_assigns_text(
            field@.identifiers,
            prefix@,
            value@,
        ),
{
    let ghost start = assigns@;
    let ghost all = field@.identifiers;
    assert(all.subrange(0, 1).drop_last() =~= Seq::<DeclaratorView>::empty());
    assert(all.subrange(0, 1).last() == field.first@);
    sink_assign(assigns, &field.first, prefix, value);
    assert(names_assigns_text(all.subrange(0, 1).drop_last(), prefix@, value@) =~= Seq::<
        char,
    >::empty());
    assert(assigns@ =~= start + names_assigns_text(all.subrange(0, 1), prefix@, value@));
    let mut i: usize = 0;
    while i < field.rest.len()
        invariant
            i <= field.rest.len(),
            all == field@.identifiers,
            all.len() == field.rest.len() + 1,
            assigns@ == start + names_assigns_text(all.subrange(0, i + 1), prefix@, value@),
        decreases field.rest.len() - i,
    {
        let ghost after = all.subrange(0, i + 2);
        assert(after.drop_last() =~= all.subrange(0, i + 1));
        assert(after.last() == field.rest@[i as int]@);
        sink_assign(assigns, &field.rest[i], prefix, value);
        assert(assigns@ =~= start + names_assigns_text(after, prefix@, value@));
        i = i + 1;
    }
    assert(all.subrange(0, i + 1) =~= all);
}

/// Writes the assignments of every name of the fields of a struct, from the field at `from`
/// on, each to the output that has that name behind the prefix.
pub fn sink_fields_assigns(
    assigns: &mut String,
    fields: &Vec<StructField>,
    from: usize,
    prefix: &str,
    value: &str,
)
    ensures
        final(assigns)@ == old(assigns)@ + fields_assigns_text(
            fields_from(struct_fields_view(fields@), from),
            prefix@,
            value@,
        ),
{
    let ghost start = assigns@;
    let ghost all = fields_from(struct_fields_view(fields@), from);
    assert(start + fields_assigns_text(all.subrange(0, 0), prefix@, value@) =~= start);
    if from > fields.len() {
        assert(all.subrange(0, 0) =~= all);
        return ;
    }
    let mut i: usize = from;
    while i < fields.len()
        invariant
            from <= i <= fields.len(),
            all == struct_fields_view(fields@).subrange(from as int, fields.len() as int),
            assigns@ == start + fields_assigns_text(all.subrange(0, i - from), prefix@, value@),
        decreases fields.len() - i,
    {
        let ghost after = all.subrange(0, i - from + 1);
        assert(after.drop_last() =~= all.subrange(0, i - from));
        assert(after.last() == fields@[i as int]@);
        sink_field_assigns(assigns, &fields[i], prefix, value);
        assert(assigns@ =~= start + fields_assigns_text(after, prefix@, value@));
        i = i + 1;
    }
    assert(all.subrange(0, i - from) =~= all);
}

/// Sinks the output of a vertex shader: the name of the type goes to `sink`, and what the
/// main function does with a value of the type to `assigns`.
pub fn sink_vertex_shader_output(sink: &mut String, assigns: &mut String, ty: &StructDef)
    requires
        ty@.name is Some,
    ensures
        final(sink)@ == old(sink)@ + ty@.name->0,
        final(assigns)@ == old(assigns)@ + vertex_assigns_text(ty@),
{
    match &ty.name {
        Some(name) => {
            push_text(sink, name.as_str());
        },
        None => {},
    }
    let ghost start = assigns@;
    push_text(assigns, "  gl_Position = v.chdr_Position;\n");
    assert(fields_from(ty@.fields, 1) =~= fields_after_first(ty@.fields));
    sink_fields_assigns(assigns, &ty.fields, 1, "chdr_v_", "v");
    assert(assigns@ =~= start + vertex_assigns_text(ty@));
}

/// The source of the vertex stage, given the struct that `map_vertex` returns and the
/// outputs of the stage: the inputs and the outputs, the struct, `map_vertex` without its
/// parameters that have no name, and the main function.
pub open spec fn vertex_text(
    f: FunctionDefView,
    ret: StructDefView,
    outputs: Seq<SingleDeclView>,
) -> Text {
    declarations_text(vertex_inputs(f.params)) + declarations_text(outputs) + struct_text(ret)
        + function_definition_text(without_unused_args(f)) + "void main() {\n  "@
        + ret.name->0 + " v = map_vertex("@ + call_args_text(named_params(f.params)) + ");\n"@
        + vertex_assigns_text(ret) + "}\n\n"@
}

/// The vertex stage of a `map_vertex` function, with the structs of the module.
pub open spec fn vertex_stage(f: FunctionDefView, structs: Seq<StructDefView>) -> Result<
    StageView,
    GLSLConversionErrorView,
> {
    match vertex_outputs(f.ty, structs) {
        Err(e) => Err(e),
        Ok(outputs) => match struct_of_type(f.ty.ty, structs) {
            Err(e) => Err(e),
            Ok(ret) => Ok(StageView { ret, outputs, text: vertex_text(f, ret, outputs) }),
        },
    }
}

/// A struct found under a name has that name.
pub proof fn lemma_find_struct_name(structs: Seq<StructDefView>, name: Text)
    requires
        find_struct(structs, name) is Some,
    ensures
        find_struct(structs, name)->0.name == Some(name),
    decreases structs.len(),
{
    if structs[0].name != Some(name) {
        lemma_find_struct_name(structs.drop_first(), name);
    }
}

/// A struct that a type names has a name.
pub proof fn lemma_struct_of_type_name(ty: TypeSpecView, structs: Seq<StructDefView>)
    requires
        struct_of_type(ty, structs) is Ok,
    ensures
        struct_of_type(ty, structs)->Ok_0.name is Some,
{
    match ty.kind {
        TypeKindView::Named(n) => {
            lemma_find_struct_name(structs, n);
        },
        _ => {},
    }
}

/// Writes the source of the vertex stage from its parts.
#[verifier::rlimit(50)]
fn write_vertex_stage(
    sink: &mut String,
    map_vertex: &FunctionDef,
    inputs: &Vec<SingleDecl>,
    ret_ty: &StructDef,
    outputs: &Vec<SingleDecl>,
)
    requires
        ret_ty@.name is Some,
        views(inputs@) == vertex_inputs(map_vertex@.params),
    ensures
        final(sink)@ == old(sink)@ + vertex_text(map_vertex@, ret_ty@, views(outputs@)),
{
    let ghost start = sink@;
    sink_single_as_ext_decls(sink, inputs);
    sink_single_as_ext_decls(sink, outputs);
    let text = show_struct(ret_ty);
    push_text(sink, text.as_str());
    let map_vertex_reduced = remove_unused_args_fn(map_vertex);
    let text = show_function_definition(&map_vertex_reduced);
    push_text(sink, text.as_str());
    push_text(sink, "void main() {\n  ");
    let mut assigns = String::new();
    sink_vertex_shader_output(sink, &mut assigns, ret_ty);
    push_text(sink, " v = map_vertex(");
    sink_vertex_shader_input_args(sink, &map_vertex_reduced);
    push_text(sink, ");\n");
    push_text(sink, assigns.as_str());
    push_text(sink, "}\n\n");
    assert(sink@ =~= start + vertex_text(map_vertex@, ret_ty@, views(outputs@)));
}

/// Sinks a vertex shader: writes the source of the vertex stage behind what the sink holds,
/// and returns the struct that `map_vertex` returns with the outputs of the stage. Where it
/// fails, as `vertex_shader_outputs` does, the sink is left as it was.
#[verifier::rlimit(50)]
pub fn sink_vertex_shader(
    sink: &mut String,
    map_vertex: &FunctionDef,
    structs: &Vec<StructDef>,
) -> (res: Result<(StructDef, Vec<SingleDecl>), GLSLConversionError>)
    ensures
        match vertex_stage(map_vertex@, views(structs@)) {
            Ok(stage) => res matches Ok(found) && found.0@ == stage.ret && views(found.1@)
                == stage.outputs && final(sink)@ == old(sink)@ + stage.text,
            Err(e) => res matches Err(found) && found@ == e && final(sink)@ == old(sink)@,
        },
{
    let inputs = match vertex_shader_inputs(&map_vertex.params) {
        Ok(inputs) => inputs,
        Err(e) => {
            return Err(e);
        },
    };
    let outputs = match vertex_shader_outputs(&map_vertex.ty, structs) {
        Ok(outputs) => outputs,
        Err(e) => {
            return Err(e);
        },
    };
    let ret_ty = match get_fn_ret_ty(map_vertex, structs) {
        Ok(ret_ty) => ret_ty,
        Err(e) => {
            return Err(e);
        },
    };
    proof {
        lemma_struct_of_type_name(map_vertex@.ty.ty, views(structs@));
    }
    write_vertex_stage(sink, map_vertex, &inputs, &ret_ty, &outputs);
    Ok((ret_ty, outputs))
}

} // verus!
