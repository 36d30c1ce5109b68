//! The interface between stages: the declarations that carry the output of one stage to the
//! input of the next, and the lookups that the lowering of every stage makes.
use vstd::prelude::*;
use crate::copy::{clone_list, clone_opt, clone_stmts};
use crate::error::{GLSLConversionError, GLSLConversionErrorView};
use crate::printer::{external_declaration_text, show_external_declaration};
use crate::syntax::{
    ArrayDim, ArraySpec, Decl, Declarator, ExternalDecl, FullType, FunctionDef, InitDeclList,
    Param, Qualifier, QualifierSpec, SingleDecl, StructDef, StructField, TypeKind, TypeSpec,
};
use crate::text::{joined, push_text};
use crate::view::{
    struct_fields_view, views, ArrayDimView, ArraySpecView, DeclView, DeclaratorView,
    ExternalDeclView, FullTypeView, FunctionDefView, InitDeclListView, ParamView,
    QualifierSpecView, SingleDeclView, StructDefView, StructFieldView, Text, TypeKindView,
    TypeSpecView,
};

verus! {

/// What the lowering of a stage gives.
pub ghost struct StageView {
    /// The struct that the function of the stage returns.
    pub ret: StructDefView,
    /// The outputs that carry the fields of that struct to the next stage.
    pub outputs: Seq<SingleDeclView>,
    /// The source of the stage.
    pub text: Text,
}

/// Whether a parameter has a name.
pub fn is_fn_arg_named(arg: &Param) -> (res: bool)
    ensures
        res == (arg@ is Named),
{
    match arg {
        Param::Named(..) => true,
        Param::Unnamed(..) => false,
    }
}

/// The type of a parameter with its qualifiers.
pub open spec fn param_full_type(p: ParamView) -> FullTypeView {
    match p {
        ParamView::Named(q, t, _) => FullTypeView { qualifier: q, ty: t },
        ParamView::Unnamed(q, t) => FullTypeView { qualifier: q, ty: t },
    }
}

/// Gets the type of a parameter with its qualifiers.
pub fn fn_arg_as_fully_spec_ty(arg: &Param) -> (res: FullType)
    ensures
        res@ == param_full_type(arg@),
{
    match arg {
        Param::Named(q, t, _) => FullType { qualifier: clone_opt(q), ty: t.clone() },
        Param::Unnamed(q, t) => FullType { qualifier: clone_opt(q), ty: t.clone() },
    }
}

/// The name of a type that is given by name.
pub open spec fn name_of_type(t: FullTypeView) -> Result<Text, GLSLConversionErrorView> {
    match t.ty.kind {
        TypeKindView::Named(n) => Ok(n),
        _ => Err(GLSLConversionErrorView::NotTypeName),
    }
}

/// Gets the name of a type. Fails with `NotTypeName` where the type is not given by name.
pub fn get_ty_name_from_fully_spec_ty(fst: &FullType) -> (res: Result<
    String,
    GLSLConversionError,
>)
    ensures
        match name_of_type(fst@) {
            Ok(n) => res matches Ok(found) && found@ == n,
            Err(e) => res matches Err(found) && found@ == e,
        },
{
    match &fst.ty.kind {
        TypeKind::Named(n) => Ok(n.clone()),
        _ => Err(GLSLConversionError::NotTypeName),
    }
}

/// The name of the type of the one parameter of a function, which has a name.
pub open spec fn unary_input_name(f: FunctionDefView) -> Result<Text, GLSLConversionErrorView> {
    if f.params.len() == 1 {
        if f.params[0] is Named {
            name_of_type(param_full_type(f.params[0]))
        } else {
            Err(GLSLConversionErrorView::UnnamedInput)
        }
    } else {
        Err(GLSLConversionErrorView::WrongNumberOfArgs(1, f.params.len() as usize))
    }
}

/// Gets the name of the type of the parameter of a function of one parameter. Fails with
/// `WrongNumberOfArgs` where the function has no parameter or several, with `UnnamedInput`
/// where its parameter has no name, and with `NotTypeName` where the type of the parameter is
/// not given by name.
pub fn get_fn1_input_ty_name(f: &FunctionDef) -> (res: Result<String, GLSLConversionError>)
    ensures
        match unary_input_name(f@) {
            Ok(n) => res matches Ok(found) && found@ == n,
            Err(e) => res matches Err(found) && found@ == e,
        },
{
    if f.params.len() == 1 {
        if !is_fn_arg_named(&f.params[0]) {
            return Err(GLSLConversionError::UnnamedInput);
        }
        let fst = fn_arg_as_fully_spec_ty(&f.params[0]);
        get_ty_name_from_fully_spec_ty(&fst)
    } else {
        Err(GLSLConversionError::WrongNumberOfArgs(1, f.params.len()))
    }
}

/// The first struct of a list that has a given name.
pub open spec fn find_struct(structs: Seq<StructDefView>, name: Text) -> Option<StructDefView>
    decreases structs.len(),
{
    if structs.len() == 0 {
        None
    } else if structs[0].name == Some(name) {
        Some(structs[0])
    } else {
        find_struct(structs.drop_first(), name)
    }
}

/// The struct that a type names.
pub open spec fn struct_of_type(ty: TypeSpecView, structs: Seq<StructDefView>) -> Result<
    StructDefView,
    GLSLConversionErrorView,
> {
    match ty.kind {
        TypeKindView::Named(n) => match find_struct(structs, n) {
            Some(s) => Ok(s),
            None => Err(GLSLConversionErrorView::ReturnTypeMustBeAStruct(ty)),
        },
        _ => Err(GLSLConversionErrorView::ReturnTypeMustBeAStruct(ty)),
    }
}

/// Gets the definition of the struct that a type names. Fails with `ReturnTypeMustBeAStruct`
/// where the type is not given by name or no struct of the list has that name.
pub fn struct_from_ty_spec(ty: &TypeSpec, structs: &Vec<StructDef>) -> (res: Result<
    StructDef,
    GLSLConversionError,
>)
    ensures
        match struct_of_type(ty@, views(structs@)) {
            Ok(s) => res matches Ok(found) && found@ == s,
            Err(e) => res matches Err(found) && found@ == e,
        },
{
    match &ty.kind {
        TypeKind::Named(n) => {
            let ghost all = views(structs@);
            let mut i: usize = 0;
            assert(all.subrange(0, all.len() as int) =~= all);
            while i < structs.len()
                invariant
                    i <= structs.len(),
                    all == views(structs@),
                    ty@.kind == TypeKindView::Named(n@),
                    find_struct(all, n@) == find_struct(
                        all.subrange(i as int, all.len() as int),
                        n@,
                    ),
                decreases structs.len() - i,
            {
                let ghost rest = all.subrange(i as int, all.len() as int);
                assert(rest[0] == structs@[i as int]@);
                assert(rest.drop_first() =~= all.subrange(i + 1, all.len() as int));
                let found = match &structs[i].name {
                    Some(name) => *name == *n,
                    None => false,
                };
                if found {
                    return Ok(structs[i].clone());
                }
                i = i + 1;
            }
            assert(all.subrange(i as int, all.len() as int).len() == 0);
            Err(GLSLConversionError::ReturnTypeMustBeAStruct(ty.clone()))
        },
        _ => Err(GLSLConversionError::ReturnTypeMustBeAStruct(ty.clone())),
    }
}

/// Gets the definition of the struct that a function returns.
pub fn get_fn_ret_ty(f: &FunctionDef, structs: &Vec<StructDef>) -> (res: Result<
    StructDef,
    GLSLConversionError,
>)
    ensures
        match struct_of_type(f@.ty.ty, views(structs@)) {
            Ok(s) => res matches Ok(found) && found@ == s,
            Err(e) => res matches Err(found) && found@ == e,
        },
{
    struct_from_ty_spec(&f.ty.ty, structs)
}

/// The fields of a struct after the first.
pub open spec fn fields_after_first(fields: Seq<StructFieldView>) -> Seq<StructFieldView> {
    if fields.len() == 0 {
        fields
    } else {
        fields.drop_first()
    }
}

/// A struct without its first field.
pub open spec fn without_first_field(s: StructDefView) -> StructDefView {
    StructDefView { name: s.name, fields: fields_after_first(s.fields) }
}

/// Drops the first field of a struct.
pub fn drop_first_field(s: &StructDef) -> (res: StructDef)
    ensures
        res@ == without_first_field(s@),
{
    let mut fields: Vec<StructField> = Vec::new();
    if s.fields.len() > 0 {
        let mut i: usize = 1;
        while i < s.fields.len()
            invariant
                1 <= i <= s.fields.len(),
                fields@.len() == i - 1,
                forall|j: int| 0 <= j < fields@.len() ==> fields@[j]@ == s.fields@[j + 1]@,
            decreases s.fields.len() - i,
        {
            fields.push(s.fields[i].clone());
            i = i + 1;
        }
    }
    let res = StructDef { name: clone_opt(&s.name), fields };
    assert(res@.fields =~= fields_after_first(s@.fields));
    res
}

/// The parameters that have a name, in order.
pub open spec fn named_params(params: Seq<ParamView>) -> Seq<ParamView>
    decreases params.len(),
{
    if params.len() == 0 {
        Seq::empty()
    } else if params.last() is Named {
        named_params(params.drop_last()).push(params.last())
    } else {
        named_params(params.drop_last())
    }
}

/// A function without its parameters that have no name.
pub open spec fn without_unused_args(f: FunctionDefView) -> FunctionDefView {
    FunctionDefView { ty: f.ty, name: f.name, params: named_params(f.params), body: f.body }
}

/// Removes from a function the parameters that have no name.
pub fn remove_unused_args_fn(f: &FunctionDef) -> (res: FunctionDef)
    ensures
        res@ == without_unused_args(f@),
{
    let mut params: Vec<Param> = Vec::new();
    let mut i: usize = 0;
    let ghost all = views(f.params@);
    assert(all.subrange(0, 0) =~= Seq::<ParamView>::empty());
    assert(views(params@) =~= Seq::<ParamView>::empty());
    while i < f.params.len()
        invariant
            i <= f.params.len(),
            all == views(f.params@),
            views(params@) == named_params(all.subrange(0, i as int)),
        decreases f.params.len() - i,
    {
        let ghost before = all.subrange(0, i as int);
        let ghost after = all.subrange(0, i + 1);
        assert(after.drop_last() =~= before);
        assert(after.last() == f.params@[i as int]@);
        if is_fn_arg_named(&f.params[i]) {
            let ghost kept = views(params@);
            params.push(f.params[i].clone());
            assert(views(params@) =~= kept.push(f.params@[i as int]@));
        }
        i = i + 1;
    }
    assert(all.subrange(0, i as int) =~= all);
    FunctionDef {
        ty: f.ty.clone(),
        name: f.name.clone(),
        params,
        body: clone_stmts(&f.body),
    }
}

/// The output declaration of one name of a field: the type of the field, its qualifiers
/// followed by `out`, and the name behind the prefix, with the array dimensions of that name.
pub open spec fn name_output(
    field: StructFieldView,
    name: DeclaratorView,
    prefix: Text,
) -> SingleDeclView {
    SingleDeclView {
        ty: FullTypeView {
            qualifier: Some(
                match field.qualifier {
                    Some(q) => q.push(QualifierSpecView::Out),
                    None => seq![QualifierSpecView::Out],
                },
            ),
            ty: field.ty,
        },
        name: Some(prefix + name.name),
        array: name.array,
        initializer: None,
    }
}

/// The output declarations of a field: one for each of its names, in order.
pub open spec fn names_outputs(field: StructFieldView, prefix: Text) -> Seq<SingleDeclView> {
    Seq::new(
        field.identifiers.len(),
        |k: int| name_output(field, field.identifiers[k], prefix),
    )
}

/// Maps one name of a field of a struct to the output declaration that carries it.
pub fn field_to_single_decl(field: &StructField, name: &Declarator, prefix: &str) -> (res:
    SingleDecl)
    ensures
        res@ == name_output(field@, name@, prefix@),
{
    let qualifier = match &field.qualifier {
        Some(q) => {
            let mut rest = clone_list(&q.rest);
            let ghost before = views(rest@);
            rest.push(QualifierSpec::Out);
            assert(views(rest@) =~= before.push(QualifierSpecView::Out));
            let res = Qualifier { first: q.first.clone(), rest };
            assert(res@ =~= q@.push(QualifierSpecView::Out));
            res
        },
        None => {
            let res = Qualifier { first: QualifierSpec::Out, rest: Vec::new() };
            assert(res@ =~= seq![QualifierSpecView::Out]);
            res
        },
    };
    SingleDecl {
        ty: FullType { qualifier: Some(qualifier), ty: field.ty.clone() },
        name: Some(joined(prefix, name.name.as_str())),
        array: clone_opt(&name.array),
        initializer: None,
    }
}

/// Adds to a list the output declarations of a field.
fn push_field_outputs(outputs: &mut Vec<SingleDecl>, field: &StructField, prefix: &str)
    ensures
        views(final(outputs)@) == views(old(outputs)@) + names_outputs(field@, prefix@),
{
    let ghost start = views(outputs@);
    let ghost all = names_outputs(field@, prefix@);
    outputs.push(field_to_single_decl(field, &field.first, prefix));
    assert(field@.identifiers[0] == field.first@);
    assert(views(outputs@) =~= start + all.subrange(0, 1));
    let mut i: usize = 0;
    while i < field.rest.len()
        invariant
            i <= field.rest.len(),
            all == names_outputs(field@, prefix@),
            all.len() == field.rest.len() + 1,
            views(outputs@) == start + all.subrange(0, i + 1),
        decreases field.rest.len() - i,
    {
        let ghost before = views(outputs@);
        assert(field@.identifiers[i + 1] == field.rest@[i as int]@);
        outputs.push(field_to_single_decl(field, &field.rest[i], prefix));
        assert(views(outputs@) =~= before.push(all[i + 1]));
        assert(views(outputs@) =~= start + all.subrange(0, i + 2));
        i = i + 1;
    }
    assert(all.subrange(0, i + 1) =~= all);
}

/// What stands against a field as an output: nothing, or the error it gives at a position.
pub open spec fn field_refusal(field: StructFieldView, position: usize) -> Option<
    GLSLConversionErrorView,
> {
    match field.ty.kind {
        TypeKindView::Struct(_) => Some(
            GLSLConversionErrorView::OutputFieldCannotBeStruct(position),
        ),
        TypeKindView::Named(n) => Some(
            GLSLConversionErrorView::OutputFieldCannotBeTypeName(position, n),
        ),
        _ => None,
    }
}

/// The output declarations of the fields of a struct, one for each name of each field in
/// order; or the error of the first field that is of a struct type. Positions count from
/// one.
pub open spec fn fields_outputs(fields: Seq<StructFieldView>, prefix: Text) -> Result<
    Seq<SingleDeclView>,
    GLSLConversionErrorView,
>
    decreases fields.len(),
{
    if fields.len() == 0 {
        Ok(Seq::empty())
    } else {
        match fields_outputs(fields.drop_last(), prefix) {
            Err(e) => Err(e),
            Ok(outputs) => match field_refusal(fields.last(), fields.len() as usize) {
                Some(e) => Err(e),
                None => Ok(outputs + names_outputs(fields.last(), prefix)),
            },
        }
    }
}

/// The output declarations of fields: those of each field, one field after the other.
pub open spec fn all_outputs(fields: Seq<StructFieldView>, prefix: Text) -> Seq<SingleDeclView>
    decreases fields.len(),
{
    if fields.len() == 0 {
        Seq::empty()
    } else {
        all_outputs(fields.drop_last(), prefix) + names_outputs(fields.last(), prefix)
    }
}

/// Where the fields of a struct can be outputs, there is one output for each name of each
/// field, in order. Every output has a name, and `out` is the last of its qualifiers.
pub proof fn lemma_fields_outputs_all(fields: Seq<StructFieldView>, prefix: Text)
    requires
        fields_outputs(fields, prefix) is Ok,
    ensures
        fields_outputs(fields, prefix)->Ok_0 == all_outputs(fields, prefix),
        forall|i: int|
            0 <= i < all_outputs(fields, prefix).len() ==> {
                let output = #[trigger] all_outputs(fields, prefix)[i];
                &&& output.name is Some
                &&& output.ty.qualifier is Some
                &&& output.ty.qualifier->0.len() > 0
                &&& output.ty.qualifier->0.last() == QualifierSpecView::Out
            },
    decreases fields.len(),
{
    if fields.len() > 0 {
        lemma_fields_outputs_all(fields.drop_last(), prefix);
        let front = all_outputs(fields.drop_last(), prefix);
        let last = names_outputs(fields.last(), prefix);
        assert forall|i: int| 0 <= i < all_outputs(fields, prefix).len() implies {
            let output = #[trigger] all_outputs(fields, prefix)[i];
            &&& output.name is Some
            &&& output.ty.qualifier is Some
            &&& output.ty.qualifier->0.len() > 0
            &&& output.ty.qualifier->0.last() == QualifierSpecView::Out
        } by {
            if i < front.len() {
                assert(all_outputs(fields, prefix)[i] == front[i]);
            } else {
                assert(all_outputs(fields, prefix)[i] == last[i - front.len()]);
            }
        }
    }
}

/// The fields of a list from a position on; none where the list is shorter.
pub open spec fn fields_from(fields: Seq<StructFieldView>, from: usize) -> Seq<
    StructFieldView,
> {
    if from <= fields.len() {
        fields.subrange(from as int, fields.len() as int)
    } else {
        Seq::empty()
    }
}

/// Maps the fields of a struct, from the field at `from` on, to the output declarations that
/// carry them, one for each name. Fails where a field has a struct type: with
/// `OutputFieldCannotBeStruct` for a struct defined in place and with
/// `OutputFieldCannotBeTypeName` for a type given by name.
pub fn fields_to_single_decls(fields: &Vec<StructField>, from: usize, prefix: &str) -> (res:
    Result<Vec<SingleDecl>, GLSLConversionError>)
    ensures
        match fields_outputs(fields_from(struct_fields_view(fields@), from), prefix@) {
            Ok(outputs) => res matches Ok(found) && views(found@) == outputs,
            Err(e) => res matches Err(found) && found@ == e,
        },
{
    let ghost all = fields_from(struct_fields_view(fields@), from);
    let mut outputs: Vec<SingleDecl> = Vec::new();
    assert(views(outputs@) =~= Seq::<SingleDeclView>::empty());
    if from > fields.len() {
        return Ok(outputs);
    }
    let mut i: usize = from;
    assert(all.subrange(0, 0) =~= Seq::<StructFieldView>::empty());
    while i < fields.len()
        invariant
            from <= i <= fields.len(),
            all == struct_fields_view(fields@).subrange(from as int, fields.len() as int),
            fields_outputs(all.subrange(0, i - from), prefix@) == Ok::<
                Seq<SingleDeclView>,
                GLSLConversionErrorView,
            >(views(outputs@)),
        decreases fields.len() - i,
    {
        let ghost before = all.subrange(0, i - from);
        let ghost after = all.subrange(0, i - from + 1);
        assert(after.drop_last() =~= before);
        assert(after.last() == fields@[i as int]@);
        match &fields[i].ty.kind {
            TypeKind::Struct(_) => {
                proof {
                    lemma_fields_outputs_prefix(all, after.len() as int, prefix@);
                }
                return Err(GLSLConversionError::OutputFieldCannotBeStruct(i - from + 1));
            },
            TypeKind::Named(n) => {
                proof {
                    lemma_fields_outputs_prefix(all, after.len() as int, prefix@);
                }
                return Err(
                    GLSLConversionError::OutputFieldCannotBeTypeName(i - from + 1, n.clone()),
                );
            },
            _ => {},
        }
        push_field_outputs(&mut outputs, &fields[i], prefix);
        i = i + 1;
    }
    assert(all.subrange(0, i - from) =~= all);
    Ok(outputs)
}

/// An error among the first fields is the error of the whole list.
pub proof fn lemma_fields_outputs_prefix(fields: Seq<StructFieldView>, n: int, prefix: Text)
    requires
        0 <= n <= fields.len(),
        fields_outputs(fields.subrange(0, n), prefix) is Err,
    ensures
        fields_outputs(fields, prefix) == fields_outputs(fields.subrange(0, n), prefix),
    decreases fields.len(),
{
    if n == fields.len() {
        assert(fields.subrange(0, n) =~= fields);
    } else {
        assert(fields.drop_last().subrange(0, n) =~= fields.subrange(0, n));
        lemma_fields_outputs_prefix(fields.drop_last(), n, prefix);
    }
}

/// A qualifier where `in` stands for `out`.
pub open spec fn swap_out(q: QualifierSpecView) -> QualifierSpecView {
    if q is Out {
        QualifierSpecView::In
    } else {
        q
    }
}

/// The dimensions of a type, where it has any.
pub open spec fn type_dims(ty: TypeSpecView) -> Seq<ArrayDimView> {
    match ty.array {
        Some(a) => a.dims,
        None => Seq::empty(),
    }
}

/// The type of the input that takes what an output of a type gives: the type itself, or
/// where `has_array` the unsized array of it, which has one dimension without size before
/// the dimensions of the type.
pub open spec fn input_type(ty: TypeSpecView, has_array: bool) -> TypeSpecView {
    if has_array {
        TypeSpecView {
            kind: ty.kind,
            array: Some(ArraySpecView { dims: seq![ArrayDimView::Unsized] + type_dims(ty) }),
        }
    } else {
        ty
    }
}

/// The input that takes what an output gives: `in` stands for `out`, and the type is that
/// of the output, or where `has_array` the unsized array of it. The name, its dimensions and
/// the initial value are those of the output.
pub open spec fn as_input(output: SingleDeclView, has_array: bool) -> SingleDeclView {
    SingleDeclView {
        ty: FullTypeView {
            qualifier: match output.ty.qualifier {
                Some(q) => Some(Seq::new(q.len(), |i: int| swap_out(q[i]))),
                None => None,
            },
            ty: input_type(output.ty.ty, has_array),
        },
        name: output.name,
        array: output.array,
        initializer: output.initializer,
    }
}

/// An input differs from the output it takes in its qualifiers alone, where `in` stands for
/// `out`: the type with its dimensions, the name with its dimensions and the initial value
/// are those of the output. Taken as an array, it has the type of the output behind one
/// dimension without size.
pub proof fn law_input_keeps_type(output: SingleDeclView)
    ensures
        as_input(output, false) == (SingleDeclView {
            ty: FullTypeView { qualifier: as_input(output, false).ty.qualifier, ..output.ty },
            ..output
        }),
        as_input(output, true).ty.ty.kind == output.ty.ty.kind,
        as_input(output, true).ty.ty.array == Some(
            ArraySpecView { dims: seq![ArrayDimView::Unsized] + type_dims(output.ty.ty) },
        ),
        as_input(output, true).name == output.name,
        as_input(output, true).array == output.array,
        forall|has_array: bool|
            output.ty.qualifier matches Some(q) ==> {
                &&& #[trigger] as_input(output, has_array).ty.qualifier matches Some(swapped)
                &&& swapped.len() == q.len()
                &&& forall|i: int| 0 <= i < q.len() ==> swapped[i] == swap_out(q[i])
            },
{
}

/// Copies a qualifier, with `in` for `out`.
fn swapped(q: &QualifierSpec) -> (res: QualifierSpec)
    ensures
        res@ == swap_out(q@),
{
    match q {
        QualifierSpec::Out => QualifierSpec::In,
        _ => q.clone(),
    }
}

/// Makes the type of the input that takes what an output of a type gives.
fn input_type_of(ty: &TypeSpec, has_array: bool) -> (res: TypeSpec)
    ensures
        res@ == input_type(ty@, has_array),
{
    if !has_array {
        return ty.clone();
    }
    let mut dims: Vec<ArrayDim> = Vec::new();
    dims.push(ArrayDim::Unsized);
    match &ty.array {
        Some(a) => {
            let mut i: usize = 0;
            while i < a.dims.len()
                invariant
                    i <= a.dims.len(),
                    dims@.len() == i + 1,
                    dims@[0]@ == ArrayDimView::Unsized,
                    forall|j: int| 0 <= j < i ==> dims@[j + 1]@ == a.dims@[j]@,
                decreases a.dims.len() - i,
            {
                dims.push(a.dims[i].clone());
                i = i + 1;
            }
        },
        None => {},
    }
    let res = TypeSpec { kind: ty.kind.clone(), array: Some(ArraySpec { dims }) };
    assert(res@.array->0.dims =~= seq![ArrayDimView::Unsized] + type_dims(ty@));
    res
}

/// Replaces an output declaration by the input declaration that matches it.
pub fn input_from_output(output: &SingleDecl, has_array: bool) -> (res: SingleDecl)
    ensures
        res@ == as_input(output@, has_array),
{
    let qualifier = match &output.ty.qualifier {
        Some(q) => {
            let mut rest: Vec<QualifierSpec> = Vec::new();
            let mut i: usize = 0;
            while i < q.rest.len()
                invariant
                    i <= q.rest.len(),
                    rest@.len() == i,
                    forall|j: int| 0 <= j < i ==> rest@[j]@ == swap_out(q.rest@[j]@),
                decreases q.rest.len() - i,
            {
                rest.push(swapped(&q.rest[i]));
                i = i + 1;
            }
            let res = Qualifier { first: swapped(&q.first), rest };
            assert(res@ =~= Seq::new(q@.len(), |i: int| swap_out(q@[i])));
            Some(res)
        },
        None => None,
    };
    SingleDecl {
        ty: FullType { qualifier, ty: input_type_of(&output.ty.ty, has_array) },
        name: clone_opt(&output.name),
        array: clone_opt(&output.array),
        initializer: clone_opt(&output.initializer),
    }
}

/// The inputs that take what a list of outputs gives, in order.
pub open spec fn as_inputs(outputs: Seq<SingleDeclView>, has_array: bool) -> Seq<
    SingleDeclView,
> {
    Seq::new(outputs.len(), |i: int| as_input(outputs[i], has_array))
}

/// Replaces outputs by inputs.
pub fn inputs_from_outputs(outputs: &Vec<SingleDecl>, has_array: bool) -> (res: Vec<
    SingleDecl,
>)
    ensures
        views(res@) == as_inputs(views(outputs@), has_array),
{
    let mut inputs: Vec<SingleDecl> = Vec::new();
    let mut i: usize = 0;
    while i < outputs.len()
        invariant
            i <= outputs.len(),
            inputs@.len() == i,
            forall|j: int| 0 <= j < i ==> inputs@[j]@ == as_input(outputs@[j]@, has_array),
        decreases outputs.len() - i,
    {
        inputs.push(input_from_output(&outputs[i], has_array));
        i = i + 1;
    }
    assert(views(inputs@) =~= as_inputs(views(outputs@), has_array));
    inputs
}

/// A declaration of one name as a declaration at the top level.
pub open spec fn as_external(d: SingleDeclView) -> ExternalDeclView {
    ExternalDeclView::Declaration(
        DeclView::Vars(InitDeclListView { head: d, tail: Seq::empty() }),
    )
}

/// Turns a declaration of one name into a declaration at the top level.
pub fn single_to_external_declaration(d: SingleDecl) -> (res: ExternalDecl)
    ensures
        res@ == as_external(d@),
{
    let list = InitDeclList { head: d, tail: Vec::new() };
    assert(list@.tail =~= Seq::empty());
    ExternalDecl::Declaration(Decl::Vars(list))
}

/// The text of declarations of one name, each written as a declaration at the top level.
pub open spec fn declarations_text(decls: Seq<SingleDeclView>) -> Text
    decreases decls.len(),
{
    if decls.len() == 0 {
        Seq::empty()
    } else {
        declarations_text(decls.drop_last()) + external_declaration_text(
            as_external(decls.last()),
        )
    }
}

/// Writes declarations of one name as declarations at the top level.
pub fn sink_single_as_ext_decls(sink: &mut String, decls: &Vec<SingleDecl>)
    ensures
        final(sink)@ == old(sink)@ + declarations_text(views(decls@)),
{
    let ghost start = sink@;
    let ghost all = views(decls@);
    let mut i: usize = 0;
    assert(all.subrange(0, 0) =~= Seq::<SingleDeclView>::empty());
    assert(start + Seq::<char>::empty() =~= start);
    while i < decls.len()
        invariant
            i <= decls.len(),
            all == views(decls@),
            sink@ == start + declarations_text(all.subrange(0, i as int)),
        decreases decls.len() - i,
    {
        let ghost before = all.subrange(0, i as int);
        let ghost after = all.subrange(0, i + 1);
        assert(after.drop_last() =~= before);
        assert(after.last() == decls@[i as int]@);
        let external = single_to_external_declaration(decls[i].clone());
        let text = show_external_declaration(&external);
        push_text(sink, text.as_str());
        assert(sink@ =~= start + declarations_text(after));
        i = i + 1;
    }
    assert(all.subrange(0, i as int) =~= all);
}

} // verus!
