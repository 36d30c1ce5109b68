//! The geometry stage, lowered from the `concat_map_prim` function of a module.
//!
//! The function takes an array of vertices, whose dimension names the input primitive, and a
//! parameter that only describes the output: its type is the struct of the vertices that the
//! stage emits, and its qualifier gives the output primitive and the number of vertices. In
//! the body, `yield_vertex` and `yield_primitive` stand for the emission of a vertex and the
//! end of a primitive.
use vstd::prelude::*;

use crate::error::{GLSLConversionError, GLSLConversionErrorView};
use crate::interface::{
    as_inputs, declarations_text, fields_outputs, fields_to_single_decls,
    fn_arg_as_fully_spec_ty, get_ty_name_from_fully_spec_ty, inputs_from_outputs, name_of_type,
    param_full_type, sink_single_as_ext_decls, struct_from_ty_spec, struct_of_type, StageView,
};
use crate::printer::{
    external_declaration_text, function_definition_text, show_external_declaration,
    show_function_definition, show_statement, show_struct, statement_text, struct_text,
};
use crate::syntax::{
    ArrayDim, ArraySpec, Callee, Decl, Declarator, Expression, ExternalDecl, FullType,
    FunctionDef, InitDeclList, InitialValue, Layout, LayoutId, Param, Qualifier, QualifierSpec,
    SingleDecl, Stmt, StructDef, StructField, TypeKind, TypeSpec,
};
use crate::text::{joined, push_text, same_text};
use crate::vertex::lemma_struct_of_type_name;
use crate::view::{
    array_dim_view, array_spec_view, callee_view, expression_view, expressions_view,
    stmts_view, view_opt, views, ArrayDimView, ArraySpecView, CalleeView,
    DeclView, DeclaratorView, ExpressionView, ExternalDeclView, FullTypeView, FunctionDefView,
    InitDeclListView, InitialValueView, LayoutIdView, ParamView, QualifierSpecView,
    QualifierView, SingleDeclView, StmtView, StructDefView, StructFieldView, Text,
    TypeKindView, TypeSpecView,
};

verus! {

/// The input primitive that a number of vertices names.
pub open spec fn input_primitive(size: i32) -> Option<Text> {
    if size == 1 {
        Some("points"@)
    } else if size == 2 {
        Some("lines"@)
    } else if size == 3 {
        Some("triangles"@)
    } else if size == 4 {
        Some("lines_adjacency"@)
    } else if size == 6 {
        Some("triangles_adjacency"@)
    } else {
        None
    }
}

/// The size of an array that has one dimension, given by an integer literal.
pub open spec fn literal_size(array: Option<ArraySpecView>) -> Option<i32> {
    match array {
        Some(a) => if a.dims.len() == 1 {
            match a.dims[0] {
                ArrayDimView::Sized(e) => match *e {
                    ExpressionView::IntConst(size) => Some(size),
                    _ => None,
                },
                ArrayDimView::Unsized => None,
            }
        } else {
            None
        },
        None => None,
    }
}

/// The number of vertices of the input primitive and the layout that names it.
pub open spec fn gs_input_prim(array: Option<ArraySpecView>) -> Result<
    (usize, Seq<LayoutIdView>),
    GLSLConversionErrorView,
> {
    match literal_size(array) {
        Some(size) => match input_primitive(size) {
            Some(name) => Ok((size as usize, seq![LayoutIdView::Named(name, None)])),
            None => Err(GLSLConversionErrorView::WrongGeometryInputDim(size as usize)),
        },
        None => Err(GLSLConversionErrorView::WrongGeometryInput),
    }
}

/// A layout that holds one name.
fn layout_of(name: &str) -> (res: Layout)
    ensures
        res@ == seq![LayoutIdView::Named(name@, None)],
{
    let res = Layout { first: LayoutId::Named(name.to_owned(), None), rest: Vec::new() };
    assert(res@ =~= seq![LayoutIdView::Named(name@, None)]);
    res
}

/// Gets the size of an array of one dimension that an integer literal gives.
fn get_literal_size(array: &Option<ArraySpec>) -> (res: Option<i32>)
    ensures
        res == literal_size(view_opt(*array)),
{
    match array {
        Some(a) => {
            if a.dims.len() == 1 {
                assert(a@.dims[0] == a.dims@[0]@);
                match &a.dims[0] {
                    ArrayDim::Sized(e) => match &**e {
                        Expression::IntConst(size) => Some(*size),
                        _ => None,
                    },
                    ArrayDim::Unsized => None,
                }
            } else {
                None
            }
        },
        None => None,
    }
}

/// Tells the input primitive from the dimension of the vertex array: 1 for points, 2 for
/// lines, 3 for triangles, 4 for lines with adjacency and 6 for triangles with adjacency.
///
/// Fails with `WrongGeometryInput` where the array has no single dimension that an integer
/// literal gives, and with `WrongGeometryInputDim` where the literal is another number.
pub fn guess_gs_input_prim(array_specifier: &Option<ArraySpec>) -> (res: Result<
    (usize, Layout),
    GLSLConversionError,
>)
    ensures
        match gs_input_prim(view_opt(*array_specifier)) {
            Ok(prim) => res matches Ok(found) && found.0 == prim.0 && found.1@ == prim.1,
            Err(e) => res matches Err(found) && found@ == e,
        },
{
    match get_literal_size(array_specifier) {
        Some(size) => {
            if size == 1 {
                Ok((1, layout_of("points")))
            } else if size == 2 {
                Ok((2, layout_of("lines")))
            } else if size == 3 {
                Ok((3, layout_of("triangles")))
            } else if size == 4 {
                Ok((4, layout_of("lines_adjacency")))
            } else if size == 6 {
                Ok((6, layout_of("triangles_adjacency")))
            } else {
                Err(
                    GLSLConversionError::WrongGeometryInputDim(
                        #[verifier::truncate]
                        (size as usize),
                    ),
                )
            }
        },
        None => Err(GLSLConversionError::WrongGeometryInput),
    }
}

/// The bare declaration `layout (...) storage;`.
pub open spec fn layout_declaration(
    layout: Seq<LayoutIdView>,
    storage: QualifierSpecView,
) -> ExternalDeclView {
    ExternalDeclView::Declaration(
        DeclView::Global(seq![QualifierSpecView::Layout(layout), storage], Seq::empty()),
    )
}

/// Builds the bare declaration that gives a layout to the inputs or to the outputs of the
/// geometry stage.
pub fn gs_layout_storage_external_decl(layout: Layout, storage: QualifierSpec) -> (res:
    ExternalDecl)
    ensures
        res@ == layout_declaration(layout@, storage@),
{
    let mut rest: Vec<QualifierSpec> = Vec::new();
    rest.push(storage);
    let qualifier = Qualifier { first: QualifierSpec::Layout(layout), rest };
    assert(qualifier@ =~= seq![QualifierSpecView::Layout(layout@), storage@]);
    let names: Vec<String> = Vec::new();
    assert(views(names@) =~= Seq::<Text>::empty());
    ExternalDecl::Declaration(Decl::Global(qualifier, names))
}

/// Whether a name is that of an output primitive.
pub open spec fn is_output_primitive(s: Text) -> bool {
    s == "points"@ || s == "line_strip"@ || s == "triangle_strip"@
}

/// Tells whether a name is that of an output primitive: `points`, `line_strip` or
/// `triangle_strip`.
pub fn check_gs_output_prim(s: &str) -> (res: bool)
    ensures
        res == is_output_primitive(s@),
{
    same_text(s, "points") || same_text(s, "line_strip") || same_text(s, "triangle_strip")
}

/// Whether the identifiers of a layout are an output primitive and `max_vertices` with an
/// integer literal.
pub open spec fn is_output_layout(ids: Seq<LayoutIdView>) -> bool {
    &&& ids.len() == 2
    &&& ids[0] matches LayoutIdView::Named(prim, None)
    &&& is_output_primitive(prim)
    &&& ids[1] matches LayoutIdView::Named(name, Some(ExpressionView::IntConst(_)))
    &&& name == "max_vertices"@
}

/// The layout of the output of the geometry stage, from the qualifiers of the second
/// parameter of `concat_map_prim`, which are `layout (primitive, max_vertices = N) out`.
pub open spec fn gs_output_layout(q: Option<QualifierView>) -> Result<
    Seq<LayoutIdView>,
    GLSLConversionErrorView,
> {
    match q {
        None => Err(GLSLConversionErrorView::WrongGeometryOutputLayout(None)),
        Some(q) => {
            if q.len() == 2 && q[1] == QualifierSpecView::Out {
                match q[0] {
                    QualifierSpecView::Layout(ids) => if is_output_layout(ids) {
                        Ok(ids)
                    } else {
                        Err(GLSLConversionErrorView::WrongGeometryOutputLayout(Some(q)))
                    },
                    _ => Err(GLSLConversionErrorView::WrongGeometryOutputLayout(Some(q))),
                }
            } else {
                Err(GLSLConversionErrorView::WrongGeometryOutputLayout(Some(q)))
            }
        },
    }
}

/// Tells whether the identifiers of a layout are an output primitive and `max_vertices`
/// with an integer literal.
fn check_output_layout(layout: &Layout) -> (res: bool)
    ensures
        res == is_output_layout(layout@),
{
    if layout.rest.len() != 1 {
        return false;
    }
    assert(layout@[0] == layout.first@);
    assert(layout@[1] == layout.rest@[0]@);
    let prim = match &layout.first {
        LayoutId::Named(prim, None) => check_gs_output_prim(prim.as_str()),
        _ => false,
    };
    let max = match &layout.rest[0] {
        LayoutId::Named(name, Some(e)) => match &**e {
            Expression::IntConst(_) => same_text(name.as_str(), "max_vertices"),
            _ => false,
        },
        _ => false,
    };
    prim && max
}

/// Gets the layout of the output of the geometry stage. Fails with
/// `WrongGeometryOutputLayout` where the qualifiers are not
/// `layout (primitive, max_vertices = N) out`, with `points`, `line_strip` or
/// `triangle_strip` for the primitive and an integer literal for the number.
pub fn get_gs_output_layout_metadata(qual: &Option<Qualifier>) -> (res: Result<
    Layout,
    GLSLConversionError,
>)
    ensures
        match gs_output_layout(view_opt(*qual)) {
            Ok(layout) => res matches Ok(found) && found@ == layout,
            Err(e) => res matches Err(found) && found@ == e,
        },
{
    match qual {
        None => Err(GLSLConversionError::WrongGeometryOutputLayout(None)),
        Some(q) => {
            if q.rest.len() == 1 {
                assert(q@[0] == q.first@);
                assert(q@[1] == q.rest@[0]@);
                if let QualifierSpec::Out = q.rest[0] {
                    if let QualifierSpec::Layout(layout) = &q.first {
                        if check_output_layout(layout) {
                            return Ok(layout.clone());
                        }
                    }
                }
            }
            Err(GLSLConversionError::WrongGeometryOutputLayout(Some(q.clone())))
        },
    }
}

/// The statement that calls a function without argument.
pub open spec fn call_statement(name: Text) -> StmtView {
    StmtView::Expression(Some(ExpressionView::Call(CalleeView::Name(name), Seq::empty())))
}

/// Builds the statement that calls a function without argument.
fn call_without_argument(name: &str) -> (res: Stmt)
    ensures
        res@ == call_statement(name@),
{
    proof {
        reveal_with_fuel(expression_view, 4);
        reveal_with_fuel(callee_view, 4);
        reveal_with_fuel(array_spec_view, 4);
        reveal_with_fuel(array_dim_view, 4);
    }
    let args: Vec<Expression> = Vec::new();
    assert(expressions_view(args@) =~= Seq::<ExpressionView>::empty());
    Stmt::Expression(Some(Expression::Call(Callee::Name(name.to_owned()), args)))
}

/// The declaration `type name = value;`, with optional dimensions behind the type.
pub open spec fn binding_statement(
    ty_name: Text,
    dims: Option<ArraySpecView>,
    name: Text,
    value: ExpressionView,
) -> StmtView {
    StmtView::Declaration(
        DeclView::Vars(
            InitDeclListView {
                head: SingleDeclView {
                    ty: FullTypeView {
                        qualifier: None,
                        ty: TypeSpecView { kind: TypeKindView::Named(ty_name), array: dims },
                    },
                    name: Some(name),
                    array: None,
                    initializer: Some(InitialValueView::Simple(value)),
                },
                tail: Seq::empty(),
            },
        ),
    )
}

/// Builds the declaration `type name = value;`.
fn bind(ty_name: &str, dims: Option<ArraySpec>, name: &str, value: Expression) -> (res: Stmt)
    ensures
        res@ == binding_statement(ty_name@, view_opt(dims), name@, value@),
{
    let head = SingleDecl {
        ty: FullType {
            qualifier: None,
            ty: TypeSpec { kind: TypeKind::Named(ty_name.to_owned()), array: dims },
        },
        name: Some(name.to_owned()),
        array: None,
        initializer: Some(InitialValue::Simple(value)),
    };
    let list = InitDeclList { head, tail: Vec::new() };
    assert(list@.tail =~= Seq::empty());
    Stmt::Declaration(Decl::Vars(list))
}

/// The statement that gives to the output of a field the field of the vertex bound to
/// `chdr_v`.
pub open spec fn yield_assign(field_name: Text) -> StmtView {
    StmtView::Expression(
        Some(
            ExpressionView::Assign(
                Box::new(ExpressionView::Variable("chdr_g_"@ + field_name)),
                Box::new(
                    ExpressionView::Dot(
                        Box::new(ExpressionView::Variable("chdr_v"@)),
                        field_name,
                    ),
                ),
            ),
        ),
    )
}

/// The assignments of the names of one field line.
pub open spec fn names_yield_assigns(identifiers: Seq<DeclaratorView>) -> Seq<StmtView>
    decreases identifiers.len(),
{
    if identifiers.len() == 0 {
        Seq::empty()
    } else {
        names_yield_assigns(identifiers.drop_last()).push(
            yield_assign(identifiers.last().name),
        )
    }
}

/// The assignments of the names of field lines.
pub open spec fn fields_yield_assigns(fields: Seq<StructFieldView>) -> Seq<StmtView>
    decreases fields.len(),
{
    if fields.len() == 0 {
        Seq::empty()
    } else {
        fields_yield_assigns(fields.drop_last()) + names_yield_assigns(
            fields.last().identifiers,
        )
    }
}

/// What `yield_vertex(e)` becomes: a block that binds `e` to `chdr_v`, gives every field of
/// it to the output of that field, and emits the vertex.
pub open spec fn yielded_vertex(args: Seq<ExpressionView>, out_ty: StructDefView) -> Result<
    StmtView,
    GLSLConversionErrorView,
> {
    if args.len() == 1 {
        Ok(
            StmtView::Compound(
                seq![binding_statement(out_ty.name->0, None, "chdr_v"@, args[0])]
                    + fields_yield_assigns(out_ty.fields) + seq![call_statement("EmitVertex"@)],
            ),
        )
    } else {
        Err(GLSLConversionErrorView::WrongNumberOfArgs(1, args.len() as usize))
    }
}

/// Adds the assignment of one name.
fn push_yield_assign(list: &mut Vec<Stmt>, d: &Declarator)
    ensures
        stmts_view(final(list)@) == stmts_view(old(list)@).push(yield_assign(d@.name)),
{
    proof {
        reveal_with_fuel(expression_view, 4);
        reveal_with_fuel(callee_view, 4);
        reveal_with_fuel(array_spec_view, 4);
        reveal_with_fuel(array_dim_view, 4);
    }
    let ghost before = stmts_view(list@);
    let target = Expression::Variable(joined("chdr_g_", d.name.as_str()));
    let source = Expression::Dot(
        Box::new(Expression::Variable("chdr_v".to_owned())),
        d.name.clone(),
    );
    list.push(Stmt::Expression(Some(Expression::Assign(Box::new(target), Box::new(source)))));
    assert(stmts_view(list@) =~= before.push(yield_assign(d@.name)));
}

/// Adds the assignments of the names of one field line.
fn push_field_yield_assigns(list: &mut Vec<Stmt>, field: &StructField)
    ensures
        stmts_view(final(list)@) == stmts_view(old(list)@) + names_yield_assigns(
            field@.identifiers,
        ),
{
    let ghost start = stmts_view(list@);
    let ghost all = field@.identifiers;
    assert(all.subrange(0, 1).drop_last() =~= Seq::<DeclaratorView>::empty());
    assert(all.subrange(0, 1).last() == field.first@);
    assert(names_yield_assigns(all.subrange(0, 1).drop_last()) =~= Seq::<StmtView>::empty());
    push_yield_assign(list, &field.first);
    assert(stmts_view(list@) =~= start + names_yield_assigns(all.subrange(0, 1)));
    let mut i: usize = 0;
    while i < field.rest.len()
        invariant
            i <= field.rest.len(),
            all == field@.identifiers,
            all.len() == field.rest.len() + 1,
            stmts_view(list@) == start + names_yield_assigns(all.subrange(0, i + 1)),
        decreases field.rest.len() - i,
    {
        let ghost after = all.subrange(0, i + 2);
        assert(after.drop_last() =~= all.subrange(0, i + 1));
        assert(after.last() == field.rest@[i as int]@);
        push_yield_assign(list, &field.rest[i]);
        assert(stmts_view(list@) =~= start + names_yield_assigns(after));
        i = i + 1;
    }
    assert(all.subrange(0, i + 1) =~= all);
}

/// Lowers a call of `yield_vertex`. Fails with `WrongNumberOfArgs` where the call has no
/// argument or several.
#[verifier::rlimit(50)]
pub fn yield_vertex(args: &Vec<Expression>, out_ty: &StructDef) -> (res: Result<
    Stmt,
    GLSLConversionError,
>)
    requires
        args@.len() == 1 ==> out_ty@.name is Some,
    ensures
        match yielded_vertex(expressions_view(args@), out_ty@) {
            Ok(block) => res matches Ok(found) && found@ == block,
            Err(e) => res matches Err(found) && found@ == e,
        },
{
    if args.len() != 1 {
        return Err(GLSLConversionError::WrongNumberOfArgs(1, args.len()));
    }
    let name = match &out_ty.name {
        Some(name) => name.clone(),
        None => String::new(),
    };
    let mut list: Vec<Stmt> = Vec::new();
    list.push(bind(name.as_str(), None, "chdr_v", args[0].clone()));
    let ghost head = seq![
        binding_statement(out_ty@.name->0, None, "chdr_v"@, expressions_view(args@)[0]),
    ];
    assert(stmts_view(list@) =~= head);
    let ghost all = out_ty@.fields;
    let mut i: usize = 0;
    assert(head + fields_yield_assigns(all.subrange(0, 0)) =~= head);
    while i < out_ty.fields.len()
        invariant
            i <= out_ty.fields.len(),
            all == out_ty@.fields,
            stmts_view(list@) == head + fields_yield_assigns(all.subrange(0, i as int)),
        decreases out_ty.fields.len() - i,
    {
        let ghost after = all.subrange(0, i + 1);
        assert(after.drop_last() =~= all.subrange(0, i as int));
        assert(after.last() == out_ty.fields@[i as int]@);
        push_field_yield_assigns(&mut list, &out_ty.fields[i]);
        assert(stmts_view(list@) =~= head + fields_yield_assigns(after));
        i = i + 1;
    }
    assert(all.subrange(0, i as int) =~= all);
    let ghost body = stmts_view(list@);
    list.push(call_without_argument("EmitVertex"));
    assert(stmts_view(list@) =~= body + seq![call_statement("EmitVertex"@)]);
    Ok(Stmt::Compound(list))
}

/// Lowers a call of `yield_primitive`.
pub fn yield_primitive() -> (res: Stmt)
    ensures
        res@ == call_statement("EndPrimitive"@),
{
    call_without_argument("EndPrimitive")
}

/// What a statement at the top level of `concat_map_prim` becomes: a call of `yield_vertex`
/// or `yield_primitive` is lowered, and any other statement stays.
pub open spec fn fixed_statement(st: StmtView, out_ty: StructDefView) -> Result<
    StmtView,
    GLSLConversionErrorView,
> {
    match st {
        StmtView::Expression(Some(ExpressionView::Call(CalleeView::Name(n), args))) => {
            if n == "yield_vertex"@ {
                yielded_vertex(args, out_ty)
            } else if n == "yield_primitive"@ {
                Ok(call_statement("EndPrimitive"@))
            } else {
                Ok(st)
            }
        },
        _ => Ok(st),
    }
}

/// What the statements at the top level of `concat_map_prim` become, or the error of the
/// first among them that has one.
pub open spec fn fixed_statements(list: Seq<StmtView>, out_ty: StructDefView) -> Result<
    Seq<StmtView>,
    GLSLConversionErrorView,
>
    decreases list.len(),
{
    if list.len() == 0 {
        Ok(Seq::empty())
    } else {
        match fixed_statements(list.drop_last(), out_ty) {
            Err(e) => Err(e),
            Ok(fixed) => match fixed_statement(list.last(), out_ty) {
                Err(e) => Err(e),
                Ok(st) => Ok(fixed.push(st)),
            },
        }
    }
}

/// The first parameter of a list, if there is one.
pub open spec fn first_param(params: Seq<ParamView>) -> Seq<ParamView> {
    if params.len() == 0 {
        params
    } else {
        params.subrange(0, 1)
    }
}

/// The `concat_map_prim` function of the geometry stage: it keeps its first parameter only,
/// and the statements at the top level of its body are lowered.
pub open spec fn fixed_concat_map_prim(f: FunctionDefView, out_ty: StructDefView) -> Result<
    FunctionDefView,
    GLSLConversionErrorView,
> {
    match fixed_statements(f.body, out_ty) {
        Err(e) => Err(e),
        Ok(body) => Ok(
            FunctionDefView { ty: f.ty, name: f.name, params: first_param(f.params), body },
        ),
    }
}

/// An error among the first statements is the error of the whole list.
pub proof fn lemma_fixed_statements_prefix(list: Seq<StmtView>, n: int, out_ty: StructDefView)
    requires
        0 <= n <= list.len(),
        fixed_statements(list.subrange(0, n), out_ty) is Err,
    ensures
        fixed_statements(list, out_ty) == fixed_statements(list.subrange(0, n), out_ty),
    decreases list.len(),
{
    if n == list.len() {
        assert(list.subrange(0, n) =~= list);
    } else {
        assert(list.drop_last().subrange(0, n) =~= list.subrange(0, n));
        lemma_fixed_statements_prefix(list.drop_last(), n, out_ty);
    }
}

/// Whether a statement is a call of `yield_vertex` or of `yield_primitive`.
pub open spec fn is_yield(st: StmtView) -> bool {
    match st {
        StmtView::Expression(Some(ExpressionView::Call(CalleeView::Name(n), _))) => n
            == "yield_vertex"@ || n == "yield_primitive"@,
        _ => false,
    }
}

/// Statements among which none, at the top level, is a call of `yield_vertex` or of
/// `yield_primitive` are left as they are.
pub proof fn law_fix_keeps_statements(list: Seq<StmtView>, out_ty: StructDefView)
    requires
        forall|i: int| 0 <= i < list.len() ==> !is_yield(#[trigger] list[i]),
    ensures
        fixed_statements(list, out_ty) == Ok::<Seq<StmtView>, GLSLConversionErrorView>(list),
    decreases list.len(),
{
    if list.len() > 0 {
        let front = list.drop_last();
        assert forall|i: int| 0 <= i < front.len() implies !is_yield(#[trigger] front[i]) by {
            assert(front[i] == list[i]);
        }
        law_fix_keeps_statements(front, out_ty);
        assert(!is_yield(list[list.len() - 1]));
        assert(fixed_statement(list.last(), out_ty) == Ok::<StmtView, GLSLConversionErrorView>(
            list.last(),
        ));
        assert(front.push(list.last()) =~= list);
    } else {
        assert(list =~= Seq::<StmtView>::empty());
    }
}

/// A `concat_map_prim` function whose body has, at the top level, no call of `yield_vertex`
/// or of `yield_primitive` keeps its body, and loses only its parameters after the first.
pub proof fn law_fix_keeps_body(f: FunctionDefView, out_ty: StructDefView)
    requires
        forall|i: int| 0 <= i < f.body.len() ==> !is_yield(#[trigger] f.body[i]),
    ensures
        fixed_concat_map_prim(f, out_ty) == Ok::<FunctionDefView, GLSLConversionErrorView>(
            FunctionDefView { ty: f.ty, name: f.name, params: first_param(f.params), body: f.body },
        ),
{
    law_fix_keeps_statements(f.body, out_ty);
}

/// Whether a statement is a call of `yield_vertex` with one argument.
pub open spec fn is_vertex_yield(st: StmtView) -> bool {
    match st {
        StmtView::Expression(Some(ExpressionView::Call(CalleeView::Name(n), args))) => n
            == "yield_vertex"@ && args.len() == 1,
        _ => false,
    }
}

/// Whether a statement is a call of `yield_vertex` without argument or with several.
pub open spec fn is_wrong_yield(st: StmtView) -> bool {
    match st {
        StmtView::Expression(Some(ExpressionView::Call(CalleeView::Name(n), args))) => n
            == "yield_vertex"@ && args.len() != 1,
        _ => false,
    }
}

/// Whether the lowering of statements comes to a call of `yield_vertex` with one argument:
/// there is one among them, and no call of `yield_vertex` before it has another number of
/// arguments.
pub open spec fn reaches_vertex_yield(list: Seq<StmtView>) -> bool
    decreases list.len(),
{
    if list.len() == 0 {
        false
    } else if is_vertex_yield(list[0]) {
        true
    } else if is_wrong_yield(list[0]) {
        false
    } else {
        reaches_vertex_yield(list.drop_first())
    }
}

/// Lowers one statement at the top level of `concat_map_prim`.
fn fix_statement(st: &Stmt, out_ty: &StructDef) -> (res: Result<Stmt, GLSLConversionError>)
    requires
        is_vertex_yield(st@) ==> out_ty@.name is Some,
    ensures
        is_wrong_yield(st@) ==> res is Err,
        match fixed_statement(st@, out_ty@) {
            Ok(fixed) => res matches Ok(found) && found@ == fixed,
            Err(e) => res matches Err(found) && found@ == e,
        },
{
    proof {
        reveal_with_fuel(expression_view, 4);
        reveal_with_fuel(callee_view, 4);
        reveal_with_fuel(array_spec_view, 4);
        reveal_with_fuel(array_dim_view, 4);
    }
    match st {
        Stmt::Expression(Some(Expression::Call(Callee::Name(n), args))) => {
            if same_text(n.as_str(), "yield_vertex") {
                yield_vertex(args, out_ty)
            } else if same_text(n.as_str(), "yield_primitive") {
                Ok(yield_primitive())
            } else {
                Ok(st.clone())
            }
        },
        _ => Ok(st.clone()),
    }
}

/// Fixes the `concat_map_prim` function for the geometry stage: the second parameter, which
/// only describes the output, is removed, and every call of `yield_vertex` or
/// `yield_primitive` at the top level of the body is lowered. A call inside a nested
/// statement stays as it is.
#[verifier::rlimit(50)]
pub fn fix_concat_map_prim(f: FunctionDef, out_ty: &StructDef) -> (res: Result<
    FunctionDef,
    GLSLConversionError,
>)
    requires
        reaches_vertex_yield(f@.body) ==> out_ty@.name is Some,
    ensures
        match fixed_concat_map_prim(f@, out_ty@) {
            Ok(fixed) => res matches Ok(found) && found@ == fixed,
            Err(e) => res matches Err(found) && found@ == e,
        },
{
    let ghost all = f@.body;
    let mut body: Vec<Stmt> = Vec::new();
    let mut i: usize = 0;
    assert(all.subrange(0, 0) =~= Seq::<StmtView>::empty());
    assert(stmts_view(body@) =~= Seq::<StmtView>::empty());
    assert(all.subrange(0, all.len() as int) =~= all);
    while i < f.body.len()
        invariant
            i <= f.body.len(),
            all == f@.body,
            all.len() == f.body.len(),
            reaches_vertex_yield(all) ==> out_ty@.name is Some,
            out_ty@.name is Some || reaches_vertex_yield(all) == reaches_vertex_yield(
                all.subrange(i as int, all.len() as int),
            ),
            fixed_statements(all.subrange(0, i as int), out_ty@) == Ok::<
                Seq<StmtView>,
                GLSLConversionErrorView,
            >(stmts_view(body@)),
        decreases f.body.len() - i,
    {
        let ghost after = all.subrange(0, i + 1);
        assert(after.drop_last() =~= all.subrange(0, i as int));
        assert(after.last() == f.body@[i as int]@);
        let ghost rest = all.subrange(i as int, all.len() as int);
        assert(rest[0] == f.body@[i as int]@);
        assert(rest.drop_first() =~= all.subrange(i + 1, all.len() as int));
        match fix_statement(&f.body[i], out_ty) {
            Err(e) => {
                proof {
                    lemma_fixed_statements_prefix(all, i + 1, out_ty@);
                }
                return Err(e);
            },
            Ok(st) => {
                let ghost before = stmts_view(body@);
                body.push(st);
                assert(stmts_view(body@) =~= before.push(st@));
            },
        }
        i = i + 1;
    }
    assert(all.subrange(0, i as int) =~= all);
    let mut params: Vec<Param> = Vec::new();
    if f.params.len() > 0 {
        params.push(f.params[0].clone());
    }
    assert(views(params@) =~= first_param(f@.params));
    Ok(FunctionDef { ty: f.ty, name: f.name, params, body })
}

/// An array specifier of one dimension, given by an integer literal.
pub open spec fn sized(n: usize) -> ArraySpecView {
    ArraySpecView { dims: seq![ArrayDimView::Sized(Box::new(ExpressionView::IntConst(n as i32)))] }
}

/// Builds an array specifier of one dimension, given by an integer literal.
fn sized_array(n: usize) -> (res: ArraySpec)
    ensures
        res@ == sized(n),
{
    proof {
        reveal_with_fuel(expression_view, 4);
        reveal_with_fuel(callee_view, 4);
        reveal_with_fuel(array_spec_view, 4);
        reveal_with_fuel(array_dim_view, 4);
    }
    let mut dims: Vec<ArrayDim> = Vec::new();
    dims.push(ArrayDim::Sized(Box::new(Expression::IntConst(#[verifier::truncate] (n as i32)))));
    let res = ArraySpec { dims };
    assert(res@.dims =~= sized(n).dims);
    res
}

/// The input of a field at a vertex: `chdr_v_field[i]`.
pub open spec fn vertex_field_arg(field_name: Text, i: usize) -> ExpressionView {
    ExpressionView::Bracket(
        Box::new(ExpressionView::Variable("chdr_v_"@ + field_name)),
        sized(i),
    )
}

/// The inputs, at a vertex, of the names of one field line.
pub open spec fn names_vertex_args(identifiers: Seq<DeclaratorView>, i: usize) -> Seq<
    ExpressionView,
>
    decreases identifiers.len(),
{
    if identifiers.len() == 0 {
        Seq::empty()
    } else {
        names_vertex_args(identifiers.drop_last(), i).push(
            vertex_field_arg(identifiers.last().name, i),
        )
    }
}

/// The inputs, at a vertex, of the names of field lines.
pub open spec fn fields_vertex_args(fields: Seq<StructFieldView>, i: usize) -> Seq<
    ExpressionView,
>
    decreases fields.len(),
{
    if fields.len() == 0 {
        Seq::empty()
    } else {
        fields_vertex_args(fields.drop_last(), i) + names_vertex_args(
            fields.last().identifiers,
            i,
        )
    }
}

/// The vertex at a position of the input primitive, built from the inputs of its fields.
pub open spec fn vertex_ctor(v_ty: StructDefView, i: usize) -> ExpressionView {
    ExpressionView::Call(CalleeView::Name(v_ty.name->0), fields_vertex_args(v_ty.fields, i))
}

/// The declaration that rebuilds the array of the vertices of the input primitive:
/// `T[dim] name = T[](T(...), ...);`, with one vertex for each position.
pub open spec fn vertex_array(v_ty: StructDefView, dim: usize, binding_name: Text) -> StmtView {
    binding_statement(
        v_ty.name->0,
        Some(sized(dim)),
        binding_name,
        ExpressionView::Call(
            CalleeView::Expr(
                Box::new(
                    ExpressionView::Bracket(
                        Box::new(ExpressionView::Variable(v_ty.name->0)),
                        ArraySpecView { dims: seq![ArrayDimView::Unsized] },
                    ),
                ),
            ),
            Seq::new(dim as nat, |i: int| vertex_ctor(v_ty, i as usize)),
        ),
    )
}

/// Adds the input, at a vertex, of one name.
fn push_vertex_arg(list: &mut Vec<Expression>, d: &Declarator, i: usize)
    ensures
        expressions_view(final(list)@) == expressions_view(old(list)@).push(
            vertex_field_arg(d@.name, i),
        ),
{
    proof {
        reveal_with_fuel(expression_view, 4);
        reveal_with_fuel(callee_view, 4);
        reveal_with_fuel(array_spec_view, 4);
        reveal_with_fuel(array_dim_view, 4);
    }
    let ghost before = expressions_view(list@);
    let variable = Expression::Variable(joined("chdr_v_", d.name.as_str()));
    let dims = sized_array(i);
    let arg = Expression::Bracket(Box::new(variable), dims);
    assert(arg@ == ExpressionView::Bracket(Box::new(variable@), dims@));
    assert(arg@ == vertex_field_arg(d@.name, i));
    list.push(arg);
    assert(expressions_view(list@) =~= before.push(vertex_field_arg(d@.name, i)));
}

/// Adds the inputs, at a vertex, of the names of one field line.
fn push_field_vertex_args(list: &mut Vec<Expression>, field: &StructField, at: usize)
    ensures
        expressions_view(final(list)@) == expressions_view(old(list)@) + names_vertex_args(
            field@.identifiers,
            at,
        ),
{
    let ghost start = expressions_view(list@);
    let ghost all = field@.identifiers;
    assert(all.subrange(0, 1).drop_last() =~= Seq::<DeclaratorView>::empty());
    assert(all.subrange(0, 1).last() == field.first@);
    assert(names_vertex_args(all.subrange(0, 1).drop_last(), at) =~= Seq::<
        ExpressionView,
    >::empty());
    push_vertex_arg(list, &field.first, at);
    assert(expressions_view(list@) =~= start + names_vertex_args(all.subrange(0, 1), at));
    let mut i: usize = 0;
    while i < field.rest.len()
        invariant
            i <= field.rest.len(),
            all == field@.identifiers,
            all.len() == field.rest.len() + 1,
            expressions_view(list@) == start + names_vertex_args(all.subrange(0, i + 1), at),
        decreases field.rest.len() - i,
    {
        let ghost after = all.subrange(0, i + 2);
        assert(after.drop_last() =~= all.subrange(0, i + 1));
        assert(after.last() == field.rest@[i as int]@);
        push_vertex_arg(list, &field.rest[i], at);
        assert(expressions_view(list@) =~= start + names_vertex_args(after, at));
        i = i + 1;
    }
    assert(all.subrange(0, i + 1) =~= all);
}

/// Builds the vertex at a position of the input primitive.
fn vertex_at(v_ty: &StructDef, name: &String, at: usize) -> (res: Expression)
    requires
        v_ty@.name == Some(name@),
    ensures
        res@ == vertex_ctor(v_ty@, at),
{
    proof {
        reveal_with_fuel(expression_view, 4);
        reveal_with_fuel(callee_view, 4);
        reveal_with_fuel(array_spec_view, 4);
        reveal_with_fuel(array_dim_view, 4);
    }
    let mut args: Vec<Expression> = Vec::new();
    let ghost all = v_ty@.fields;
    let mut i: usize = 0;
    assert(expressions_view(args@) =~= fields_vertex_args(all.subrange(0, 0), at));
    while i < v_ty.fields.len()
        invariant
            i <= v_ty.fields.len(),
            all == v_ty@.fields,
            expressions_view(args@) == fields_vertex_args(all.subrange(0, i as int), at),
        decreases v_ty.fields.len() - i,
    {
        let ghost after = all.subrange(0, i + 1);
        assert(after.drop_last() =~= all.subrange(0, i as int));
        assert(after.last() == v_ty.fields@[i as int]@);
        push_field_vertex_args(&mut args, &v_ty.fields[i], at);
        i = i + 1;
    }
    assert(all.subrange(0, i as int) =~= all);
    Expression::Call(Callee::Name(name.clone()), args)
}

/// Builds the declaration that rebuilds the array of the vertices of the input primitive
/// from the inputs of the stage.
#[verifier::rlimit(50)]
pub fn gs_create_vertex_array(v_ty: &StructDef, dim: usize, binding_name: &str) -> (res: Stmt)
    requires
        v_ty@.name is Some,
    ensures
        res@ == vertex_array(v_ty@, dim, binding_name@),
{
    proof {
        reveal_with_fuel(expression_view, 4);
        reveal_with_fuel(callee_view, 4);
        reveal_with_fuel(array_spec_view, 4);
        reveal_with_fuel(array_dim_view, 4);
    }
    let name = match &v_ty.name {
        Some(name) => name.clone(),
        None => String::new(),
    };
    let mut unsized_dims: Vec<ArrayDim> = Vec::new();
    unsized_dims.push(ArrayDim::Unsized);
    let unsized_array = ArraySpec { dims: unsized_dims };
    assert(unsized_array@.dims =~= seq![ArrayDimView::Unsized]);
    let fun_id = Callee::Expr(
        Box::new(Expression::Bracket(Box::new(Expression::Variable(name.clone())), unsized_array)),
    );
    let mut fun_args: Vec<Expression> = Vec::new();
    let mut i: usize = 0;
    while i < dim
        invariant
            i <= dim,
            v_ty@.name == Some(name@),
            fun_args@.len() == i,
            forall|j: int| 0 <= j < i ==> fun_args@[j]@ == vertex_ctor(v_ty@, j as usize),
        decreases dim - i,
    {
        fun_args.push(vertex_at(v_ty, &name, i));
        i = i + 1;
    }
    assert(expressions_view(fun_args@) =~= Seq::new(
        dim as nat,
        |i: int| vertex_ctor(v_ty@, i as usize),
    ));
    let rhs = Expression::Call(fun_id, fun_args);
    bind(name.as_str(), Some(sized_array(dim)), binding_name, rhs)
}

/// The source of the geometry stage: the layouts of its input and of its output, the inputs
/// that take the outputs of the vertex stage as arrays, its outputs, the struct of the
/// vertices it takes and the struct of those it emits, the fixed `concat_map_prim`, and the
/// main function.
pub open spec fn geometry_text(
    prev_ret: StructDefView,
    prev_outputs: Seq<SingleDeclView>,
    stage_ret: StructDefView,
    outputs: Seq<SingleDeclView>,
    input: (usize, Seq<LayoutIdView>),
    output_layout: Seq<LayoutIdView>,
    fixed: FunctionDefView,
) -> Text {
    external_declaration_text(layout_declaration(input.1, QualifierSpecView::In))
        + external_declaration_text(layout_declaration(output_layout, QualifierSpecView::Out))
        + declarations_text(as_inputs(prev_outputs, true)) + declarations_text(outputs)
        + struct_text(prev_ret) + struct_text(stage_ret) + function_definition_text(fixed)
        + "void main() {\n  "@ + statement_text(vertex_array(prev_ret, input.0, "v"@))
        + "  concat_map_prim("@ + "v"@ + ");\n"@ + "}\n\n"@
}

/// The geometry stage of a `concat_map_prim` function, with the structs of the module, the
/// struct that the vertex stage hands on and the outputs of the vertex stage.
pub open spec fn geometry_stage(
    f: FunctionDefView,
    structs: Seq<StructDefView>,
    prev_ret: StructDefView,
    prev_outputs: Seq<SingleDeclView>,
) -> Result<StageView, GLSLConversionErrorView> {
    if f.params.len() != 2 {
        Err(GLSLConversionErrorView::WrongNumberOfArgs(2, f.params.len() as usize))
    } else {
        let input = param_full_type(f.params[0]);
        let output = param_full_type(f.params[1]);
        match struct_of_type(output.ty, structs) {
            Err(e) => Err(e),
            Ok(stage_ret) => match name_of_type(input) {
                Err(e) => Err(e),
                Ok(input_name) => match gs_input_prim(input.ty.array) {
                    Err(e) => Err(e),
                    Ok(prim) => match gs_output_layout(output.qualifier) {
                        Err(e) => Err(e),
                        Ok(output_layout) => if prev_ret.name != Some(input_name) {
                            Err(GLSLConversionErrorView::UnknownInputType(input_name))
                        } else {
                            match fields_outputs(stage_ret.fields, "chdr_g_"@) {
                                Err(e) => Err(e),
                                Ok(outputs) => match fixed_concat_map_prim(f, stage_ret) {
                                    Err(e) => Err(e),
                                    Ok(fixed) => Ok(
                                        StageView {
                                            ret: stage_ret,
                                            outputs,
                                            text: geometry_text(
                                                prev_ret,
                                                prev_outputs,
                                                stage_ret,
                                                outputs,
                                                prim,
                                                output_layout,
                                                fixed,
                                            ),
                                        },
                                    ),
                                },
                            }
                        },
                    },
                },
            },
        }
    }
}

/// Writes the source of the geometry stage from its parts.
#[verifier::rlimit(50)]
fn write_geometry_stage(
    sink: &mut String,
    prev_ret_ty: &StructDef,
    inputs: &Vec<SingleDecl>,
    output_ty: &StructDef,
    outputs: &Vec<SingleDecl>,
    input_dim: usize,
    input_layout: Layout,
    output_layout: Layout,
    fixed: &FunctionDef,
)
    requires
        prev_ret_ty@.name is Some,
    ensures
        final(sink)@ == old(sink)@ + external_declaration_text(
            layout_declaration(input_layout@, QualifierSpecView::In),
        ) + external_declaration_text(layout_declaration(output_layout@, QualifierSpecView::Out))
            + declarations_text(views(inputs@)) + declarations_text(views(outputs@))
            + struct_text(prev_ret_ty@) + struct_text(output_ty@) + function_definition_text(
            fixed@,
        ) + "void main() {\n  "@ + statement_text(vertex_array(prev_ret_ty@, input_dim, "v"@))
            + "  concat_map_prim("@ + "v"@ + ");\n"@ + "}\n\n"@,
{
    let gs_metadata_input = gs_layout_storage_external_decl(input_layout, QualifierSpec::In);
    let gs_metadata_output = gs_layout_storage_external_decl(output_layout, QualifierSpec::Out);
    let text = show_external_declaration(&gs_metadata_input);
    push_text(sink, text.as_str());
    let text = show_external_declaration(&gs_metadata_output);
    push_text(sink, text.as_str());
    sink_single_as_ext_decls(sink, inputs);
    sink_single_as_ext_decls(sink, outputs);
    let text = show_struct(prev_ret_ty);
    push_text(sink, text.as_str());
    let text = show_struct(output_ty);
    push_text(sink, text.as_str());
    let text = show_function_definition(fixed);
    push_text(sink, text.as_str());
    push_text(sink, "void main() {\n  ");
    let v_name = "v";
    let text = show_statement(&gs_create_vertex_array(prev_ret_ty, input_dim, v_name));
    push_text(sink, text.as_str());
    push_text(sink, "  concat_map_prim(");
    push_text(sink, v_name);
    push_text(sink, ");\n");
    push_text(sink, "}\n\n");
}

/// Tells whether a struct has a given name.
pub fn struct_is_named(s: &StructDef, name: &String) -> (res: bool)
    ensures
        res == (s@.name == Some(name@)),
{
    match &s.name {
        Some(n) => *n == *name,
        None => false,
    }
}

/// Sinks a geometry shader: writes the source of the geometry stage behind what the sink
/// holds, and returns the struct of the vertices that the stage emits with the outputs of
/// the stage. Where it fails, the sink is left as it was.
///
/// Fails with `WrongNumberOfArgs` where `concat_map_prim` has not two parameters, with
/// `ReturnTypeMustBeAStruct` where the type of the second names no struct, with
/// `NotTypeName` where the type of the first is not given by name, as `guess_gs_input_prim`
/// does on the dimensions of the first and `get_gs_output_layout_metadata` on the qualifiers
/// of the second, with `UnknownInputType` where the first is no array of what the vertex
/// stage hands on, and as `fields_to_single_decls` and `fix_concat_map_prim` do.
#[verifier::rlimit(50)]
pub fn sink_geometry_shader(
    sink: &mut String,
    concat_map_prim: &FunctionDef,
    structs: &Vec<StructDef>,
    prev_ret_ty: &StructDef,
    prev_inputs: &Vec<SingleDecl>,
) -> (res: Result<(StructDef, Vec<SingleDecl>), GLSLConversionError>)
    ensures
        match geometry_stage(
            concat_map_prim@,
            views(structs@),
            prev_ret_ty@,
            views(prev_inputs@),
        ) {
            Ok(stage) => res matches Ok(found) && found.0@ == stage.ret && views(found.1@)
                == stage.outputs && final(sink)@ == old(sink)@ + stage.text,
            Err(e) => res matches Err(found) && found@ == e && final(sink)@ == old(sink)@,
        },
{
    let fn_args = &concat_map_prim.params;
    if fn_args.len() != 2 {
        return Err(GLSLConversionError::WrongNumberOfArgs(2, fn_args.len()));
    }
    let input = fn_arg_as_fully_spec_ty(&fn_args[0]);
    let output = fn_arg_as_fully_spec_ty(&fn_args[1]);
    let output_ty = match struct_from_ty_spec(&output.ty, structs) {
        Ok(ty) => ty,
        Err(e) => {
            return Err(e);
        },
    };
    proof {
        lemma_struct_of_type_name(output@.ty, views(structs@));
    }
    let input_ty_name = match get_ty_name_from_fully_spec_ty(&input) {
        Ok(name) => name,
        Err(e) => {
            return Err(e);
        },
    };
    let (input_dim, input_layout) = match guess_gs_input_prim(&input.ty.array) {
        Ok(prim) => prim,
        Err(e) => {
            return Err(e);
        },
    };
    let output_layout = match get_gs_output_layout_metadata(&output.qualifier) {
        Ok(layout) => layout,
        Err(e) => {
            return Err(e);
        },
    };
    if !struct_is_named(prev_ret_ty, &input_ty_name) {
        return Err(GLSLConversionError::UnknownInputType(input_ty_name));
    }
    let inputs = inputs_from_outputs(prev_inputs, true);
    assert(output_ty@.fields.subrange(0, output_ty@.fields.len() as int) =~= output_ty@.fields);
    let outputs = match fields_to_single_decls(&output_ty.fields, 0, "chdr_g_") {
        Ok(outputs) => outputs,
        Err(e) => {
            return Err(e);
        },
    };
    let concat_map_prim_fixed = match fix_concat_map_prim(concat_map_prim.clone(), &output_ty) {
        Ok(fixed) => fixed,
        Err(e) => {
            return Err(e);
        },
    };
    write_geometry_stage(
        sink,
        prev_ret_ty,
        &inputs,
        &output_ty,
        &outputs,
        input_dim,
        input_layout,
        output_layout,
        &concat_map_prim_fixed,
    );
    Ok((output_ty, outputs))
}

} // verus!
