//! Mathematical views of the declaration tree: every string is a sequence of characters and
//! every list a sequence.
use vstd::prelude::*;
use crate::syntax::{
    ArrayDim, ArraySpec, AssignOp, BuiltIn, Callee, Constant, Decl, Declarator, Expression,
    ExternalDecl, ForInit, FullType, FunctionDef, Guard, Import, InfixOp, InitDeclList,
    InitialValue, InterfaceBlock, Interpolation, Iteration, Jump, Layout, LayoutId, Memory,
    Operation, Param, Precision, PrefixOp, Prototype, Qualifier, QualifierSpec, Selection,
    SingleDecl, Stmt, Storage, StructDef, StructField, Switch, TailDecl, TypeKind, TypeSpec,
};

verus! {

/// Text: a sequence of characters.
pub type Text = Seq<char>;

/// View of a `ArrayDim` of the declaration tree.
pub ghost enum ArrayDimView {
    Unsized,
    Sized(Box<ExpressionView>),
}

/// View of a `ArraySpec` of the declaration tree.
pub ghost struct ArraySpecView {
    pub dims: Seq<ArrayDimView>,
}

/// View of a `Callee` of the declaration tree.
pub ghost enum CalleeView {
    Name(Text),
    Expr(Box<ExpressionView>),
}

/// View of a `Expression` of the declaration tree.
pub ghost enum ExpressionView {
    Variable(Text),
    IntConst(i32),
    Assign(Box<ExpressionView>, Box<ExpressionView>),
    Bracket(Box<ExpressionView>, ArraySpecView),
    Call(CalleeView, Seq<ExpressionView>),
    Dot(Box<ExpressionView>, Text),
    Constant(ConstantView),
    Operation(OperationView),
}

/// View of a `Constant` of the declaration tree.
pub ghost enum ConstantView {
    UInt(u32),
    Bool(bool),
    Real(glsl::syntax::Expr),
}

/// View of a `Operation` of the declaration tree.
pub ghost enum OperationView {
    Prefix(PrefixOp, Box<ExpressionView>),
    Infix(InfixOp, Box<ExpressionView>, Box<ExpressionView>),
    Ternary(Box<ExpressionView>, Box<ExpressionView>, Box<ExpressionView>),
    Assign(Box<ExpressionView>, AssignOp, Box<ExpressionView>),
    PostInc(Box<ExpressionView>),
    PostDec(Box<ExpressionView>),
    Comma(Box<ExpressionView>, Box<ExpressionView>),
}

/// View of a `Declarator` of the declaration tree.
pub ghost struct DeclaratorView {
    pub name: Text,
    pub array: Option<ArraySpecView>,
}

/// View of a `LayoutId` of the declaration tree.
pub ghost enum LayoutIdView {
    Named(Text, Option<ExpressionView>),
    Shared,
}

/// View of a `Storage` of the declaration tree.
pub ghost enum StorageView {
    Const,
    InOut,
    Centroid,
    Patch,
    Sample,
    Attribute,
    Varying,
    Buffer,
    Shared,
    Subroutine(Seq<Text>),
}

/// View of a `QualifierSpec` of the declaration tree.
pub ghost enum QualifierSpecView {
    In,
    Out,
    Uniform,
    /// The identifiers of the layout; there is at least one.
    Storage(StorageView),
    Memory(Memory),
    Layout(Seq<LayoutIdView>),
    Precision(Precision),
    Interpolation(Interpolation),
    Invariant,
    Precise,
}

/// The qualifiers of a type; there is at least one.
pub type QualifierView = Seq<QualifierSpecView>;

/// View of a `TypeKind` of the declaration tree.
pub ghost enum TypeKindView {
    Vec4,
    Struct(StructDefView),
    Named(Text),
    BuiltIn(BuiltIn),
}

/// View of a `TypeSpec` of the declaration tree.
pub ghost struct TypeSpecView {
    pub kind: TypeKindView,
    pub array: Option<ArraySpecView>,
}

/// View of a `StructDef` of the declaration tree.
pub ghost struct StructDefView {
    pub name: Option<Text>,
    pub fields: Seq<StructFieldView>,
}

/// View of a `StructField` of the declaration tree.
pub ghost struct StructFieldView {
    pub qualifier: Option<QualifierView>,
    pub ty: TypeSpecView,
    /// The names declared; there is at least one.
    pub identifiers: Seq<DeclaratorView>,
}

/// View of a `FullType` of the declaration tree.
pub ghost struct FullTypeView {
    pub qualifier: Option<QualifierView>,
    pub ty: TypeSpecView,
}

/// View of a `InitialValue` of the declaration tree.
pub ghost enum InitialValueView {
    Simple(ExpressionView),
    /// The values of the list; there is at least one.
    List(Seq<InitialValueView>),
}

/// View of a `SingleDecl` of the declaration tree.
pub ghost struct SingleDeclView {
    pub ty: FullTypeView,
    pub name: Option<Text>,
    pub array: Option<ArraySpecView>,
    pub initializer: Option<InitialValueView>,
}

/// View of a `TailDecl` of the declaration tree.
pub ghost struct TailDeclView {
    pub ident: DeclaratorView,
    pub initializer: Option<InitialValueView>,
}

/// View of a `InitDeclList` of the declaration tree.
pub ghost struct InitDeclListView {
    pub head: SingleDeclView,
    pub tail: Seq<TailDeclView>,
}

/// View of a `InterfaceBlock` of the declaration tree.
pub ghost struct InterfaceBlockView {
    pub qualifier: QualifierView,
    pub name: Text,
    pub fields: Seq<StructFieldView>,
    pub identifier: Option<DeclaratorView>,
}

/// View of a `Decl` of the declaration tree.
pub ghost enum DeclView {
    Vars(InitDeclListView),
    Block(InterfaceBlockView),
    Global(QualifierView, Seq<Text>),
    Prototype(PrototypeView),
    Precision(Precision, TypeSpecView),
}

/// View of a `Prototype` of the declaration tree.
pub ghost struct PrototypeView {
    pub ty: FullTypeView,
    pub name: Text,
    pub params: Seq<ParamView>,
}

/// View of a `Guard` of the declaration tree.
pub ghost enum GuardView {
    Expr(ExpressionView),
    Binding(FullTypeView, Text, InitialValueView),
}

/// View of a `ForInit` of the declaration tree.
pub ghost enum ForInitView {
    Expression(Option<ExpressionView>),
    Declaration(Box<DeclView>),
}

/// View of a `Selection` of the declaration tree.
pub ghost struct SelectionView {
    pub cond: ExpressionView,
    pub body: Box<StmtView>,
    pub otherwise: Option<Box<StmtView>>,
}

/// View of a `Switch` of the declaration tree.
pub ghost struct SwitchView {
    pub head: ExpressionView,
    pub body: Seq<StmtView>,
}

/// View of an `Iteration` of the declaration tree.
pub ghost enum IterationView {
    While(GuardView, Box<StmtView>),
    DoWhile(Box<StmtView>, ExpressionView),
    For(ForInitView, Option<GuardView>, Option<ExpressionView>, Box<StmtView>),
}

/// View of a `Jump` of the declaration tree.
pub ghost enum JumpView {
    Continue,
    Break,
    Return(Option<ExpressionView>),
    Discard,
}

/// View of a `Param` of the declaration tree.
pub ghost enum ParamView {
    Named(Option<QualifierView>, TypeSpecView, DeclaratorView),
    Unnamed(Option<QualifierView>, TypeSpecView),
}

/// View of a `Stmt` of the declaration tree.
pub ghost enum StmtView {
    Compound(Seq<StmtView>),
    Declaration(DeclView),
    Expression(Option<ExpressionView>),
    Selection(SelectionView),
    Switch(SwitchView),
    Case(Option<ExpressionView>),
    Iteration(IterationView),
    Jump(JumpView),
}

/// View of a `FunctionDef` of the declaration tree.
pub ghost struct FunctionDefView {
    pub ty: FullTypeView,
    pub name: Text,
    pub params: Seq<ParamView>,
    pub body: Seq<StmtView>,
}

/// View of a `ExternalDecl` of the declaration tree.
pub ghost enum ExternalDeclView {
    Function(FunctionDefView),
    Declaration(DeclView),
    Directive(glsl::syntax::Preprocessor),
}

/// View of a `Import` of the declaration tree.
pub ghost struct ImportView {
    pub path: Seq<Text>,
    pub symbols: Seq<Text>,
}

/// The views of the items of a list, in order.
pub open spec fn views<T: View>(s: Seq<T>) -> Seq<T::V> {
    Seq::new(s.len(), |i: int| s[i]@)
}

/// The view of an optional item.
pub open spec fn view_opt<T: View>(o: Option<T>) -> Option<T::V> {
    match o {
        Some(t) => Some(t@),
        None => None,
    }
}

/// The view of an expression.
pub open spec fn expression_view(e: Expression) -> ExpressionView
    decreases e,
{
    match e {
        Expression::Variable(n) => ExpressionView::Variable(n@),
        Expression::IntConst(i) => ExpressionView::IntConst(i),
        Expression::Assign(l, r) => ExpressionView::Assign(
            Box::new(expression_view(*l)),
            Box::new(expression_view(*r)),
        ),
        Expression::Bracket(b, a) => ExpressionView::Bracket(
            Box::new(expression_view(*b)),
            array_spec_view(a),
        ),
        Expression::Call(f, args) => ExpressionView::Call(
            callee_view(f),
            expressions_view(args@),
        ),
        Expression::Dot(b, n) => ExpressionView::Dot(Box::new(expression_view(*b)), n@),
        Expression::Constant(c) => ExpressionView::Constant(c@),
        Expression::Operation(o) => ExpressionView::Operation(operation_view(o)),
    }
}

/// The view of an expression made with an operator.
pub open spec fn operation_view(o: Operation) -> OperationView
    decreases o,
{
    match o {
        Operation::Prefix(op, a) => OperationView::Prefix(op, Box::new(expression_view(*a))),
        Operation::Infix(op, a, b) => OperationView::Infix(
            op,
            Box::new(expression_view(*a)),
            Box::new(expression_view(*b)),
        ),
        Operation::Ternary(a, b, c) => OperationView::Ternary(
            Box::new(expression_view(*a)),
            Box::new(expression_view(*b)),
            Box::new(expression_view(*c)),
        ),
        Operation::Assign(a, op, b) => OperationView::Assign(
            Box::new(expression_view(*a)),
            op,
            Box::new(expression_view(*b)),
        ),
        Operation::PostInc(a) => OperationView::PostInc(Box::new(expression_view(*a))),
        Operation::PostDec(a) => OperationView::PostDec(Box::new(expression_view(*a))),
        Operation::Comma(a, b) => OperationView::Comma(
            Box::new(expression_view(*a)),
            Box::new(expression_view(*b)),
        ),
    }
}

/// The views of expressions, in order.
pub open spec fn expressions_view(s: Seq<Expression>) -> Seq<ExpressionView>
    decreases s,
{
    Seq::new(
        s.len(),
        |i: int|
            if 0 <= i < s.len() {
                expression_view(s[i])
            } else {
                arbitrary()
            },
    )
}

/// The view of what a call expression calls.
pub open spec fn callee_view(f: Callee) -> CalleeView
    decreases f,
{
    match f {
        Callee::Name(n) => CalleeView::Name(n@),
        Callee::Expr(b) => CalleeView::Expr(Box::new(expression_view(*b))),
    }
}

/// The view of one dimension of an array.
pub open spec fn array_dim_view(d: ArrayDim) -> ArrayDimView
    decreases d,
{
    match d {
        ArrayDim::Unsized => ArrayDimView::Unsized,
        ArrayDim::Sized(b) => ArrayDimView::Sized(Box::new(expression_view(*b))),
    }
}

/// The views of the dimensions of an array, in order.
pub open spec fn array_dims_view(s: Seq<ArrayDim>) -> Seq<ArrayDimView>
    decreases s,
{
    Seq::new(
        s.len(),
        |i: int|
            if 0 <= i < s.len() {
                array_dim_view(s[i])
            } else {
                arbitrary()
            },
    )
}

/// The view of the dimensions of an array.
pub open spec fn array_spec_view(a: ArraySpec) -> ArraySpecView
    decreases a,
{
    ArraySpecView { dims: array_dims_view(a.dims@) }
}

impl View for Constant {
    type V = ConstantView;

    open spec fn view(&self) -> ConstantView {
        match *self {
            Constant::UInt(v) => ConstantView::UInt(v),
            Constant::Bool(b) => ConstantView::Bool(b),
            Constant::Real(r) => ConstantView::Real(r@),
        }
    }
}

impl View for Operation {
    type V = OperationView;

    open spec fn view(&self) -> OperationView {
        operation_view(*self)
    }
}

impl View for Expression {
    type V = ExpressionView;

    open spec fn view(&self) -> ExpressionView {
        expression_view(*self)
    }
}

impl View for Callee {
    type V = CalleeView;

    open spec fn view(&self) -> CalleeView {
        callee_view(*self)
    }
}

impl View for ArrayDim {
    type V = ArrayDimView;

    open spec fn view(&self) -> ArrayDimView {
        array_dim_view(*self)
    }
}

impl View for ArraySpec {
    type V = ArraySpecView;

    open spec fn view(&self) -> ArraySpecView {
        array_spec_view(*self)
    }
}

impl View for Declarator {
    type V = DeclaratorView;

    open spec fn view(&self) -> DeclaratorView {
        DeclaratorView { name: self.name@, array: view_opt(self.array) }
    }
}

impl View for LayoutId {
    type V = LayoutIdView;

    open spec fn view(&self) -> LayoutIdView {
        match *self {
            LayoutId::Named(n, Some(e)) => LayoutIdView::Named(n@, Some(expression_view(*e))),
            LayoutId::Named(n, None) => LayoutIdView::Named(n@, None),
            LayoutId::Shared => LayoutIdView::Shared,
        }
    }
}

impl View for Layout {
    type V = Seq<LayoutIdView>;

    open spec fn view(&self) -> Seq<LayoutIdView> {
        seq![self.first@] + views(self.rest@)
    }
}

impl View for Storage {
    type V = StorageView;

    open spec fn view(&self) -> StorageView {
        match *self {
            Storage::Const => StorageView::Const,
            Storage::InOut => StorageView::InOut,
            Storage::Centroid => StorageView::Centroid,
            Storage::Patch => StorageView::Patch,
            Storage::Sample => StorageView::Sample,
            Storage::Attribute => StorageView::Attribute,
            Storage::Varying => StorageView::Varying,
            Storage::Buffer => StorageView::Buffer,
            Storage::Shared => StorageView::Shared,
            Storage::Subroutine(names) => StorageView::Subroutine(views(names@)),
        }
    }
}

impl View for QualifierSpec {
    type V = QualifierSpecView;

    open spec fn view(&self) -> QualifierSpecView {
        match *self {
            QualifierSpec::In => QualifierSpecView::In,
            QualifierSpec::Out => QualifierSpecView::Out,
            QualifierSpec::Uniform => QualifierSpecView::Uniform,
            QualifierSpec::Storage(s) => QualifierSpecView::Storage(s@),
            QualifierSpec::Memory(m) => QualifierSpecView::Memory(m),
            QualifierSpec::Layout(l) => QualifierSpecView::Layout(l@),
            QualifierSpec::Precision(p) => QualifierSpecView::Precision(p),
            QualifierSpec::Interpolation(i) => QualifierSpecView::Interpolation(i),
            QualifierSpec::Invariant => QualifierSpecView::Invariant,
            QualifierSpec::Precise => QualifierSpecView::Precise,
        }
    }
}

impl View for Qualifier {
    type V = QualifierView;

    open spec fn view(&self) -> QualifierView {
        seq![self.first@] + views(self.rest@)
    }
}

/// The view of a type without its array dimensions.
pub open spec fn type_kind_view(k: TypeKind) -> TypeKindView
    decreases k,
{
    match k {
        TypeKind::Vec4 => TypeKindView::Vec4,
        TypeKind::Struct(s) => TypeKindView::Struct(struct_def_view(s)),
        TypeKind::Named(n) => TypeKindView::Named(n@),
        TypeKind::BuiltIn(b) => TypeKindView::BuiltIn(b),
    }
}

/// The view of a type.
pub open spec fn type_spec_view(t: TypeSpec) -> TypeSpecView
    decreases t,
{
    TypeSpecView { kind: type_kind_view(t.kind), array: view_opt(t.array) }
}

/// The view of one field line of a struct: its names are the first name followed by the others.
pub open spec fn struct_field_view(f: StructField) -> StructFieldView
    decreases f,
{
    StructFieldView {
        qualifier: view_opt(f.qualifier),
        ty: type_spec_view(f.ty),
        identifiers: seq![f.first@] + views(f.rest@),
    }
}

/// The views of the field lines of a struct, in order.
pub open spec fn struct_fields_view(s: Seq<StructField>) -> Seq<StructFieldView>
    decreases s,
{
    Seq::new(
        s.len(),
        |i: int|
            if 0 <= i < s.len() {
                struct_field_view(s[i])
            } else {
                arbitrary()
            },
    )
}

/// The view of a struct definition.
pub open spec fn struct_def_view(s: StructDef) -> StructDefView
    decreases s,
{
    StructDefView { name: view_opt(s.name), fields: struct_fields_view(s.fields@) }
}

impl View for TypeKind {
    type V = TypeKindView;

    open spec fn view(&self) -> TypeKindView {
        type_kind_view(*self)
    }
}

impl View for TypeSpec {
    type V = TypeSpecView;

    open spec fn view(&self) -> TypeSpecView {
        type_spec_view(*self)
    }
}

impl View for StructField {
    type V = StructFieldView;

    open spec fn view(&self) -> StructFieldView {
        struct_field_view(*self)
    }
}

impl View for StructDef {
    type V = StructDefView;

    open spec fn view(&self) -> StructDefView {
        struct_def_view(*self)
    }
}

impl View for FullType {
    type V = FullTypeView;

    open spec fn view(&self) -> FullTypeView {
        FullTypeView { qualifier: view_opt(self.qualifier), ty: self.ty@ }
    }
}

/// The view of an initial value: the values of a list are the first value followed by the
/// others.
pub open spec fn initial_value_view(i: InitialValue) -> InitialValueView
    decreases i,
{
    match i {
        InitialValue::Simple(e) => InitialValueView::Simple(e@),
        InitialValue::List(first, rest) => InitialValueView::List(
            seq![initial_value_view(*first)] + initial_values_view(rest@),
        ),
    }
}

/// The views of initial values, in order.
pub open spec fn initial_values_view(s: Seq<InitialValue>) -> Seq<InitialValueView>
    decreases s,
{
    Seq::new(
        s.len(),
        |i: int|
            if 0 <= i < s.len() {
                initial_value_view(s[i])
            } else {
                arbitrary()
            },
    )
}

impl View for InitialValue {
    type V = InitialValueView;

    open spec fn view(&self) -> InitialValueView {
        initial_value_view(*self)
    }
}

impl View for SingleDecl {
    type V = SingleDeclView;

    open spec fn view(&self) -> SingleDeclView {
        SingleDeclView {
            ty: self.ty@,
            name: view_opt(self.name),
            array: view_opt(self.array),
            initializer: view_opt(self.initializer),
        }
    }
}

impl View for TailDecl {
    type V = TailDeclView;

    open spec fn view(&self) -> TailDeclView {
        TailDeclView { ident: self.ident@, initializer: view_opt(self.initializer) }
    }
}

impl View for InitDeclList {
    type V = InitDeclListView;

    open spec fn view(&self) -> InitDeclListView {
        InitDeclListView { head: self.head@, tail: views(self.tail@) }
    }
}

impl View for InterfaceBlock {
    type V = InterfaceBlockView;

    open spec fn view(&self) -> InterfaceBlockView {
        InterfaceBlockView {
            qualifier: self.qualifier@,
            name: self.name@,
            fields: struct_fields_view(self.fields@),
            identifier: view_opt(self.identifier),
        }
    }
}

impl View for Param {
    type V = ParamView;

    open spec fn view(&self) -> ParamView {
        match *self {
            Param::Named(q, t, d) => ParamView::Named(view_opt(q), t@, d@),
            Param::Unnamed(q, t) => ParamView::Unnamed(view_opt(q), t@),
        }
    }
}

impl View for Prototype {
    type V = PrototypeView;

    open spec fn view(&self) -> PrototypeView {
        PrototypeView { ty: self.ty@, name: self.name@, params: views(self.params@) }
    }
}

impl View for Decl {
    type V = DeclView;

    open spec fn view(&self) -> DeclView {
        match *self {
            Decl::Vars(l) => DeclView::Vars(l@),
            Decl::Block(b) => DeclView::Block(b@),
            Decl::Global(q, names) => DeclView::Global(q@, views(names@)),
            Decl::Prototype(p) => DeclView::Prototype(p@),
            Decl::Precision(p, t) => DeclView::Precision(p, t@),
        }
    }
}

impl View for Guard {
    type V = GuardView;

    open spec fn view(&self) -> GuardView {
        match *self {
            Guard::Expr(e) => GuardView::Expr(e@),
            Guard::Binding(t, n, i) => GuardView::Binding(t@, n@, i@),
        }
    }
}

impl View for ForInit {
    type V = ForInitView;

    open spec fn view(&self) -> ForInitView {
        match *self {
            ForInit::Expression(e) => ForInitView::Expression(view_opt(e)),
            ForInit::Declaration(d) => ForInitView::Declaration(Box::new((*d)@)),
        }
    }
}

impl View for Jump {
    type V = JumpView;

    open spec fn view(&self) -> JumpView {
        match *self {
            Jump::Continue => JumpView::Continue,
            Jump::Break => JumpView::Break,
            Jump::Return(e) => JumpView::Return(view_opt(e)),
            Jump::Discard => JumpView::Discard,
        }
    }
}

/// The view of a statement.
pub open spec fn stmt_view(s: Stmt) -> StmtView
    decreases s,
{
    match s {
        Stmt::Compound(list) => StmtView::Compound(stmts_view(list@)),
        Stmt::Declaration(d) => StmtView::Declaration(d@),
        Stmt::Expression(e) => StmtView::Expression(view_opt(e)),
        Stmt::Selection(i) => StmtView::Selection(selection_view(i)),
        Stmt::Switch(w) => StmtView::Switch(switch_view(w)),
        Stmt::Case(e) => StmtView::Case(view_opt(e)),
        Stmt::Iteration(l) => StmtView::Iteration(iteration_view(l)),
        Stmt::Jump(j) => StmtView::Jump(j@),
    }
}

/// The view of an `if` statement.
pub open spec fn selection_view(i: Selection) -> SelectionView
    decreases i,
{
    SelectionView {
        cond: i.cond@,
        body: Box::new(stmt_view(*i.body)),
        otherwise: match i.otherwise {
            Some(e) => Some(Box::new(stmt_view(*e))),
            None => None,
        },
    }
}

/// The view of a `switch` statement.
pub open spec fn switch_view(w: Switch) -> SwitchView
    decreases w,
{
    SwitchView { head: w.head@, body: stmts_view(w.body@) }
}

/// The view of a loop.
pub open spec fn iteration_view(l: Iteration) -> IterationView
    decreases l,
{
    match l {
        Iteration::While(g, body) => IterationView::While(g@, Box::new(stmt_view(*body))),
        Iteration::DoWhile(body, e) => IterationView::DoWhile(Box::new(stmt_view(*body)), e@),
        Iteration::For(init, g, post, body) => IterationView::For(
            init@,
            view_opt(g),
            view_opt(post),
            Box::new(stmt_view(*body)),
        ),
    }
}

/// The views of statements, in order.
pub open spec fn stmts_view(s: Seq<Stmt>) -> Seq<StmtView>
    decreases s,
{
    Seq::new(
        s.len(),
        |i: int|
            if 0 <= i < s.len() {
                stmt_view(s[i])
            } else {
                arbitrary()
            },
    )
}

impl View for Stmt {
    type V = StmtView;

    open spec fn view(&self) -> StmtView {
        stmt_view(*self)
    }
}

impl View for Selection {
    type V = SelectionView;

    open spec fn view(&self) -> SelectionView {
        selection_view(*self)
    }
}

impl View for Switch {
    type V = SwitchView;

    open spec fn view(&self) -> SwitchView {
        switch_view(*self)
    }
}

impl View for Iteration {
    type V = IterationView;

    open spec fn view(&self) -> IterationView {
        iteration_view(*self)
    }
}

impl View for FunctionDef {
    type V = FunctionDefView;

    open spec fn view(&self) -> FunctionDefView {
        FunctionDefView {
            ty: self.ty@,
            name: self.name@,
            params: views(self.params@),
            body: stmts_view(self.body@),
        }
    }
}

impl View for ExternalDecl {
    type V = ExternalDeclView;

    open spec fn view(&self) -> ExternalDeclView {
        match *self {
            ExternalDecl::Function(f) => ExternalDeclView::Function(f@),
            ExternalDecl::Declaration(d) => ExternalDeclView::Declaration(d@),
            ExternalDecl::Directive(p) => ExternalDeclView::Directive(p),
        }
    }
}

impl View for Import {
    type V = ImportView;

    open spec fn view(&self) -> ImportView {
        ImportView { path: views(self.path@), symbols: views(self.symbols@) }
    }
}

} // verus!
