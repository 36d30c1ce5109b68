//! Copies of the nodes of the declaration tree. A copy has the view of the node copied.
use vstd::prelude::*;
use vstd::pervasive::cloned;
use crate::syntax::{
    ArrayDim, ArraySpec, Callee, Constant, Decl, Declarator, Expression, ExternalDecl, ForInit,
    FullType, FunctionDef, Guard, Import, InitDeclList, InitialValue, InterfaceBlock, Iteration,
    Jump, Layout, LayoutId, Operation, Param, Prototype, Qualifier, QualifierSpec, Selection,
    SingleDecl, Stmt, Storage, StructDef, StructField, Switch, TailDecl, TypeKind, TypeSpec,
};
use crate::view::{
    array_dims_view, expressions_view, initial_values_view, stmts_view, struct_fields_view,
    view_opt, views,
};

verus! {

/// Whether every copy that `T::clone` can give has the view of the value copied.
pub open spec fn clone_keeps_view<T: Clone + View>() -> bool {
    forall|a: T, b: T| #[trigger] cloned::<T>(a, b) ==> a@ == b@
}

/// Copies a list item by item.
pub fn clone_list<T: Clone + View>(v: &Vec<T>) -> (res: Vec<T>)
    requires
        clone_keeps_view::<T>(),
    ensures
        views(res@) == views(v@),
{
    let mut out: Vec<T> = Vec::new();
    let mut i: usize = 0;
    while i < v.len()
        invariant
            i <= v.len(),
            out@.len() == i,
            clone_keeps_view::<T>(),
            forall|j: int| 0 <= j < i ==> out@[j]@ == v@[j]@,
        decreases v.len() - i,
    {
        let item = v[i].clone();
        assert(cloned::<T>(v@[i as int], item));
        out.push(item);
        i = i + 1;
    }
    assert(views(out@) =~= views(v@));
    out
}

/// Copies an optional item.
pub fn clone_opt<T: Clone + View>(o: &Option<T>) -> (res: Option<T>)
    requires
        clone_keeps_view::<T>(),
    ensures
        view_opt(res) == view_opt(*o),
{
    match o {
        Some(t) => {
            let item = t.clone();
            assert(cloned::<T>(*t, item));
            Some(item)
        },
        None => None,
    }
}

/// Copies a list of expressions.
pub fn clone_expressions(v: &Vec<Expression>) -> (res: Vec<Expression>)
    ensures
        expressions_view(res@) == expressions_view(v@),
    decreases v,
{
    let mut out: Vec<Expression> = Vec::new();
    let mut i: usize = 0;
    while i < v.len()
        invariant
            i <= v.len(),
            out@.len() == i,
            forall|j: int| 0 <= j < i ==> out@[j]@ == v@[j]@,
        decreases v.len() - i,
    {
        let item = v[i].clone();
        out.push(item);
        i = i + 1;
    }
    assert(expressions_view(out@) =~= expressions_view(v@));
    out
}

impl Clone for Expression {
    fn clone(&self) -> (res: Self)
        ensures
            res@ == self@,
        decreases self,
    {
        match self {
            Expression::Variable(n) => Expression::Variable(n.clone()),
            Expression::IntConst(i) => Expression::IntConst(*i),
            Expression::Assign(l, r) => Expression::Assign(
                Box::new((&**l).clone()),
                Box::new((&**r).clone()),
            ),
            Expression::Bracket(b, a) => Expression::Bracket(Box::new((&**b).clone()), a.clone()),
            Expression::Call(f, args) => Expression::Call(f.clone(), clone_expressions(args)),
            Expression::Dot(b, n) => Expression::Dot(Box::new((&**b).clone()), n.clone()),
            Expression::Constant(c) => Expression::Constant(c.clone()),
            Expression::Operation(o) => Expression::Operation(o.clone()),
        }
    }
}

impl Clone for Constant {
    fn clone(&self) -> (res: Self)
        ensures
            res@ == self@,
    {
        match self {
            Constant::UInt(v) => Constant::UInt(*v),
            Constant::Bool(b) => Constant::Bool(*b),
            Constant::Real(r) => Constant::Real(r.clone()),
        }
    }
}

impl Clone for Operation {
    fn clone(&self) -> (res: Self)
        ensures
            res@ == self@,
        decreases self,
    {
        match self {
            Operation::Prefix(op, a) => Operation::Prefix(*op, Box::new((&**a).clone())),
            Operation::Infix(op, a, b) => Operation::Infix(
                *op,
                Box::new((&**a).clone()),
                Box::new((&**b).clone()),
            ),
            Operation::Ternary(a, b, c) => Operation::Ternary(
                Box::new((&**a).clone()),
                Box::new((&**b).clone()),
                Box::new((&**c).clone()),
            ),
            Operation::Assign(a, op, b) => Operation::Assign(
                Box::new((&**a).clone()),
                *op,
                Box::new((&**b).clone()),
            ),
            Operation::PostInc(a) => Operation::PostInc(Box::new((&**a).clone())),
            Operation::PostDec(a) => Operation::PostDec(Box::new((&**a).clone())),
            Operation::Comma(a, b) => Operation::Comma(
                Box::new((&**a).clone()),
                Box::new((&**b).clone()),
            ),
        }
    }
}

impl Clone for Callee {
    fn clone(&self) -> (res: Self)
        ensures
            res@ == self@,
        decreases self,
    {
        match self {
            Callee::Name(n) => Callee::Name(n.clone()),
            Callee::Expr(b) => Callee::Expr(Box::new((&**b).clone())),
        }
    }
}

impl Clone for ArrayDim {
    fn clone(&self) -> (res: Self)
        ensures
            res@ == self@,
        decreases self,
    {
        match self {
            ArrayDim::Unsized => ArrayDim::Unsized,
            ArrayDim::Sized(b) => ArrayDim::Sized(Box::new((&**b).clone())),
        }
    }
}

impl Clone for ArraySpec {
    fn clone(&self) -> (res: Self)
        ensures
            res@ == self@,
        decreases self,
    {
        let mut out: Vec<ArrayDim> = Vec::new();
        let mut i: usize = 0;
        while i < self.dims.len()
            invariant
                i <= self.dims.len(),
                out@.len() == i,
                forall|j: int| 0 <= j < i ==> out@[j]@ == self.dims@[j]@,
            decreases self.dims.len() - i,
        {
            let item = self.dims[i].clone();
            out.push(item);
            i = i + 1;
        }
        assert(array_dims_view(out@) =~= array_dims_view(self.dims@));
        ArraySpec { dims: out }
    }
}

impl Clone for Declarator {
    fn clone(&self) -> (res: Self)
        ensures
            res@ == self@,
    {
        Declarator { name: self.name.clone(), array: clone_opt(&self.array) }
    }
}

impl Clone for LayoutId {
    fn clone(&self) -> (res: Self)
        ensures
            res@ == self@,
    {
        match self {
            LayoutId::Named(n, Some(e)) => LayoutId::Named(
                n.clone(),
                Some(Box::new((&**e).clone())),
            ),
            LayoutId::Named(n, None) => LayoutId::Named(n.clone(), None),
            LayoutId::Shared => LayoutId::Shared,
        }
    }
}

impl Clone for Layout {
    fn clone(&self) -> (res: Self)
        ensures
            res@ == self@,
    {
        Layout { first: self.first.clone(), rest: clone_list(&self.rest) }
    }
}

impl Clone for Storage {
    fn clone(&self) -> (res: Self)
        ensures
            res@ == self@,
    {
        match self {
            Storage::Const => Storage::Const,
            Storage::InOut => Storage::InOut,
            Storage::Centroid => Storage::Centroid,
            Storage::Patch => Storage::Patch,
            Storage::Sample => Storage::Sample,
            Storage::Attribute => Storage::Attribute,
            Storage::Varying => Storage::Varying,
            Storage::Buffer => Storage::Buffer,
            Storage::Shared => Storage::Shared,
            Storage::Subroutine(names) => Storage::Subroutine(clone_list(names)),
        }
    }
}

impl Clone for QualifierSpec {
    fn clone(&self) -> (res: Self)
        ensures
            res@ == self@,
    {
        match self {
            QualifierSpec::In => QualifierSpec::In,
            QualifierSpec::Out => QualifierSpec::Out,
            QualifierSpec::Uniform => QualifierSpec::Uniform,
            QualifierSpec::Storage(s) => QualifierSpec::Storage(s.clone()),
            QualifierSpec::Memory(m) => QualifierSpec::Memory(*m),
            QualifierSpec::Layout(l) => QualifierSpec::Layout(l.clone()),
            QualifierSpec::Precision(p) => QualifierSpec::Precision(*p),
            QualifierSpec::Interpolation(i) => QualifierSpec::Interpolation(*i),
            QualifierSpec::Invariant => QualifierSpec::Invariant,
            QualifierSpec::Precise => QualifierSpec::Precise,
        }
    }
}

impl Clone for Qualifier {
    fn clone(&self) -> (res: Self)
        ensures
            res@ == self@,
    {
        Qualifier { first: self.first.clone(), rest: clone_list(&self.rest) }
    }
}

impl Clone for TypeKind {
    fn clone(&self) -> (res: Self)
        ensures
            res@ == self@,
        decreases self,
    {
        match self {
            TypeKind::Vec4 => TypeKind::Vec4,
            TypeKind::Struct(s) => TypeKind::Struct(s.clone()),
            TypeKind::Named(n) => TypeKind::Named(n.clone()),
            TypeKind::BuiltIn(b) => TypeKind::BuiltIn(*b),
        }
    }
}

impl Clone for TypeSpec {
    fn clone(&self) -> (res: Self)
        ensures
            res@ == self@,
        decreases self,
    {
        TypeSpec { kind: self.kind.clone(), array: clone_opt(&self.array) }
    }
}

impl Clone for StructField {
    fn clone(&self) -> (res: Self)
        ensures
            res@ == self@,
        decreases self,
    {
        StructField {
            qualifier: clone_opt(&self.qualifier),
            ty: self.ty.clone(),
            first: self.first.clone(),
            rest: clone_list(&self.rest),
        }
    }
}

/// Copies a list of struct fields.
pub fn clone_struct_fields(v: &Vec<StructField>) -> (res: Vec<StructField>)
    ensures
        struct_fields_view(res@) == struct_fields_view(v@),
    decreases v,
{
    let mut out: Vec<StructField> = Vec::new();
    let mut i: usize = 0;
    while i < v.len()
        invariant
            i <= v.len(),
            out@.len() == i,
            forall|j: int| 0 <= j < i ==> out@[j]@ == v@[j]@,
        decreases v.len() - i,
    {
        let item = v[i].clone();
        out.push(item);
        i = i + 1;
    }
    assert(struct_fields_view(out@) =~= struct_fields_view(v@));
    out
}

impl Clone for StructDef {
    fn clone(&self) -> (res: Self)
        ensures
            res@ == self@,
        decreases self,
    {
        StructDef { name: clone_opt(&self.name), fields: clone_struct_fields(&self.fields) }
    }
}

impl Clone for FullType {
    fn clone(&self) -> (res: Self)
        ensures
            res@ == self@,
    {
        FullType { qualifier: clone_opt(&self.qualifier), ty: self.ty.clone() }
    }
}

impl Clone for InitialValue {
    fn clone(&self) -> (res: Self)
        ensures
            res@ == self@,
        decreases self,
    {
        match self {
            InitialValue::Simple(e) => InitialValue::Simple(e.clone()),
            InitialValue::List(first, rest) => InitialValue::List(
                Box::new((&**first).clone()),
                clone_initial_values(rest),
            ),
        }
    }
}

/// Copies a list of initial values.
pub fn clone_initial_values(v: &Vec<InitialValue>) -> (res: Vec<InitialValue>)
    ensures
        initial_values_view(res@) == initial_values_view(v@),
    decreases v,
{
    let mut out: Vec<InitialValue> = Vec::new();
    let mut i: usize = 0;
    while i < v.len()
        invariant
            i <= v.len(),
            out@.len() == i,
            forall|j: int| 0 <= j < i ==> out@[j]@ == v@[j]@,
        decreases v.len() - i,
    {
        let item = v[i].clone();
        out.push(item);
        i = i + 1;
    }
    assert(initial_values_view(out@) =~= initial_values_view(v@));
    out
}

impl Clone for SingleDecl {
    fn clone(&self) -> (res: Self)
        ensures
            res@ == self@,
    {
        SingleDecl {
            ty: self.ty.clone(),
            name: clone_opt(&self.name),
            array: clone_opt(&self.array),
            initializer: clone_opt(&self.initializer),
        }
    }
}

impl Clone for TailDecl {
    fn clone(&self) -> (res: Self)
        ensures
            res@ == self@,
    {
        TailDecl { ident: self.ident.clone(), initializer: clone_opt(&self.initializer) }
    }
}

impl Clone for InitDeclList {
    fn clone(&self) -> (res: Self)
        ensures
            res@ == self@,
    {
        InitDeclList { head: self.head.clone(), tail: clone_list(&self.tail) }
    }
}

impl Clone for InterfaceBlock {
    fn clone(&self) -> (res: Self)
        ensures
            res@ == self@,
    {
        InterfaceBlock {
            qualifier: self.qualifier.clone(),
            name: self.name.clone(),
            fields: clone_struct_fields(&self.fields),
            identifier: clone_opt(&self.identifier),
        }
    }
}

impl Clone for Param {
    fn clone(&self) -> (res: Self)
        ensures
            res@ == self@,
    {
        match self {
            Param::Named(q, t, d) => Param::Named(clone_opt(q), t.clone(), d.clone()),
            Param::Unnamed(q, t) => Param::Unnamed(clone_opt(q), t.clone()),
        }
    }
}

impl Clone for Prototype {
    fn clone(&self) -> (res: Self)
        ensures
            res@ == self@,
    {
        Prototype {
            ty: self.ty.clone(),
            name: self.name.clone(),
            params: clone_list(&self.params),
        }
    }
}

impl Clone for Decl {
    fn clone(&self) -> (res: Self)
        ensures
            res@ == self@,
    {
        match self {
            Decl::Vars(l) => Decl::Vars(l.clone()),
            Decl::Block(b) => Decl::Block(b.clone()),
            Decl::Global(q, names) => Decl::Global(q.clone(), clone_list(names)),
            Decl::Prototype(p) => Decl::Prototype(p.clone()),
            Decl::Precision(p, t) => Decl::Precision(*p, t.clone()),
        }
    }
}

impl Clone for Guard {
    fn clone(&self) -> (res: Self)
        ensures
            res@ == self@,
    {
        match self {
            Guard::Expr(e) => Guard::Expr(e.clone()),
            Guard::Binding(t, n, i) => Guard::Binding(t.clone(), n.clone(), i.clone()),
        }
    }
}

impl Clone for ForInit {
    fn clone(&self) -> (res: Self)
        ensures
            res@ == self@,
    {
        match self {
            ForInit::Expression(e) => ForInit::Expression(clone_opt(e)),
            ForInit::Declaration(d) => ForInit::Declaration(Box::new((&**d).clone())),
        }
    }
}

impl Clone for Jump {
    fn clone(&self) -> (res: Self)
        ensures
            res@ == self@,
    {
        match self {
            Jump::Continue => Jump::Continue,
            Jump::Break => Jump::Break,
            Jump::Return(e) => Jump::Return(clone_opt(e)),
            Jump::Discard => Jump::Discard,
        }
    }
}

/// Copies a list of statements.
pub fn clone_stmts(v: &Vec<Stmt>) -> (res: Vec<Stmt>)
    ensures
        stmts_view(res@) == stmts_view(v@),
    decreases v,
{
    let mut out: Vec<Stmt> = Vec::new();
    let mut i: usize = 0;
    while i < v.len()
        invariant
            i <= v.len(),
            out@.len() == i,
            forall|j: int| 0 <= j < i ==> out@[j]@ == v@[j]@,
        decreases v.len() - i,
    {
        let item = v[i].clone();
        out.push(item);
        i = i + 1;
    }
    assert(stmts_view(out@) =~= stmts_view(v@));
    out
}

impl Clone for Stmt {
    fn clone(&self) -> (res: Self)
        ensures
            res@ == self@,
        decreases self,
    {
        match self {
            Stmt::Compound(list) => Stmt::Compound(clone_stmts(list)),
            Stmt::Declaration(d) => Stmt::Declaration(d.clone()),
            Stmt::Expression(e) => Stmt::Expression(clone_opt(e)),
            Stmt::Selection(i) => Stmt::Selection(i.clone()),
            Stmt::Switch(w) => Stmt::Switch(w.clone()),
            Stmt::Case(e) => Stmt::Case(clone_opt(e)),
            Stmt::Iteration(l) => Stmt::Iteration(l.clone()),
            Stmt::Jump(j) => Stmt::Jump(j.clone()),
        }
    }
}

impl Clone for Selection {
    fn clone(&self) -> (res: Self)
        ensures
            res@ == self@,
        decreases self,
    {
        Selection {
            cond: self.cond.clone(),
            body: Box::new((&*self.body).clone()),
            otherwise: match &self.otherwise {
                Some(e) => Some(Box::new((&**e).clone())),
                None => None,
            },
        }
    }
}

impl Clone for Switch {
    fn clone(&self) -> (res: Self)
        ensures
            res@ == self@,
        decreases self,
    {
        Switch { head: self.head.clone(), body: clone_stmts(&self.body) }
    }
}

impl Clone for Iteration {
    fn clone(&self) -> (res: Self)
        ensures
            res@ == self@,
        decreases self,
    {
        match self {
            Iteration::While(g, body) => Iteration::While(
                g.clone(),
                Box::new((&**body).clone()),
            ),
            Iteration::DoWhile(body, e) => Iteration::DoWhile(
                Box::new((&**body).clone()),
                e.clone(),
            ),
            Iteration::For(init, g, post, body) => Iteration::For(
                init.clone(),
                clone_opt(g),
                clone_opt(post),
                Box::new((&**body).clone()),
            ),
        }
    }
}

impl Clone for FunctionDef {
    fn clone(&self) -> (res: Self)
        ensures
            res@ == self@,
    {
        FunctionDef {
            ty: self.ty.clone(),
            name: self.name.clone(),
            params: clone_list(&self.params),
            body: clone_stmts(&self.body),
        }
    }
}

impl Clone for ExternalDecl {
    fn clone(&self) -> (res: Self)
        ensures
            res@ == self@,
    {
        match self {
            ExternalDecl::Function(f) => ExternalDecl::Function(f.clone()),
            ExternalDecl::Declaration(d) => ExternalDecl::Declaration(d.clone()),
            ExternalDecl::Directive(p) => ExternalDecl::Directive(p.clone()),
        }
    }
}

impl Clone for Import {
    fn clone(&self) -> (res: Self)
        ensures
            res@ == self@,
    {
        Import { path: clone_list(&self.path), symbols: clone_list(&self.symbols) }
    }
}

} // verus!
