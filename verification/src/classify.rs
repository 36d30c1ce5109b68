//! Classification of the declarations of a module: its uniforms, its interface blocks, its
//! functions and its structs, each list in source order.
use vstd::prelude::*;
use crate::copy::clone_opt;
use crate::module::Module;
use crate::syntax::{
    Decl, ExternalDecl, FunctionDef, InterfaceBlock, Qualifier, QualifierSpec, SingleDecl,
    StructDef, TypeKind,
};
use crate::view::{
    views, DeclView, ExternalDeclView, FunctionDefView, InterfaceBlockView, QualifierSpecView,
    SingleDeclView, StructDefView, TailDeclView, TypeKindView,
};

verus! {

/// The declaration of a further name of a list, with the type of the head.
pub open spec fn tail_uniform(head: SingleDeclView, next: TailDeclView) -> SingleDeclView {
    SingleDeclView {
        ty: head.ty,
        name: Some(next.ident.name),
        array: next.ident.array,
        initializer: None,
    }
}

/// The uniforms that a declaration declares: where the type of a variable-like declaration
/// is qualified `uniform`, its head and one declaration for each further name.
pub open spec fn uniforms_of(d: ExternalDeclView) -> Seq<SingleDeclView> {
    match d {
        ExternalDeclView::Declaration(DeclView::Vars(list)) => match list.head.ty.qualifier {
            Some(q) => if q.contains(QualifierSpecView::Uniform) {
                seq![list.head] + Seq::new(
                    list.tail.len(),
                    |i: int| tail_uniform(list.head, list.tail[i]),
                )
            } else {
                Seq::empty()
            },
            None => Seq::empty(),
        },
        _ => Seq::empty(),
    }
}

/// The uniforms of a list of declarations.
pub open spec fn all_uniforms(decls: Seq<ExternalDeclView>) -> Seq<SingleDeclView>
    decreases decls.len(),
{
    if decls.len() == 0 {
        Seq::empty()
    } else {
        all_uniforms(decls.drop_last()) + uniforms_of(decls.last())
    }
}

/// The interface blocks of a list of declarations.
pub open spec fn all_blocks(decls: Seq<ExternalDeclView>) -> Seq<InterfaceBlockView>
    decreases decls.len(),
{
    if decls.len() == 0 {
        Seq::empty()
    } else {
        match decls.last() {
            ExternalDeclView::Declaration(DeclView::Block(b)) => all_blocks(
                decls.drop_last(),
            ).push(b),
            _ => all_blocks(decls.drop_last()),
        }
    }
}

/// The functions of a list of declarations.
pub open spec fn all_functions(decls: Seq<ExternalDeclView>) -> Seq<FunctionDefView>
    decreases decls.len(),
{
    if decls.len() == 0 {
        Seq::empty()
    } else {
        match decls.last() {
            ExternalDeclView::Function(f) => all_functions(decls.drop_last()).push(f),
            _ => all_functions(decls.drop_last()),
        }
    }
}

/// The struct that a declaration defines: the type of the head of a variable-like
/// declaration, where it is a struct defined in place.
pub open spec fn struct_of(d: ExternalDeclView) -> Option<StructDefView> {
    match d {
        ExternalDeclView::Declaration(DeclView::Vars(list)) => match list.head.ty.ty.kind {
            TypeKindView::Struct(s) => Some(s),
            _ => None,
        },
        _ => None,
    }
}

/// The structs of a list of declarations.
pub open spec fn all_structs(decls: Seq<ExternalDeclView>) -> Seq<StructDefView>
    decreases decls.len(),
{
    if decls.len() == 0 {
        Seq::empty()
    } else {
        match struct_of(decls.last()) {
            Some(s) => all_structs(decls.drop_last()).push(s),
            None => all_structs(decls.drop_last()),
        }
    }
}

/// Whether `uniform` is among the qualifiers of a type.
pub fn has_uniform(q: &Qualifier) -> (res: bool)
    ensures
        res == q@.contains(QualifierSpecView::Uniform),
{
    if let QualifierSpec::Uniform = q.first {
        assert(q@[0] == QualifierSpecView::Uniform);
        return true;
    }
    let mut i: usize = 0;
    while i < q.rest.len()
        invariant
            i <= q.rest.len(),
            q.first@ != QualifierSpecView::Uniform,
            forall|j: int| 0 <= j < i ==> q.rest@[j]@ != QualifierSpecView::Uniform,
        decreases q.rest.len() - i,
    {
        if let QualifierSpec::Uniform = q.rest[i] {
            assert(q@[i + 1] == QualifierSpecView::Uniform);
            return true;
        }
        i = i + 1;
    }
    assert forall|j: int| 0 <= j < q@.len() implies q@[j] != QualifierSpecView::Uniform by {
        if j > 0 {
            assert(q@[j] == q.rest@[j - 1]@);
        }
    }
    false
}

/// Adds to a list the uniforms that a declaration declares.
fn push_uniforms(uniforms: &mut Vec<SingleDecl>, d: &ExternalDecl)
    ensures
        views(final(uniforms)@) == views(old(uniforms)@) + uniforms_of(d@),
{
    let ghost start = views(uniforms@);
    assert(start + Seq::<SingleDeclView>::empty() =~= start);
    if let ExternalDecl::Declaration(Decl::Vars(list)) = d {
        if let Some(q) = &list.head.ty.qualifier {
            if has_uniform(q) {
                uniforms.push(list.head.clone());
                assert(views(uniforms@) =~= start + seq![list.head@]);
                let mut i: usize = 0;
                while i < list.tail.len()
                    invariant
                        i <= list.tail.len(),
                        views(uniforms@) == start + (seq![list.head@] + Seq::new(
                            i as nat,
                            |j: int| tail_uniform(list.head@, list.tail@[j]@),
                        )),
                    decreases list.tail.len() - i,
                {
                    let ghost before = views(uniforms@);
                    let next = &list.tail[i];
                    let decl = SingleDecl {
                        ty: list.head.ty.clone(),
                        name: Some(next.ident.name.clone()),
                        array: clone_opt(&next.ident.array),
                        initializer: None,
                    };
                    uniforms.push(decl);
                    assert(views(uniforms@) =~= before.push(
                        tail_uniform(list.head@, list.tail@[i as int]@),
                    ));
                    i = i + 1;
                    assert(views(uniforms@) =~= start + (seq![list.head@] + Seq::new(
                        i as nat,
                        |j: int| tail_uniform(list.head@, list.tail@[j]@),
                    )));
                }
                assert(Seq::new(
                    i as nat,
                    |j: int| tail_uniform(list.head@, list.tail@[j]@),
                ) =~= Seq::new(
                    list@.tail.len(),
                    |j: int| tail_uniform(list@.head, list@.tail[j]),
                ));
            }
        }
    }
}

impl Module {
    /// Gets all the uniforms defined in a module.
    pub fn uniforms(&self) -> (res: Vec<SingleDecl>)
        ensures
            views(res@) == all_uniforms(self@.glsl),
    {
        let mut uniforms: Vec<SingleDecl> = Vec::new();
        let ghost all = self@.glsl;
        let mut i: usize = 0;
        assert(all.subrange(0, 0) =~= Seq::<ExternalDeclView>::empty());
        assert(views(uniforms@) =~= Seq::<SingleDeclView>::empty());
        while i < self.glsl.len()
            invariant
                i <= self.glsl.len(),
                all == self@.glsl,
                views(uniforms@) == all_uniforms(all.subrange(0, i as int)),
            decreases self.glsl.len() - i,
        {
            assert(all.subrange(0, i + 1).drop_last() =~= all.subrange(0, i as int));
            assert(all.subrange(0, i + 1).last() == self.glsl@[i as int]@);
            push_uniforms(&mut uniforms, &self.glsl[i]);
            i = i + 1;
        }
        assert(all.subrange(0, i as int) =~= all);
        uniforms
    }

    /// Gets all the blocks defined in a module.
    pub fn blocks(&self) -> (res: Vec<InterfaceBlock>)
        ensures
            views(res@) == all_blocks(self@.glsl),
    {
        let mut blocks: Vec<InterfaceBlock> = Vec::new();
        let ghost all = self@.glsl;
        let mut i: usize = 0;
        assert(all.subrange(0, 0) =~= Seq::<ExternalDeclView>::empty());
        assert(views(blocks@) =~= Seq::<InterfaceBlockView>::empty());
        while i < self.glsl.len()
            invariant
                i <= self.glsl.len(),
                all == self@.glsl,
                views(blocks@) == all_blocks(all.subrange(0, i as int)),
            decreases self.glsl.len() - i,
        {
            assert(all.subrange(0, i + 1).drop_last() =~= all.subrange(0, i as int));
            assert(all.subrange(0, i + 1).last() == self.glsl@[i as int]@);
            if let ExternalDecl::Declaration(Decl::Block(b)) = &self.glsl[i] {
                let ghost before = views(blocks@);
                blocks.push(b.clone());
                assert(views(blocks@) =~= before.push(b@));
            }
            i = i + 1;
        }
        assert(all.subrange(0, i as int) =~= all);
        blocks
    }

    /// Gets all the functions.
    pub fn functions(&self) -> (res: Vec<FunctionDef>)
        ensures
            views(res@) == all_functions(self@.glsl),
    {
        let mut functions: Vec<FunctionDef> = Vec::new();
        let ghost all = self@.glsl;
        let mut i: usize = 0;
        assert(all.subrange(0, 0) =~= Seq::<ExternalDeclView>::empty());
        assert(views(functions@) =~= Seq::<FunctionDefView>::empty());
        while i < self.glsl.len()
            invariant
                i <= self.glsl.len(),
                all == self@.glsl,
                views(functions@) == all_functions(all.subrange(0, i as int)),
            decreases self.glsl.len() - i,
        {
            assert(all.subrange(0, i + 1).drop_last() =~= all.subrange(0, i as int));
            assert(all.subrange(0, i + 1).last() == self.glsl@[i as int]@);
            if let ExternalDecl::Function(f) = &self.glsl[i] {
                let ghost before = views(functions@);
                functions.push(f.clone());
                assert(views(functions@) =~= before.push(f@));
            }
            i = i + 1;
        }
        assert(all.subrange(0, i as int) =~= all);
        functions
    }

    /// Gets all the declared structures.
    pub fn structs(&self) -> (res: Vec<StructDef>)
        ensures
            views(res@) == all_structs(self@.glsl),
    {
        let mut structs: Vec<StructDef> = Vec::new();
        let ghost all = self@.glsl;
        let mut i: usize = 0;
        assert(all.subrange(0, 0) =~= Seq::<ExternalDeclView>::empty());
        assert(views(structs@) =~= Seq::<StructDefView>::empty());
        while i < self.glsl.len()
            invariant
                i <= self.glsl.len(),
                all == self@.glsl,
                views(structs@) == all_structs(all.subrange(0, i as int)),
            decreases self.glsl.len() - i,
        {
            assert(all.subrange(0, i + 1).drop_last() =~= all.subrange(0, i as int));
            assert(all.subrange(0, i + 1).last() == self.glsl@[i as int]@);
            if let ExternalDecl::Declaration(Decl::Vars(list)) = &self.glsl[i] {
                if let TypeKind::Struct(s) = &list.head.ty.ty.kind {
                    let ghost before = views(structs@);
                    structs.push(s.clone());
                    assert(views(structs@) =~= before.push(s@));
                }
            }
            i = i + 1;
        }
        assert(all.subrange(0, i as int) =~= all);
        structs
    }
}

} // verus!
