//! What can go wrong when a module is lowered to the sources of its stages.
use vstd::prelude::*;
use crate::copy::clone_opt;
use crate::syntax::{Qualifier, StructField, TypeSpec};
use crate::view::{view_opt, QualifierView, StructFieldView, Text, TypeSpecView};

verus! {

/// Errors of the lowering of a module.
#[derive(Debug, PartialEq)]
pub enum GLSLConversionError {
    /// The module has no `map_vertex` function.
    NoVertexShader,
    /// The module has no `map_frag_data` function.
    NoFragmentShader,
    /// The return type of `map_vertex` carries a qualifier.
    OutputHasMainQualifier,
    /// The type does not name a struct that the module defines; or, for what `map_vertex`
    /// returns, it names a struct without field.
    ReturnTypeMustBeAStruct(TypeSpec),
    /// The first field of the vertex output is not `vec4 chdr_Position` without qualifier.
    WrongOutputFirstField(StructField),
    /// The field at this position, counted from one, is a struct defined in place.
    OutputFieldCannotBeStruct(usize),
    /// The field at this position, counted from one, has a type given by name.
    OutputFieldCannotBeTypeName(usize, String),
    /// The input of a stage has a type that is not the output of the stage before it.
    UnknownInputType(String),
    /// The number of arguments expected, and the number found.
    WrongNumberOfArgs(usize, usize),
    /// The type of an input is not given by name.
    NotTypeName,
    /// The parameter of `map_frag_data` has no name.
    UnnamedInput,
    /// The vertex array of `concat_map_prim` has no single dimension that is an integer
    /// literal.
    WrongGeometryInput,
    /// The vertex array of `concat_map_prim` has a dimension that names no primitive.
    WrongGeometryInputDim(usize),
    /// The output of `concat_map_prim` is not qualified as
    /// `layout (primitive, max_vertices = N) out`.
    WrongGeometryOutputLayout(Option<Qualifier>),
}

pub ghost enum GLSLConversionErrorView {
    NoVertexShader,
    NoFragmentShader,
    OutputHasMainQualifier,
    ReturnTypeMustBeAStruct(TypeSpecView),
    WrongOutputFirstField(StructFieldView),
    OutputFieldCannotBeStruct(usize),
    OutputFieldCannotBeTypeName(usize, Text),
    UnknownInputType(Text),
    WrongNumberOfArgs(usize, usize),
    NotTypeName,
    UnnamedInput,
    WrongGeometryInput,
    WrongGeometryInputDim(usize),
    WrongGeometryOutputLayout(Option<QualifierView>),
}

impl View for GLSLConversionError {
    type V = GLSLConversionErrorView;

    open spec fn view(&self) -> GLSLConversionErrorView {
        match *self {
            GLSLConversionError::NoVertexShader => GLSLConversionErrorView::NoVertexShader,
            GLSLConversionError::NoFragmentShader => GLSLConversionErrorView::NoFragmentShader,
            GLSLConversionError::OutputHasMainQualifier =>
                GLSLConversionErrorView::OutputHasMainQualifier,
            GLSLConversionError::ReturnTypeMustBeAStruct(t) =>
                GLSLConversionErrorView::ReturnTypeMustBeAStruct(t@),
            GLSLConversionError::WrongOutputFirstField(f) =>
                GLSLConversionErrorView::WrongOutputFirstField(f@),
            GLSLConversionError::OutputFieldCannotBeStruct(i) =>
                GLSLConversionErrorView::OutputFieldCannotBeStruct(i),
            GLSLConversionError::OutputFieldCannotBeTypeName(i, n) =>
                GLSLConversionErrorView::OutputFieldCannotBeTypeName(i, n@),
            GLSLConversionError::UnknownInputType(n) => GLSLConversionErrorView::UnknownInputType(
                n@,
            ),
            GLSLConversionError::WrongNumberOfArgs(expected, found) =>
                GLSLConversionErrorView::WrongNumberOfArgs(expected, found),
            GLSLConversionError::NotTypeName => GLSLConversionErrorView::NotTypeName,
            GLSLConversionError::UnnamedInput => GLSLConversionErrorView::UnnamedInput,
            GLSLConversionError::WrongGeometryInput => GLSLConversionErrorView::WrongGeometryInput,
            GLSLConversionError::WrongGeometryInputDim(d) =>
                GLSLConversionErrorView::WrongGeometryInputDim(d),
            GLSLConversionError::WrongGeometryOutputLayout(q) =>
                GLSLConversionErrorView::WrongGeometryOutputLayout(view_opt(q)),
        }
    }
}

impl Clone for GLSLConversionError {
    fn clone(&self) -> (res: Self)
        ensures
            res@ == self@,
    {
        match self {
            GLSLConversionError::NoVertexShader => GLSLConversionError::NoVertexShader,
            GLSLConversionError::NoFragmentShader => GLSLConversionError::NoFragmentShader,
            GLSLConversionError::OutputHasMainQualifier =>
                GLSLConversionError::OutputHasMainQualifier,
            GLSLConversionError::ReturnTypeMustBeAStruct(t) =>
                GLSLConversionError::ReturnTypeMustBeAStruct(t.clone()),
            GLSLConversionError::WrongOutputFirstField(f) =>
                GLSLConversionError::WrongOutputFirstField(f.clone()),
            GLSLConversionError::OutputFieldCannotBeStruct(i) =>
                GLSLConversionError::OutputFieldCannotBeStruct(*i),
            GLSLConversionError::OutputFieldCannotBeTypeName(i, n) =>
                GLSLConversionError::OutputFieldCannotBeTypeName(*i, n.clone()),
            GLSLConversionError::UnknownInputType(n) => GLSLConversionError::UnknownInputType(
                n.clone(),
            ),
            GLSLConversionError::WrongNumberOfArgs(expected, found) =>
                GLSLConversionError::WrongNumberOfArgs(*expected, *found),
            GLSLConversionError::NotTypeName => GLSLConversionError::NotTypeName,
            GLSLConversionError::UnnamedInput => GLSLConversionError::UnnamedInput,
            GLSLConversionError::WrongGeometryInput => GLSLConversionError::WrongGeometryInput,
            GLSLConversionError::WrongGeometryInputDim(d) =>
                GLSLConversionError::WrongGeometryInputDim(*d),
            GLSLConversionError::WrongGeometryOutputLayout(q) =>
                GLSLConversionError::WrongGeometryOutputLayout(clone_opt(q)),
        }
    }
}

} // verus!
