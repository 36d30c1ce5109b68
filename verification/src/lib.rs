//! Shader modules: reading of their sources, resolution of their imports, and lowering of a
//! pipeline module to the sources of its stages.
//!
//! A module is a file of shading code that may import other modules. A pipeline module
//! defines the functions `map_vertex` and `map_frag_data`, and may define `concat_map_prim`;
//! it is lowered to the source of a vertex stage, of a fragment stage and, with
//! `concat_map_prim`, of a geometry stage.
//!
//! - [`parse`] reads the source of a module: its import statements ([`import`]) and its
//!   shading code ([`reader`]), into the declaration tree of [`syntax`].
//! - [`module`] resolves the imports of a module against a store of modules, and folds the
//!   module and its dependencies into one; [`resolution`] states what holds of every
//!   resolution.
//! - [`classify`] lists the uniforms, the blocks, the functions and the structs of a module.
//! - [`vertex`], [`geometry`] and [`fragment`] lower one stage each, over the declarations of
//!   [`interface`]; [`pipeline`] puts the stages together.
//! - [`printer`] writes the nodes of the tree as text.
pub mod classify;
pub mod copy;
pub mod error;
pub mod fragment;
pub mod geometry;
pub mod import;
pub mod interface;
pub mod module;
pub mod outside;
pub mod parse;
pub mod pipeline;
pub mod printer;
pub mod reader;
pub mod resolution;
pub mod ssl;
pub mod syntax;
pub mod text;
pub mod texture;
pub mod vertex;
pub mod view;
