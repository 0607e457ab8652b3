//! Generation of cross-language bindings: the data model of an interface,
//! the mapping of types, and the ordering and emission of declarations.

pub mod adt;
pub mod cc_ident;
pub mod cc_type_names;
pub mod clang_libs;
pub mod cmdline;
pub mod emit;
pub mod error;
pub mod error_report;
pub mod features;
pub mod fields;
pub mod function;
pub mod ir;
pub mod ir_db;
pub mod ir_queries;
pub mod items;
pub mod laws;
pub mod names;
pub mod prereqs;
pub mod reported;
pub mod rs_api;
pub mod rs_driver;
pub mod rs_model;
pub mod rs_type_kind;
pub mod special_members;
pub mod text;
pub mod thunks;
pub mod toposort;
pub mod type_map;
