//! A verified core of a type checker for a small systems language with
//! resources, capabilities (interfaces), closures and async futures.
pub mod ty;
pub mod props;
pub mod diag;
pub mod checker;
pub mod literal;
pub mod assign;
pub mod lookup;
pub mod texpr;
pub mod checks;
pub mod generic;
pub mod affine;
pub mod capability;
pub mod capability_checks;
pub mod infer;
pub mod opaque;
pub mod asyncty;
pub mod lvalue;
pub mod selector;
pub mod boundary;
pub mod flow;
pub mod laws;
pub mod binary;
pub mod consume;
pub mod partial;
pub mod cabi;
pub mod actor;
pub mod scope;
pub mod field;
pub mod meta;
pub mod render;
pub mod normalize;
pub mod unify;
pub mod place;
