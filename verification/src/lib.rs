//! Constraint generation for Hindley-Milner style type inference over a small
//! expression language: given a syntax tree whose nodes were annotated with
//! fresh type variables, walk the tree and emit the type-equality obligations
//! that a unification solver later discharges.

pub mod bindings;
pub mod constraint;
pub mod term;
