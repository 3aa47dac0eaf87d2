//! Generates, for a variant-based (sum) type declaration, the source text of
//! an `ordinal` method: a routine that returns the zero-based declaration
//! index of the variant a value was constructed as, ignoring any fields the
//! variant carries.
//!
//! The transform runs in three steps, each a verified function:
//! collecting the variants of the declaration ([`decl`]), synthesizing one
//! match arm per variant ([`arms`]), and emitting the method text ([`emit`]).
//! The meaning of the synthesized arms — which rule fires on which value —
//! is modeled and proved in [`eval`].

pub mod arms;
pub mod decl;
pub mod emit;
pub mod eval;
