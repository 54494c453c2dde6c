//! Intrinsically scoped terms of a polymorphic lambda calculus with usage-tagged
//! variables and existential types.
//!
//! Binding is by de Bruijn index. An [`expr::Expr`] caches how many term
//! variables and how many type variables are free in it, and can only be built
//! one level at a time from an [`expr::ExprContent`] whose children are
//! themselves finished expressions. Every binder-crossing step adjusts the two
//! counts, so an expression that exists is well scoped.

pub mod error;
pub mod expr;
pub mod laws;
pub mod shared;
pub mod types;
