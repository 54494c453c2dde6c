use vstd::prelude::*;

verus! {

/// Why an exposed view was refused as the top level of an expression.
#[derive(Clone, Copy, Debug, PartialEq, Eq, Structural)]
pub enum ScopeError {
    /// A variable's index is not below the number of free term variables of
    /// the scope it occurs in.
    IndexOutOfRange,
    /// A type expression ranges over another number of free type variables
    /// than the scope it is read in.
    TypeArityMismatch,
    /// The counts of two expressions do not differ by the number of names
    /// bound between them.
    BinderArityMismatch,
    /// A binding form that must bind at least one name binds none.
    EmptyBinderList,
}

} // verus!
