use crate::shared::share;
use std::rc::Rc;
use vstd::prelude::*;

verus! {

/// The declaration of one type parameter. Only its name is carried; binding
/// goes by position.
#[derive(Debug, PartialEq, Eq)]
pub struct TypeParam<Name> {
    pub name: Name,
}

impl<Name> TypeParam<Name> {
    pub fn new(name: Name) -> (r: Self)
        ensures
            r.name == name,
    {
        TypeParam { name }
    }
}

impl<Name: Clone> Clone for TypeParam<Name> {
    fn clone(&self) -> (r: Self)
        ensures
            cloned::<Name>(self.name, r.name),
    {
        TypeParam { name: self.name.clone() }
    }
}

/// A type expression, as far as the scoping of terms reads it: a label and the
/// number of type variables that are free in the expression.
#[derive(Debug, PartialEq, Eq)]
pub struct Type<Name> {
    free: usize,
    label: Rc<Name>,
}

impl<Name> Type<Name> {
    /// The number of free type variables, as a specification value.
    pub closed spec fn spec_free(&self) -> usize {
        self.free
    }

    /// The label, as a specification value.
    pub closed spec fn spec_label(&self) -> Name {
        *self.label
    }

    /// A type expression with the given label over `free` type variables.
    pub fn new(label: Name, free: usize) -> (r: Self)
        ensures
            r.free() == free,
            r.spec_label() == label,
    {
        Type { free, label: Rc::new(label) }
    }

    /// The number of type variables that are free in this type expression.
    #[verifier::when_used_as_spec(spec_free)]
    pub fn free(&self) -> (r: usize)
        ensures
            r == self.free(),
    {
        self.free
    }

    /// The label this type expression was made with.
    pub fn label(&self) -> (r: &Name)
        ensures
            *r == self.spec_label(),
    {
        &*self.label
    }

    /// Two type expressions with the same label over the same number of free
    /// type variables are the same type expression.
    pub proof fn lemma_same_parts(a: Self, b: Self)
        requires
            a.free() == b.free(),
            a.spec_label() == b.spec_label(),
        ensures
            a == b,
    {
    }
}

impl<Name> Clone for Type<Name> {
    /// Shares the label; nothing is copied.
    fn clone(&self) -> (r: Self)
        ensures
            r == *self,
    {
        Type { free: self.free, label: share(&self.label) }
    }
}

} // verus!
