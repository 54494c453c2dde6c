use std::rc::Rc;
use vstd::prelude::*;

verus! {

/// A second pointer to the value behind `r`, made by `Rc::clone`.
///
/// Trusted: `Rc::clone` allocates nothing and copies nothing; the pointer it
/// returns refers to the allocation that `r` refers to, so the value behind the
/// result is the value behind `r`.
#[verifier::external_body]
pub(crate) fn share<T>(r: &Rc<T>) -> (res: Rc<T>)
    ensures
        res == *r,
{
    Rc::clone(r)
}

} // verus!
