use crate::expr::{Expr, ExprContent};
use vstd::prelude::*;

verus! {

/// The expression reached from `e` by unfolding and stepping into the child
/// at `path[0]`, then into that child's child at `path[1]`, and so on; `None`
/// where a step names a child that is not there.
pub open spec fn descendant<Name>(e: Expr<Name>, path: Seq<int>) -> Option<Expr<Name>>
    decreases path.len(),
{
    if path.len() == 0 {
        Some(e)
    } else {
        match e@.child(path[0]) {
            Some(c) => descendant(c, path.subrange(1, path.len() as int)),
            None => None,
        }
    }
}

/// Folding what an expression unfolds to gives the expression back.
///
/// `unfolded` is what unfolding `h` may return. It keeps every rule of its
/// form, so folding it succeeds. Whatever well-scoped `folded` unfolds to
/// `unfolded` again agrees with `h` up to clones of binder names, and is `h`
/// itself where cloning left the names as they were.
pub proof fn law_fold_after_unfold<Name: Clone>(
    h: Expr<Name>,
    unfolded: ExprContent<Name>,
    folded: Expr<Name>,
)
    requires
        h.well_scoped(),
        unfolded.is_clone_of(h@),
        folded.well_scoped(),
        folded@ == unfolded,
    ensures
        unfolded.fault() is None,
        unfolded.children_well_scoped(),
        folded@.is_clone_of(h@),
        folded.free_vars() == h.free_vars(),
        folded.free_types() == h.free_types(),
        unfolded == h@ ==> folded == h,
{
    h.lemma_view_is_valid();
    folded.lemma_view_is_valid();
    if unfolded == h@ {
        folded.lemma_view_is_injective(h);
    }
}

/// Unfolding what was folded gives the folded level back.
///
/// `e` is an expression that folding `v` may return, and `unfolded` what
/// unfolding `e` may return: it is `v` up to clones of binder names.
pub proof fn law_unfold_after_fold<Name: Clone>(
    v: ExprContent<Name>,
    e: Expr<Name>,
    unfolded: ExprContent<Name>,
)
    requires
        v.fault() is None,
        e.well_scoped(),
        e@ == v,
        unfolded.is_clone_of(e@),
    ensures
        unfolded.is_clone_of(v),
        unfolded.fault() is None,
        unfolded.outer_free_vars() == v.outer_free_vars(),
        unfolded.outer_free_types() == v.outer_free_types(),
{
    e.lemma_view_is_valid();
}

/// Where cloning a name gives the name, unfolding gives exactly the view.
pub proof fn law_faithful_clone<Name: Clone>(source: ExprContent<Name>, copy: ExprContent<Name>)
    requires
        copy.is_clone_of(source),
        forall|a: Name, b: Name| cloned::<Name>(a, b) ==> a == b,
    ensures
        copy == source,
{
}

/// Every expression that can be reached from a well-scoped expression is well
/// scoped, and where it is a variable, its index is below the number of term
/// variables of the scope it stands in.
pub proof fn law_scope_soundness<Name>(e: Expr<Name>, path: Seq<int>)
    requires
        e.well_scoped(),
    ensures
        match descendant(e, path) {
            Some(d) => {
                &&& d.well_scoped()
                &&& d@.fault() is None
                &&& match d@ {
                    ExprContent::Var { usage, free_vars, free_types, index } => {
                        &&& index < free_vars
                        &&& free_vars == d.free_vars()
                    },
                    _ => true,
                }
            },
            None => true,
        },
    decreases path.len(),
{
    e.lemma_view_is_valid();
    if path.len() > 0 {
        match e@.child(path[0]) {
            Some(c) => {
                law_scope_soundness(c, path.subrange(1, path.len() as int));
            },
            None => {},
        }
    }
}

/// Crossing a binder inwards adds what it binds: the counts of each child of
/// a well-scoped expression are the expression's own, plus the term variables
/// and type variables that the form binds around that child.
pub proof fn law_binder_arithmetic<Name>(e: Expr<Name>)
    requires
        e.well_scoped(),
    ensures
        match e@ {
            ExprContent::Unit { free_vars, free_types } => {
                &&& free_vars == e.free_vars()
                &&& free_types == e.free_types()
            },
            ExprContent::Var { usage, free_vars, free_types, index } => {
                &&& free_vars == e.free_vars()
                &&& free_types == e.free_types()
            },
            ExprContent::Abs { type_params, arg_name, arg_type, body } => {
                &&& body.free_vars() == e.free_vars() + 1
                &&& body.free_types() == e.free_types() + type_params@.len()
                &&& arg_type.free() == body.free_types()
            },
            ExprContent::App { callee, type_params, arg } => {
                &&& callee.free_vars() == e.free_vars()
                &&& callee.free_types() == e.free_types()
                &&& arg.free_vars() == e.free_vars()
                &&& arg.free_types() == e.free_types()
            },
            ExprContent::Pair { left, right } => {
                &&& left.free_vars() == e.free_vars()
                &&& left.free_types() == e.free_types()
                &&& right.free_vars() == e.free_vars()
                &&& right.free_types() == e.free_types()
            },
            ExprContent::Let { names, val, body } => {
                &&& names@.len() > 0
                &&& val.free_vars() == e.free_vars()
                &&& val.free_types() == e.free_types()
                &&& body.free_vars() == e.free_vars() + names@.len()
                &&& body.free_types() == e.free_types()
            },
            ExprContent::LetExists { type_names, val_name, val, body } => {
                &&& type_names@.len() > 0
                &&& val.free_vars() == e.free_vars()
                &&& val.free_types() == e.free_types()
                &&& body.free_vars() == e.free_vars() + 1
                &&& body.free_types() == e.free_types() + type_names@.len()
            },
            ExprContent::MakeExists { params, type_body, body } => {
                &&& params@.len() > 0
                &&& body.free_vars() == e.free_vars()
                &&& body.free_types() == e.free_types()
                &&& type_body.free() == e.free_types() + params@.len()
                &&& forall|i: int|
                    0 <= i < params@.len() ==> (#[trigger] params@[i]).1.free() == e.free_types()
            },
        },
{
    e.lemma_view_is_valid();
}

} // verus!
