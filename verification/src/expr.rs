use crate::error::ScopeError;
use crate::shared::share;
use crate::types::{Type, TypeParam};
use std::rc::Rc;
use vstd::prelude::*;

verus! {

/// How an occurrence of a variable uses its binding.
#[derive(Clone, Copy, Debug, PartialEq, Eq, Structural)]
pub enum VarUsage {
    /// The occurrence consumes the binding.
    Move,
    /// The occurrence reads the binding and leaves it usable.
    Copy,
}

/// One node of the stored tree. It holds no counts: they are cached in the
/// handle and derived again for each child on the way down.
#[derive(Debug, PartialEq, Eq)]
#[allow(inconsistent_fields)]
enum ExprDataInner<Name> {
    Unit,
    Var { usage: VarUsage, index: usize },
    Abs {
        type_params: Rc<Vec<TypeParam<Name>>>,
        arg_name: Name,
        arg_type: Type<Name>,
        body: ExprData<Name>,
    },
    App { callee: ExprData<Name>, type_params: Rc<Vec<Type<Name>>>, arg: ExprData<Name> },
    Pair { left: ExprData<Name>, right: ExprData<Name> },
    Let { names: Rc<Vec<Name>>, val: ExprData<Name>, body: ExprData<Name> },
    LetExists {
        type_names: Rc<Vec<Name>>,
        val_name: Name,
        val: ExprData<Name>,
        body: ExprData<Name>,
    },
    MakeExists { params: Rc<Vec<(Name, Type<Name>)>>, type_body: Type<Name>, body: ExprData<Name> },
}

/// A shared, immutable node.
#[derive(Debug, PartialEq, Eq)]
struct ExprData<Name> {
    inner: Rc<ExprDataInner<Name>>,
}

impl<Name> Clone for ExprData<Name> {
    fn clone(&self) -> (r: Self)
        ensures
            r == *self,
    {
        ExprData { inner: share(&self.inner) }
    }
}

/// One level of an expression, with finished expressions as children. Each
/// child carries the counts of its own scope: those of a body include what the
/// form binds.
#[derive(Debug, PartialEq, Eq)]
#[allow(inconsistent_fields)]
pub enum ExprContent<Name> {
    /// The unit value, in a scope of the given size.
    Unit { free_vars: usize, free_types: usize },
    /// The variable bound `index` binders out, in a scope of the given size.
    Var { usage: VarUsage, free_vars: usize, free_types: usize, index: usize },
    /// A function that binds `type_params` and then one argument. `arg_type`
    /// and `body` stand inside the type parameters.
    Abs {
        type_params: Rc<Vec<TypeParam<Name>>>,
        arg_name: Name,
        arg_type: Type<Name>,
        body: Expr<Name>,
    },
    /// An application of `callee` to type arguments and one argument, all in
    /// one scope.
    App { callee: Expr<Name>, type_params: Rc<Vec<Type<Name>>>, arg: Expr<Name> },
    /// A pair.
    Pair { left: Expr<Name>, right: Expr<Name> },
    /// Binds all of `names` at once to the parts of `val`, in `body`.
    Let { names: Rc<Vec<Name>>, val: Expr<Name>, body: Expr<Name> },
    /// Opens the existential package `val`: binds `type_names` and one term
    /// variable in `body`.
    LetExists { type_names: Rc<Vec<Name>>, val_name: Name, val: Expr<Name>, body: Expr<Name> },
    /// Packs `body` as a value of the existential type whose scheme is
    /// `type_body`; each of `params` names a hidden type and gives the type
    /// that stands for it, read in the scope of `body`.
    MakeExists { params: Rc<Vec<(Name, Type<Name>)>>, type_body: Type<Name>, body: Expr<Name> },
}

/// An expression: the number of term variables and of type variables that are
/// free in it, and a shared tree.
#[derive(Debug, PartialEq, Eq)]
pub struct Expr<Name> {
    free_vars: usize,
    free_types: usize,
    data: ExprData<Name>,
}

/// Every variable of the tree under `node` is in scope, and every type read
/// at a binder has the arity of its scope, when `node` stands in a scope of
/// `fv` term variables and `ft` type variables.
spec fn node_scoped<Name>(node: ExprDataInner<Name>, fv: int, ft: int) -> bool
    decreases node,
{
    match node {
        ExprDataInner::Unit => true,
        ExprDataInner::Var { usage, index } => index < fv,
        ExprDataInner::Abs { type_params, arg_name, arg_type, body } => {
            &&& fv + 1 <= usize::MAX
            &&& arg_type.free() == ft + type_params@.len()
            &&& node_scoped(*body.inner, fv + 1, ft + type_params@.len())
        },
        ExprDataInner::App { callee, type_params, arg } => {
            &&& node_scoped(*callee.inner, fv, ft)
            &&& node_scoped(*arg.inner, fv, ft)
        },
        ExprDataInner::Pair { left, right } => {
            &&& node_scoped(*left.inner, fv, ft)
            &&& node_scoped(*right.inner, fv, ft)
        },
        ExprDataInner::Let { names, val, body } => {
            &&& names@.len() > 0
            &&& fv + names@.len() <= usize::MAX
            &&& node_scoped(*val.inner, fv, ft)
            &&& node_scoped(*body.inner, fv + names@.len(), ft)
        },
        ExprDataInner::LetExists { type_names, val_name, val, body } => {
            &&& type_names@.len() > 0
            &&& fv + 1 <= usize::MAX
            &&& ft + type_names@.len() <= usize::MAX
            &&& node_scoped(*val.inner, fv, ft)
            &&& node_scoped(*body.inner, fv + 1, ft + type_names@.len())
        },
        ExprDataInner::MakeExists { params, type_body, body } => {
            &&& params@.len() > 0
            &&& type_body.free() == ft + params@.len()
            &&& forall|i: int| 0 <= i < params@.len() ==> (#[trigger] params@[i]).1.free() == ft
            &&& node_scoped(*body.inner, fv, ft)
        },
    }
}

impl<Name> Expr<Name> {
    /// The invariant of the type: the cached counts are those of a scope in
    /// which the whole tree is well scoped.
    #[verifier::type_invariant]
    pub closed spec fn well_scoped(self) -> bool {
        node_scoped(*self.data.inner, self.free_vars as int, self.free_types as int)
    }

    /// The number of free term variables, as a specification value.
    pub closed spec fn spec_free_vars(&self) -> usize {
        self.free_vars
    }

    /// The number of free type variables, as a specification value.
    pub closed spec fn spec_free_types(&self) -> usize {
        self.free_types
    }

    /// What a well-scoped expression unfolds to keeps every rule of its form,
    /// has well-scoped children, and gives back the expression's counts.
    pub proof fn lemma_view_is_valid(self)
        requires
            self.well_scoped(),
        ensures
            self@.fault() is None,
            self@.children_well_scoped(),
            self@.outer_free_vars() == self.free_vars(),
            self@.outer_free_types() == self.free_types(),
    {
    }

    /// A well-scoped expression is determined by what it unfolds to: counts
    /// and tree are those of the one expression with that top level. So two
    /// expressions folded separately from one level are equal, whether or not
    /// they share their nodes.
    pub proof fn lemma_view_is_injective(self, other: Self)
        requires
            self.well_scoped(),
            other.well_scoped(),
            self@ == other@,
        ensures
            self == other,
    {
    }

    /// The number of term variables that are free in this expression.
    #[verifier::when_used_as_spec(spec_free_vars)]
    pub fn free_vars(&self) -> (r: usize)
        ensures
            r == self.free_vars(),
            r == self@.outer_free_vars(),
    {
        proof {
            use_type_invariant(self);
        }
        self.free_vars
    }

    /// The number of type variables that are free in this expression.
    #[verifier::when_used_as_spec(spec_free_types)]
    pub fn free_types(&self) -> (r: usize)
        ensures
            r == self.free_types(),
            r == self@.outer_free_types(),
    {
        proof {
            use_type_invariant(self);
        }
        self.free_types
    }
}

/// Whether every type of `params` ranges over exactly `free_types` type
/// variables.
fn params_fit<Name>(params: &Vec<(Name, Type<Name>)>, free_types: usize) -> (r: bool)
    ensures
        r <==> forall|i: int|
            0 <= i < params@.len() ==> (#[trigger] params@[i]).1.free() == free_types,
{
    let mut i: usize = 0;
    while i < params.len()
        invariant
            i <= params@.len(),
            forall|j: int| 0 <= j < i ==> (#[trigger] params@[j]).1.free() == free_types,
        decreases params@.len() - i,
    {
        if params[i].1.free() != free_types {
            return false;
        }
        i += 1;
    }
    true
}

impl<Name: Clone> Expr<Name> {
    /// Builds the expression that has `content` on top, if `content` keeps the
    /// rules of its form.
    ///
    /// It succeeds exactly when `content.fault()` is `None`. The expression
    /// then unfolds to `content` again, and its counts are the children's less
    /// what the form binds. Otherwise the error is the first rule broken, and
    /// nothing is built.
    pub fn from_content(content: ExprContent<Name>) -> (r: Result<Self, ScopeError>)
        ensures
            match r {
                Ok(e) => {
                    &&& content.fault() is None
                    &&& e@ == content
                    &&& e.well_scoped()
                    &&& e.free_vars() == content.outer_free_vars()
                    &&& e.free_types() == content.outer_free_types()
                },
                Err(err) => content.fault() == Some(err),
            },
    {
        match content {
            ExprContent::Unit { free_vars, free_types } => Ok(
                Expr {
                    free_vars,
                    free_types,
                    data: ExprData { inner: Rc::new(ExprDataInner::Unit) },
                },
            ),
            ExprContent::Var { usage, free_vars, free_types, index } => {
                if index >= free_vars {
                    return Err(ScopeError::IndexOutOfRange);
                }
                Ok(
                    Expr {
                        free_vars,
                        free_types,
                        data: ExprData { inner: Rc::new(ExprDataInner::Var { usage, index }) },
                    },
                )
            },
            ExprContent::Abs { type_params, arg_name, arg_type, body } => {
                proof {
                    use_type_invariant(&body);
                }
                if arg_type.free() != body.free_types {
                    return Err(ScopeError::TypeArityMismatch);
                }
                if type_params.len() > body.free_types || body.free_vars < 1 {
                    return Err(ScopeError::BinderArityMismatch);
                }
                Ok(
                    Expr {
                        free_vars: body.free_vars - 1,
                        free_types: body.free_types - type_params.len(),
                        data: ExprData {
                            inner: Rc::new(
                                ExprDataInner::Abs {
                                    type_params,
                                    arg_name,
                                    arg_type,
                                    body: body.data,
                                },
                            ),
                        },
                    },
                )
            },
            ExprContent::App { callee, type_params, arg } => {
                proof {
                    use_type_invariant(&callee);
                    use_type_invariant(&arg);
                }
                if callee.free_vars != arg.free_vars || callee.free_types != arg.free_types {
                    return Err(ScopeError::BinderArityMismatch);
                }
                Ok(
                    Expr {
                        free_vars: arg.free_vars,
                        free_types: arg.free_types,
                        data: ExprData {
                            inner: Rc::new(
                                ExprDataInner::App {
                                    callee: callee.data,
                                    type_params,
                                    arg: arg.data,
                                },
                            ),
                        },
                    },
                )
            },
            ExprContent::Pair { left, right } => {
                proof {
                    use_type_invariant(&left);
                    use_type_invariant(&right);
                }
                if left.free_vars != right.free_vars || left.free_types != right.free_types {
                    return Err(ScopeError::BinderArityMismatch);
                }
                Ok(
                    Expr {
                        free_vars: left.free_vars,
                        free_types: left.free_types,
                        data: ExprData {
                            inner: Rc::new(
                                ExprDataInner::Pair { left: left.data, right: right.data },
                            ),
                        },
                    },
                )
            },
            ExprContent::Let { names, val, body } => {
                proof {
                    use_type_invariant(&val);
                    use_type_invariant(&body);
                }
                if names.len() == 0 {
                    return Err(ScopeError::EmptyBinderList);
                }
                if val.free_types != body.free_types || body.free_vars < names.len()
                    || body.free_vars - names.len() != val.free_vars {
                    return Err(ScopeError::BinderArityMismatch);
                }
                Ok(
                    Expr {
                        free_vars: val.free_vars,
                        free_types: val.free_types,
                        data: ExprData {
                            inner: Rc::new(
                                ExprDataInner::Let { names, val: val.data, body: body.data },
                            ),
                        },
                    },
                )
            },
            ExprContent::LetExists { type_names, val_name, val, body } => {
                proof {
                    use_type_invariant(&val);
                    use_type_invariant(&body);
                }
                if type_names.len() == 0 {
                    return Err(ScopeError::EmptyBinderList);
                }
                if body.free_types < type_names.len() || body.free_types - type_names.len()
                    != val.free_types || body.free_vars < 1 || body.free_vars - 1
                    != val.free_vars {
                    return Err(ScopeError::BinderArityMismatch);
                }
                Ok(
                    Expr {
                        free_vars: val.free_vars,
                        free_types: val.free_types,
                        data: ExprData {
                            inner: Rc::new(
                                ExprDataInner::LetExists {
                                    type_names,
                                    val_name,
                                    val: val.data,
                                    body: body.data,
                                },
                            ),
                        },
                    },
                )
            },
            ExprContent::MakeExists { params, type_body, body } => {
                proof {
                    use_type_invariant(&body);
                }
                if params.len() == 0 {
                    return Err(ScopeError::EmptyBinderList);
                }
                let scheme_free = type_body.free();
                if scheme_free < params.len() || scheme_free - params.len() != body.free_types
                    || !params_fit(&params, body.free_types) {
                    return Err(ScopeError::TypeArityMismatch);
                }
                Ok(
                    Expr {
                        free_vars: body.free_vars,
                        free_types: body.free_types,
                        data: ExprData {
                            inner: Rc::new(
                                ExprDataInner::MakeExists { params, type_body, body: body.data },
                            ),
                        },
                    },
                )
            },
        }
    }

    /// Unfolds the top level. Each child comes with the counts of its own
    /// scope, so it can be unfolded in turn.
    ///
    /// The result is `self@`, but for the binder names that the form holds by
    /// value, which are clones of those in `self@`.
    pub fn to_content(&self) -> (r: ExprContent<Name>)
        ensures
            r.is_clone_of(self@),
            r.fault() is None,
            r.children_well_scoped(),
            r.outer_free_vars() == self.free_vars(),
            r.outer_free_types() == self.free_types(),
    {
        proof {
            use_type_invariant(self);
        }
        match &*self.data.inner {
            ExprDataInner::Unit => ExprContent::Unit {
                free_vars: self.free_vars,
                free_types: self.free_types,
            },
            ExprDataInner::Var { usage, index } => ExprContent::Var {
                usage: *usage,
                free_vars: self.free_vars,
                free_types: self.free_types,
                index: *index,
            },
            ExprDataInner::Abs { type_params, arg_name, arg_type, body } => ExprContent::Abs {
                type_params: share(type_params),
                arg_name: arg_name.clone(),
                arg_type: arg_type.clone(),
                body: Expr {
                    free_vars: self.free_vars + 1,
                    free_types: self.free_types + type_params.len(),
                    data: body.clone(),
                },
            },
            ExprDataInner::App { callee, type_params, arg } => ExprContent::App {
                callee: Expr {
                    free_vars: self.free_vars,
                    free_types: self.free_types,
                    data: callee.clone(),
                },
                type_params: share(type_params),
                arg: Expr {
                    free_vars: self.free_vars,
                    free_types: self.free_types,
                    data: arg.clone(),
                },
            },
            ExprDataInner::Pair { left, right } => ExprContent::Pair {
                left: Expr {
                    free_vars: self.free_vars,
                    free_types: self.free_types,
                    data: left.clone(),
                },
                right: Expr {
                    free_vars: self.free_vars,
                    free_types: self.free_types,
                    data: right.clone(),
                },
            },
            ExprDataInner::Let { names, val, body } => ExprContent::Let {
                names: share(names),
                val: Expr {
                    free_vars: self.free_vars,
                    free_types: self.free_types,
                    data: val.clone(),
                },
                body: Expr {
                    free_vars: self.free_vars + names.len(),
                    free_types: self.free_types,
                    data: body.clone(),
                },
            },
            ExprDataInner::LetExists { type_names, val_name, val, body } => {
                ExprContent::LetExists {
                    type_names: share(type_names),
                    val_name: val_name.clone(),
                    val: Expr {
                        free_vars: self.free_vars,
                        free_types: self.free_types,
                        data: val.clone(),
                    },
                    body: Expr {
                        free_vars: self.free_vars + 1,
                        free_types: self.free_types + type_names.len(),
                        data: body.clone(),
                    },
                }
            },
            ExprDataInner::MakeExists { params, type_body, body } => ExprContent::MakeExists {
                params: share(params),
                type_body: type_body.clone(),
                body: Expr {
                    free_vars: self.free_vars,
                    free_types: self.free_types,
                    data: body.clone(),
                },
            },
        }
    }
}

impl<Name> Clone for Expr<Name> {
    /// A second handle on the same tree; no node is copied.
    fn clone(&self) -> (r: Self)
        ensures
            r == *self,
    {
        proof {
            use_type_invariant(self);
        }
        Expr { free_vars: self.free_vars, free_types: self.free_types, data: self.data.clone() }
    }
}

impl<Name> View for Expr<Name> {
    type V = ExprContent<Name>;

    /// The top level of the expression. Each child has the counts of its own
    /// scope: those of the expression, plus what the form binds around the
    /// child.
    closed spec fn view(&self) -> ExprContent<Name> {
        let fv = self.free_vars;
        let ft = self.free_types;
        match *self.data.inner {
            ExprDataInner::Unit => ExprContent::Unit { free_vars: fv, free_types: ft },
            ExprDataInner::Var { usage, index } => ExprContent::Var {
                usage,
                free_vars: fv,
                free_types: ft,
                index,
            },
            ExprDataInner::Abs { type_params, arg_name, arg_type, body } => ExprContent::Abs {
                type_params,
                arg_name,
                arg_type,
                body: Expr {
                    free_vars: (fv + 1) as usize,
                    free_types: (ft + type_params@.len()) as usize,
                    data: body,
                },
            },
            ExprDataInner::App { callee, type_params, arg } => ExprContent::App {
                callee: Expr { free_vars: fv, free_types: ft, data: callee },
                type_params,
                arg: Expr { free_vars: fv, free_types: ft, data: arg },
            },
            ExprDataInner::Pair { left, right } => ExprContent::Pair {
                left: Expr { free_vars: fv, free_types: ft, data: left },
                right: Expr { free_vars: fv, free_types: ft, data: right },
            },
            ExprDataInner::Let { names, val, body } => ExprContent::Let {
                names,
                val: Expr { free_vars: fv, free_types: ft, data: val },
                body: Expr { free_vars: (fv + names@.len()) as usize, free_types: ft, data: body },
            },
            ExprDataInner::LetExists { type_names, val_name, val, body } => ExprContent::LetExists {
                type_names,
                val_name,
                val: Expr { free_vars: fv, free_types: ft, data: val },
                body: Expr {
                    free_vars: (fv + 1) as usize,
                    free_types: (ft + type_names@.len()) as usize,
                    data: body,
                },
            },
            ExprDataInner::MakeExists { params, type_body, body } => ExprContent::MakeExists {
                params,
                type_body,
                body: Expr { free_vars: fv, free_types: ft, data: body },
            },
        }
    }
}

impl<Name> ExprContent<Name> {
    /// The first rule that this level breaks, if it breaks one. The rules of
    /// each form are read in the order given here.
    ///
    /// A type that is read in the wrong scope is a `TypeArityMismatch`. Two
    /// expressions whose counts do not differ by what is bound between them
    /// are a `BinderArityMismatch`; between the two sides of a pair or of an
    /// application nothing is bound, so their counts must agree.
    pub open spec fn fault(self) -> Option<ScopeError> {
        match self {
            ExprContent::Unit { free_vars, free_types } => None,
            ExprContent::Var { usage, free_vars, free_types, index } => if index < free_vars {
                None
            } else {
                Some(ScopeError::IndexOutOfRange)
            },
            ExprContent::Abs { type_params, arg_name, arg_type, body } => if arg_type.free()
                != body.free_types() {
                Some(ScopeError::TypeArityMismatch)
            } else if type_params@.len() > body.free_types() || body.free_vars() < 1 {
                Some(ScopeError::BinderArityMismatch)
            } else {
                None
            },
            ExprContent::App { callee, type_params, arg } => if callee.free_vars()
                != arg.free_vars() || callee.free_types() != arg.free_types() {
                Some(ScopeError::BinderArityMismatch)
            } else {
                None
            },
            ExprContent::Pair { left, right } => if left.free_vars() != right.free_vars()
                || left.free_types() != right.free_types() {
                Some(ScopeError::BinderArityMismatch)
            } else {
                None
            },
            ExprContent::Let { names, val, body } => if names@.len() == 0 {
                Some(ScopeError::EmptyBinderList)
            } else if val.free_types() != body.free_types() || val.free_vars() + names@.len()
                != body.free_vars() {
                Some(ScopeError::BinderArityMismatch)
            } else {
                None
            },
            ExprContent::LetExists { type_names, val_name, val, body } => if type_names@.len()
                == 0 {
                Some(ScopeError::EmptyBinderList)
            } else if val.free_types() + type_names@.len() != body.free_types() || val.free_vars()
                + 1 != body.free_vars() {
                Some(ScopeError::BinderArityMismatch)
            } else {
                None
            },
            ExprContent::MakeExists { params, type_body, body } => if params@.len() == 0 {
                Some(ScopeError::EmptyBinderList)
            } else if body.free_types() + params@.len() != type_body.free() || exists|i: int|
                0 <= i < params@.len() && (#[trigger] params@[i]).1.free() != body.free_types() {
                Some(ScopeError::TypeArityMismatch)
            } else {
                None
            },
        }
    }

    /// The number of free term variables of the expression that has this
    /// level on top: the children's count, less what the form binds.
    pub open spec fn outer_free_vars(self) -> int {
        match self {
            ExprContent::Unit { free_vars, free_types } => free_vars as int,
            ExprContent::Var { usage, free_vars, free_types, index } => free_vars as int,
            ExprContent::Abs { type_params, arg_name, arg_type, body } => body.free_vars() - 1,
            ExprContent::App { callee, type_params, arg } => arg.free_vars() as int,
            ExprContent::Pair { left, right } => left.free_vars() as int,
            ExprContent::Let { names, val, body } => val.free_vars() as int,
            ExprContent::LetExists { type_names, val_name, val, body } => val.free_vars() as int,
            ExprContent::MakeExists { params, type_body, body } => body.free_vars() as int,
        }
    }

    /// The number of free type variables of the expression that has this
    /// level on top.
    pub open spec fn outer_free_types(self) -> int {
        match self {
            ExprContent::Unit { free_vars, free_types } => free_types as int,
            ExprContent::Var { usage, free_vars, free_types, index } => free_types as int,
            ExprContent::Abs { type_params, arg_name, arg_type, body } => body.free_types()
                - type_params@.len(),
            ExprContent::App { callee, type_params, arg } => arg.free_types() as int,
            ExprContent::Pair { left, right } => left.free_types() as int,
            ExprContent::Let { names, val, body } => val.free_types() as int,
            ExprContent::LetExists { type_names, val_name, val, body } => val.free_types() as int,
            ExprContent::MakeExists { params, type_body, body } => body.free_types() as int,
        }
    }

    /// The children of this level are well scoped.
    pub open spec fn children_well_scoped(self) -> bool {
        match self {
            ExprContent::Unit { free_vars, free_types } => true,
            ExprContent::Var { usage, free_vars, free_types, index } => true,
            ExprContent::Abs { type_params, arg_name, arg_type, body } => body.well_scoped(),
            ExprContent::App { callee, type_params, arg } => callee.well_scoped()
                && arg.well_scoped(),
            ExprContent::Pair { left, right } => left.well_scoped() && right.well_scoped(),
            ExprContent::Let { names, val, body } => val.well_scoped() && body.well_scoped(),
            ExprContent::LetExists { type_names, val_name, val, body } => val.well_scoped()
                && body.well_scoped(),
            ExprContent::MakeExists { params, type_body, body } => body.well_scoped(),
        }
    }
}

impl<Name> ExprContent<Name> {
    /// The child at position `i`, counted from the left in the order of the
    /// form's fields, if the form has one there.
    pub open spec fn child(self, i: int) -> Option<Expr<Name>> {
        match self {
            ExprContent::Unit { free_vars, free_types } => None,
            ExprContent::Var { usage, free_vars, free_types, index } => None,
            ExprContent::Abs { type_params, arg_name, arg_type, body } => if i == 0 {
                Some(body)
            } else {
                None
            },
            ExprContent::App { callee, type_params, arg } => if i == 0 {
                Some(callee)
            } else if i == 1 {
                Some(arg)
            } else {
                None
            },
            ExprContent::Pair { left, right } => if i == 0 {
                Some(left)
            } else if i == 1 {
                Some(right)
            } else {
                None
            },
            ExprContent::Let { names, val, body } => if i == 0 {
                Some(val)
            } else if i == 1 {
                Some(body)
            } else {
                None
            },
            ExprContent::LetExists { type_names, val_name, val, body } => if i == 0 {
                Some(val)
            } else if i == 1 {
                Some(body)
            } else {
                None
            },
            ExprContent::MakeExists { params, type_body, body } => if i == 0 {
                Some(body)
            } else {
                None
            },
        }
    }
}

impl<Name: Clone> ExprContent<Name> {
    /// `self` is `source` with each binder name that is held by value
    /// replaced by a clone of it. Everything behind a shared pointer, every
    /// type and every child is the same.
    pub open spec fn is_clone_of(self, source: Self) -> bool {
        match (source, self) {
            (
                ExprContent::Abs { type_params: p0, arg_name: n0, arg_type: t0, body: b0 },
                ExprContent::Abs { type_params: p1, arg_name: n1, arg_type: t1, body: b1 },
            ) => p1 == p0 && t1 == t0 && b1 == b0 && cloned::<Name>(n0, n1),
            (
                ExprContent::LetExists { type_names: p0, val_name: n0, val: v0, body: b0 },
                ExprContent::LetExists { type_names: p1, val_name: n1, val: v1, body: b1 },
            ) => p1 == p0 && v1 == v0 && b1 == b0 && cloned::<Name>(n0, n1),
            _ => self == source,
        }
    }
}

impl<Name: Clone> Clone for ExprContent<Name> {
    /// Clones the binder names that are held by value and shares the rest.
    fn clone(&self) -> (r: Self)
        ensures
            r.is_clone_of(*self),
    {
        match self {
            ExprContent::Unit { free_vars, free_types } => ExprContent::Unit {
                free_vars: *free_vars,
                free_types: *free_types,
            },
            ExprContent::Var { usage, free_vars, free_types, index } => ExprContent::Var {
                usage: *usage,
                free_vars: *free_vars,
                free_types: *free_types,
                index: *index,
            },
            ExprContent::Abs { type_params, arg_name, arg_type, body } => ExprContent::Abs {
                type_params: share(type_params),
                arg_name: arg_name.clone(),
                arg_type: arg_type.clone(),
                body: body.clone(),
            },
            ExprContent::App { callee, type_params, arg } => ExprContent::App {
                callee: callee.clone(),
                type_params: share(type_params),
                arg: arg.clone(),
            },
            ExprContent::Pair { left, right } => ExprContent::Pair {
                left: left.clone(),
                right: right.clone(),
            },
            ExprContent::Let { names, val, body } => ExprContent::Let {
                names: share(names),
                val: val.clone(),
                body: body.clone(),
            },
            ExprContent::LetExists { type_names, val_name, val, body } => ExprContent::LetExists {
                type_names: share(type_names),
                val_name: val_name.clone(),
                val: val.clone(),
                body: body.clone(),
            },
            ExprContent::MakeExists { params, type_body, body } => ExprContent::MakeExists {
                params: share(params),
                type_body: type_body.clone(),
                body: body.clone(),
            },
        }
    }
}

} // verus!
