use lambda_expr::error::ScopeError;
use lambda_expr::expr::{Expr, ExprContent, VarUsage};
use lambda_expr::types::{Type, TypeParam};
use std::rc::Rc;

type E = Expr<&'static str>;
type C = ExprContent<&'static str>;

fn unit(free_vars: usize, free_types: usize) -> E {
    E::from_content(C::Unit { free_vars, free_types }).unwrap()
}

fn var(free_vars: usize, free_types: usize, index: usize) -> E {
    E::from_content(C::Var { usage: VarUsage::Copy, free_vars, free_types, index }).unwrap()
}

fn ty(label: &'static str, free: usize) -> Type<&'static str> {
    Type::new(label, free)
}

#[test]
fn unit_in_the_empty_scope() {
    let e = unit(0, 0);
    assert_eq!(e.free_vars(), 0);
    assert_eq!(e.free_types(), 0);
    assert_eq!(e.to_content(), C::Unit { free_vars: 0, free_types: 0 });
}

#[test]
fn unit_keeps_its_counts() {
    let e = unit(7, 3);
    assert_eq!(e.free_vars(), 7);
    assert_eq!(e.free_types(), 3);
    assert_eq!(e.to_content(), C::Unit { free_vars: 7, free_types: 3 });
}

#[test]
fn var_in_range_is_accepted() {
    let e = E::from_content(C::Var { usage: VarUsage::Move, free_vars: 3, free_types: 1, index: 2 })
        .unwrap();
    assert_eq!(e.free_vars(), 3);
    assert_eq!(e.free_types(), 1);
    assert_eq!(
        e.to_content(),
        C::Var { usage: VarUsage::Move, free_vars: 3, free_types: 1, index: 2 }
    );
}

#[test]
fn var_index_equal_to_count_is_rejected() {
    let r = E::from_content(C::Var { usage: VarUsage::Move, free_vars: 3, free_types: 0, index: 3 });
    assert_eq!(r, Err(ScopeError::IndexOutOfRange));
}

#[test]
fn var_in_empty_scope_is_rejected() {
    let r = E::from_content(C::Var { usage: VarUsage::Copy, free_vars: 0, free_types: 0, index: 0 });
    assert_eq!(r, Err(ScopeError::IndexOutOfRange));
}

#[test]
fn var_usage_is_kept_and_compared() {
    let m = E::from_content(C::Var { usage: VarUsage::Move, free_vars: 1, free_types: 0, index: 0 })
        .unwrap();
    let c = var(1, 0, 0);
    assert_ne!(m, c);
    assert!(matches!(m.to_content(), C::Var { usage: VarUsage::Move, .. }));
    assert!(matches!(c.to_content(), C::Var { usage: VarUsage::Copy, .. }));
}

#[test]
fn abs_over_a_body_with_two_free_vars() {
    let e = E::from_content(C::Abs {
        type_params: Rc::new(vec![]),
        arg_name: "x",
        arg_type: ty("unit", 0),
        body: var(2, 0, 0),
    })
    .unwrap();
    assert_eq!(e.free_vars(), 1);
    assert_eq!(e.free_types(), 0);
}

#[test]
fn abs_binds_type_params_and_one_argument() {
    let body = var(3, 5, 0);
    let e = E::from_content(C::Abs {
        type_params: Rc::new(vec![TypeParam::new("a"), TypeParam::new("b")]),
        arg_name: "x",
        arg_type: ty("a", 5),
        body: body.clone(),
    })
    .unwrap();
    assert_eq!(e.free_vars(), 2);
    assert_eq!(e.free_types(), 3);
    match e.to_content() {
        C::Abs { type_params, arg_name, arg_type, body: b } => {
            assert_eq!(type_params.len(), 2);
            assert_eq!(type_params[1].name, "b");
            assert_eq!(arg_name, "x");
            assert_eq!(arg_type.free(), 5);
            assert_eq!(*arg_type.label(), "a");
            assert_eq!(b.free_vars(), 3);
            assert_eq!(b.free_types(), 5);
            assert_eq!(b, body);
        }
        other => panic!("not an abstraction: {:?}", other),
    }
}

#[test]
fn abs_arg_type_in_wrong_scope_is_rejected() {
    let r = E::from_content(C::Abs {
        type_params: Rc::new(vec![]),
        arg_name: "x",
        arg_type: ty("t", 1),
        body: var(2, 0, 0),
    });
    assert_eq!(r, Err(ScopeError::TypeArityMismatch));
}

#[test]
fn abs_with_more_type_params_than_free_types_is_rejected() {
    let r = E::from_content(C::Abs {
        type_params: Rc::new(vec![TypeParam::new("a"), TypeParam::new("b")]),
        arg_name: "x",
        arg_type: ty("t", 1),
        body: var(2, 1, 0),
    });
    assert_eq!(r, Err(ScopeError::BinderArityMismatch));
}

#[test]
fn abs_over_body_without_free_vars_is_rejected() {
    let r = E::from_content(C::Abs {
        type_params: Rc::new(vec![]),
        arg_name: "x",
        arg_type: ty("t", 0),
        body: unit(0, 0),
    });
    assert_eq!(r, Err(ScopeError::BinderArityMismatch));
}

#[test]
fn abs_reports_the_type_before_the_binder() {
    let r = E::from_content(C::Abs {
        type_params: Rc::new(vec![TypeParam::new("a")]),
        arg_name: "x",
        arg_type: ty("t", 4),
        body: unit(0, 0),
    });
    assert_eq!(r, Err(ScopeError::TypeArityMismatch));
}

#[test]
fn app_takes_the_counts_of_its_parts() {
    let callee = var(2, 1, 1);
    let arg = var(2, 1, 0);
    let e = E::from_content(C::App {
        callee: callee.clone(),
        type_params: Rc::new(vec![ty("int", 1)]),
        arg: arg.clone(),
    })
    .unwrap();
    assert_eq!(e.free_vars(), 2);
    assert_eq!(e.free_types(), 1);
    assert_eq!(
        e.to_content(),
        C::App { callee, type_params: Rc::new(vec![ty("int", 1)]), arg }
    );
}

#[test]
fn app_of_parts_in_different_scopes_is_rejected() {
    let r = E::from_content(C::App {
        callee: var(3, 0, 2),
        type_params: Rc::new(vec![]),
        arg: unit(1, 0),
    });
    assert_eq!(r, Err(ScopeError::BinderArityMismatch));
    let r = E::from_content(C::App {
        callee: unit(1, 1),
        type_params: Rc::new(vec![]),
        arg: unit(1, 0),
    });
    assert_eq!(r, Err(ScopeError::BinderArityMismatch));
}

#[test]
fn pair_of_parts_in_one_scope() {
    let e = E::from_content(C::Pair { left: var(4, 2, 3), right: unit(4, 2) }).unwrap();
    assert_eq!(e.free_vars(), 4);
    assert_eq!(e.free_types(), 2);
    assert_eq!(e.to_content(), C::Pair { left: var(4, 2, 3), right: unit(4, 2) });
}

#[test]
fn pair_of_parts_in_different_scopes_is_rejected() {
    let r = E::from_content(C::Pair { left: unit(1, 0), right: unit(2, 0) });
    assert_eq!(r, Err(ScopeError::BinderArityMismatch));
    let r = E::from_content(C::Pair { left: unit(1, 0), right: unit(1, 1) });
    assert_eq!(r, Err(ScopeError::BinderArityMismatch));
}

#[test]
fn let_of_two_names() {
    let e = E::from_content(C::Let {
        names: Rc::new(vec!["x", "y"]),
        val: unit(2, 0),
        body: var(4, 0, 3),
    })
    .unwrap();
    assert_eq!(e.free_vars(), 2);
    assert_eq!(e.free_types(), 0);

    let r = E::from_content(C::Let {
        names: Rc::new(vec!["x", "y"]),
        val: unit(2, 0),
        body: var(3, 0, 2),
    });
    assert_eq!(r, Err(ScopeError::BinderArityMismatch));
}

#[test]
fn let_without_names_is_rejected() {
    let r = E::from_content(C::Let { names: Rc::new(vec![]), val: unit(2, 0), body: unit(2, 0) });
    assert_eq!(r, Err(ScopeError::EmptyBinderList));
}

#[test]
fn let_across_type_scopes_is_rejected() {
    let r = E::from_content(C::Let { names: Rc::new(vec!["x"]), val: unit(2, 0), body: unit(3, 1) });
    assert_eq!(r, Err(ScopeError::BinderArityMismatch));
}

#[test]
fn let_at_the_largest_count_does_not_wrap() {
    let r = E::from_content(C::Let {
        names: Rc::new(vec!["x"]),
        val: unit(usize::MAX, 0),
        body: unit(0, 0),
    });
    assert_eq!(r, Err(ScopeError::BinderArityMismatch));
}

#[test]
fn let_unfolds_to_a_body_in_the_wider_scope() {
    let e = E::from_content(C::Let {
        names: Rc::new(vec!["x", "y", "z"]),
        val: var(1, 2, 0),
        body: var(4, 2, 3),
    })
    .unwrap();
    match e.to_content() {
        C::Let { names, val, body } => {
            assert_eq!(*names, vec!["x", "y", "z"]);
            assert_eq!(val.free_vars(), 1);
            assert_eq!(val.free_types(), 2);
            assert_eq!(body.free_vars(), 4);
            assert_eq!(body.free_types(), 2);
        }
        other => panic!("not a let: {:?}", other),
    }
}

#[test]
fn let_exists_binds_types_and_one_value() {
    let e = E::from_content(C::LetExists {
        type_names: Rc::new(vec!["a", "b"]),
        val_name: "p",
        val: var(1, 1, 0),
        body: var(2, 3, 0),
    })
    .unwrap();
    assert_eq!(e.free_vars(), 1);
    assert_eq!(e.free_types(), 1);
    match e.to_content() {
        C::LetExists { type_names, val_name, val, body } => {
            assert_eq!(*type_names, vec!["a", "b"]);
            assert_eq!(val_name, "p");
            assert_eq!(val, var(1, 1, 0));
            assert_eq!(body, var(2, 3, 0));
            assert_eq!(body.free_vars(), 2);
            assert_eq!(body.free_types(), 3);
        }
        other => panic!("not an unpacking: {:?}", other),
    }
}

#[test]
fn let_exists_without_type_names_is_rejected() {
    let r = E::from_content(C::LetExists {
        type_names: Rc::new(vec![]),
        val_name: "p",
        val: unit(0, 0),
        body: unit(1, 0),
    });
    assert_eq!(r, Err(ScopeError::EmptyBinderList));
}

#[test]
fn let_exists_with_wrong_counts_is_rejected() {
    let r = E::from_content(C::LetExists {
        type_names: Rc::new(vec!["a"]),
        val_name: "p",
        val: unit(0, 0),
        body: unit(1, 2),
    });
    assert_eq!(r, Err(ScopeError::BinderArityMismatch));
    let r = E::from_content(C::LetExists {
        type_names: Rc::new(vec!["a"]),
        val_name: "p",
        val: unit(0, 0),
        body: unit(2, 1),
    });
    assert_eq!(r, Err(ScopeError::BinderArityMismatch));
    let r = E::from_content(C::LetExists {
        type_names: Rc::new(vec!["a"]),
        val_name: "p",
        val: unit(usize::MAX, usize::MAX),
        body: unit(0, 0),
    });
    assert_eq!(r, Err(ScopeError::BinderArityMismatch));
}

#[test]
fn make_exists_of_one_param() {
    let e = E::from_content(C::MakeExists {
        params: Rc::new(vec![("a", ty("t", 0))]),
        type_body: ty("scheme", 1),
        body: unit(0, 0),
    })
    .unwrap();
    assert_eq!(e.free_vars(), 0);
    assert_eq!(e.free_types(), 0);

    let r = E::from_content(C::MakeExists {
        params: Rc::new(vec![("a", ty("t", 0))]),
        type_body: ty("scheme", 2),
        body: unit(0, 0),
    });
    assert_eq!(r, Err(ScopeError::TypeArityMismatch));
}

#[test]
fn make_exists_without_params_is_rejected() {
    let r = E::from_content(C::MakeExists {
        params: Rc::new(vec![]),
        type_body: ty("scheme", 0),
        body: unit(0, 0),
    });
    assert_eq!(r, Err(ScopeError::EmptyBinderList));
}

#[test]
fn make_exists_with_a_param_in_the_inner_scope_is_rejected() {
    let r = E::from_content(C::MakeExists {
        params: Rc::new(vec![("a", ty("t", 2)), ("b", ty("u", 4)), ("c", ty("v", 2))]),
        type_body: ty("scheme", 5),
        body: var(3, 2, 1),
    });
    assert_eq!(r, Err(ScopeError::TypeArityMismatch));
}

#[test]
fn make_exists_with_a_scheme_smaller_than_its_params_is_rejected() {
    let r = E::from_content(C::MakeExists {
        params: Rc::new(vec![("a", ty("t", 0)), ("b", ty("u", 0))]),
        type_body: ty("scheme", 1),
        body: unit(0, 0),
    });
    assert_eq!(r, Err(ScopeError::TypeArityMismatch));
}

#[test]
fn make_exists_keeps_the_counts_of_its_body() {
    let e = E::from_content(C::MakeExists {
        params: Rc::new(vec![("a", ty("t", 2)), ("b", ty("u", 2))]),
        type_body: ty("scheme", 4),
        body: var(3, 2, 1),
    })
    .unwrap();
    assert_eq!(e.free_vars(), 3);
    assert_eq!(e.free_types(), 2);
    match e.to_content() {
        C::MakeExists { params, type_body, body } => {
            assert_eq!(params.len(), 2);
            assert_eq!(params[0].0, "a");
            assert_eq!(params[1].1, ty("u", 2));
            assert_eq!(type_body, ty("scheme", 4));
            assert_eq!(body, var(3, 2, 1));
        }
        other => panic!("not a packing: {:?}", other),
    }
}
