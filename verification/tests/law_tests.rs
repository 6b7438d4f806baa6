use sctt::checker::TypeChecker;
use sctt::interval::{normal, points_equivalent, substitute_interval};
use sctt::semantics::{Context, Environment, TypeError, Value};
use sctt::syntax::{DeBruijnIndex, IntervalPoint, Level, Term};

fn var(i: usize) -> Term {
    Term::Var(DeBruijnIndex(i))
}

fn lam(dom: Term, body: Term) -> Term {
    Term::Lambda(Box::new(dom), Box::new(body))
}

fn app(f: Term, a: Term) -> Term {
    Term::App(Box::new(f), Box::new(a))
}

fn ivar(i: usize) -> IntervalPoint {
    IntervalPoint::Var(DeBruijnIndex(i))
}

fn meet(a: IntervalPoint, b: IntervalPoint) -> IntervalPoint {
    IntervalPoint::Meet(Box::new(a), Box::new(b))
}

fn join(a: IntervalPoint, b: IntervalPoint) -> IntervalPoint {
    IntervalPoint::Join(Box::new(a), Box::new(b))
}

fn neg(a: IntervalPoint) -> IntervalPoint {
    IntervalPoint::Neg(Box::new(a))
}

#[test]
fn beta_reduces_to_argument_normal_form() {
    let tc = TypeChecker::new();
    let env = Environment::new();
    // (λx. x) Type₀ normalizes to Type₀.
    let redex = app(lam(Term::Universe(Level::Zero), var(0)), Term::Universe(Level::Zero));
    assert_eq!(tc.normalize(&env, &redex).unwrap(), Term::Universe(Level::Zero));
}

#[test]
fn normalization_rebinds_nested_binders() {
    let tc = TypeChecker::new();
    let env = Environment::new();
    // λA. λx. x reads back to itself: the inner variable stays bound to
    // the inner binder. Normal forms carry base-universe annotations, so
    // the annotated form λA:Type₀. λx:A. x normalizes to the same
    // function with its domains erased.
    let id2 = lam(Term::Universe(Level::Zero), lam(Term::Universe(Level::Zero), var(0)));
    assert_eq!(tc.normalize(&env, &id2).unwrap(), id2);
    let id2_annotated = lam(Term::Universe(Level::Zero), lam(var(0), var(0)));
    assert_eq!(tc.normalize(&env, &id2_annotated).unwrap(), id2);
    // The outer variable reads back as the outer index.
    let const2 = lam(Term::Universe(Level::Zero), lam(Term::Universe(Level::Zero), var(1)));
    assert_eq!(tc.normalize(&env, &const2).unwrap(), const2);
}

#[test]
fn unbound_variables_read_back_unchanged() {
    let tc = TypeChecker::new();
    let env = Environment::new();
    // A variable left unbound under a binder re-enters evaluation under
    // its raw index and reads back as itself at the depth it occurred.
    let open_term = lam(Term::Universe(Level::Zero), var(1));
    assert_eq!(tc.normalize(&env, &open_term).unwrap(), open_term);
}

#[test]
fn normalize_is_idempotent_on_its_outputs() {
    let tc = TypeChecker::new();
    let env = Environment::new();
    let id2_annotated = lam(Term::Universe(Level::Zero), lam(var(0), var(0)));
    let two = lam(
        Term::Universe(Level::Zero),
        lam(Term::Universe(Level::Zero), app(var(1), app(var(1), var(0)))),
    );
    for t in [id2_annotated, two] {
        let n1 = tc.normalize(&env, &t).unwrap();
        assert_eq!(tc.normalize(&env, &n1).unwrap(), n1);
    }
}

#[test]
fn beta_law_on_closed_normal_form() {
    let tc = TypeChecker::new();
    let env = Environment::new();
    // (λd. d) (λA. λx. x) normalizes to λA. λx. x itself.
    let id2 = lam(Term::Universe(Level::Zero), lam(Term::Universe(Level::Zero), var(0)));
    let redex = app(lam(Term::Universe(Level::Zero), var(0)), id2.clone());
    assert_eq!(tc.normalize(&env, &redex).unwrap(), id2);
}

#[test]
fn universe_inference_is_strict_successor() {
    let tc = TypeChecker::new();
    let ctx = Context::new();
    let inferred = tc.infer(&ctx, &Term::Universe(Level::Succ(3))).unwrap();
    match inferred {
        Value::Universe(Level::Succ(4)) => (),
        other => panic!("expected Type₄, got {:?}", other),
    }
}

#[test]
fn path_boundary_accepts_matching_endpoints() {
    let tc = TypeChecker::new();
    let ctx = Context::new();
    // ⟨i⟩ Type₀ is a path in Type₁ from Type₀ to Type₀.
    let body = Term::Universe(Level::Zero);
    let ty = Value::PathType(
        Box::new(Value::Universe(Level::Succ(1))),
        Box::new(Value::Universe(Level::Zero)),
        Box::new(Value::Universe(Level::Zero)),
    );
    let term = Term::PathLambda(Box::new(body));
    assert!(tc.check(&ctx, &term, &ty).is_ok());
}

#[test]
fn path_boundary_rejects_perturbed_start() {
    let tc = TypeChecker::new();
    let ctx = Context::new();
    let ty = Value::PathType(
        Box::new(Value::Universe(Level::Succ(1))),
        Box::new(Value::Universe(Level::Succ(1))),
        Box::new(Value::Universe(Level::Zero)),
    );
    let term = Term::PathLambda(Box::new(Term::Universe(Level::Zero)));
    match tc.check(&ctx, &term, &ty) {
        Err(TypeError::TypeMismatch { .. }) => (),
        other => panic!("expected a type mismatch at the start endpoint, got {:?}", other),
    }
}

#[test]
fn path_boundary_rejects_perturbed_end() {
    let tc = TypeChecker::new();
    let ctx = Context::new();
    let ty = Value::PathType(
        Box::new(Value::Universe(Level::Succ(1))),
        Box::new(Value::Universe(Level::Zero)),
        Box::new(Value::Universe(Level::Succ(1))),
    );
    let term = Term::PathLambda(Box::new(Term::Universe(Level::Zero)));
    match tc.check(&ctx, &term, &ty) {
        Err(TypeError::TypeMismatch { .. }) => (),
        other => panic!("expected a type mismatch at the end endpoint, got {:?}", other),
    }
}

#[test]
fn de_morgan_meet_dual() {
    // ¬(i ∧ j) is interchangeable with (¬i) ∨ (¬j).
    let lhs = neg(meet(ivar(0), ivar(1)));
    let rhs = join(neg(ivar(0)), neg(ivar(1)));
    assert!(points_equivalent(&lhs, &rhs));
}

#[test]
fn de_morgan_join_dual() {
    // ¬(i ∨ j) is interchangeable with (¬i) ∧ (¬j).
    let lhs = neg(join(ivar(0), ivar(1)));
    let rhs = meet(neg(ivar(0)), neg(ivar(1)));
    assert!(points_equivalent(&lhs, &rhs));
}

#[test]
fn de_morgan_endpoints() {
    let lhs = neg(meet(IntervalPoint::Zero, ivar(0)));
    let rhs = join(neg(IntervalPoint::Zero), neg(ivar(0)));
    assert!(points_equivalent(&lhs, &rhs));
    let lhs = neg(meet(IntervalPoint::One, ivar(0)));
    let rhs = join(neg(IntervalPoint::One), neg(ivar(0)));
    assert!(points_equivalent(&lhs, &rhs));
}

#[test]
fn double_negation_cancels() {
    assert!(points_equivalent(&neg(neg(ivar(0))), &ivar(0)));
    assert!(points_equivalent(&neg(neg(IntervalPoint::Zero)), &IntervalPoint::Zero));
    assert!(points_equivalent(&neg(neg(IntervalPoint::One)), &IntervalPoint::One));
}

#[test]
fn lattice_fixed_points() {
    assert!(points_equivalent(&meet(IntervalPoint::Zero, ivar(2)), &IntervalPoint::Zero));
    assert!(points_equivalent(&join(IntervalPoint::One, ivar(2)), &IntervalPoint::One));
    assert_eq!(normal(meet(IntervalPoint::One, ivar(0))), ivar(0));
    assert_eq!(normal(join(IntervalPoint::Zero, ivar(0))), ivar(0));
}

#[test]
fn de_morgan_points_interchange_inside_equality_checks() {
    let tc = TypeChecker::new();
    // A variable whose type is a stuck path application: comparing it
    // against the same spine at a De Morgan-equal point must succeed,
    // and against a genuinely different point must be a mismatch.
    let spine = || Box::new(sctt::semantics::Neutral::Var(DeBruijnIndex(5)));
    let at = |p: IntervalPoint| Value::Neutral(sctt::semantics::Neutral::PathApp(spine(), p));
    let ctx = Context::new().extend(at(neg(meet(ivar(0), ivar(1)))));
    assert!(tc.check(&ctx, &var(0), &at(join(neg(ivar(0)), neg(ivar(1))))).is_ok());
    match tc.check(&ctx, &var(0), &at(meet(ivar(0), ivar(1)))) {
        Err(TypeError::TypeMismatch { .. }) => (),
        other => panic!("expected a mismatch of interval points, got {:?}", other),
    }
}

#[test]
fn path_typed_hypotheses_are_usable() {
    let tc = TypeChecker::new();
    // A variable of path type checks against the very type it was bound
    // at: conversion is reflexive on path types.
    let path_ty = || Value::PathType(
        Box::new(Value::Universe(Level::Succ(1))),
        Box::new(Value::Universe(Level::Zero)),
        Box::new(Value::Universe(Level::Zero)),
    );
    let ctx = Context::new().extend(path_ty());
    assert!(tc.check(&ctx, &var(0), &path_ty()).is_ok());
}

#[test]
fn de_morgan_points_interchange_as_interval_values() {
    let tc = TypeChecker::new();
    let env = Environment::new();
    // Applying ⟨i⟩ i to two De Morgan-equal points yields two interval
    // values; the conversion checker must treat them as equal, and must
    // separate points the algebra separates.
    let path = || Term::PathLambda(Box::new(Term::Interval(ivar(0))));
    let vi = tc
        .eval(&env, &Term::PathApp(Box::new(path()), neg(meet(ivar(0), ivar(1)))))
        .unwrap();
    let vj = tc
        .eval(&env, &Term::PathApp(Box::new(path()), join(neg(ivar(0)), neg(ivar(1)))))
        .unwrap();
    let ctx = Context::new().extend(vi);
    assert!(tc.check(&ctx, &var(0), &vj).is_ok());
    let vk = tc
        .eval(&env, &Term::PathApp(Box::new(path()), meet(ivar(0), ivar(1))))
        .unwrap();
    match tc.check(&ctx, &var(0), &vk) {
        Err(TypeError::TypeMismatch { .. }) => (),
        other => panic!("expected a mismatch of interval values, got {:?}", other),
    }
}

#[test]
fn transport_spines_compare_componentwise() {
    let tc = TypeChecker::new();
    // Two stuck transports with the same type, the same subject spine and
    // De Morgan-equal points are convertible; changing a point to one the
    // algebra separates is a mismatch.
    let tr = |i: IntervalPoint, j: IntervalPoint| {
        Value::Neutral(sctt::semantics::Neutral::Transport(
            Box::new(Value::Universe(Level::Zero)),
            i,
            j,
            Box::new(sctt::semantics::Neutral::Var(DeBruijnIndex(7))),
        ))
    };
    let ctx = Context::new().extend(tr(neg(meet(ivar(0), ivar(1))), IntervalPoint::Zero));
    assert!(tc
        .check(&ctx, &var(0), &tr(join(neg(ivar(0)), neg(ivar(1))), IntervalPoint::Zero))
        .is_ok());
    match tc.check(&ctx, &var(0), &tr(meet(ivar(0), ivar(1)), IntervalPoint::Zero)) {
        Err(TypeError::TypeMismatch { .. }) => (),
        other => panic!("expected a mismatch of transport points, got {:?}", other),
    }
}

#[test]
fn path_binders_convert_by_their_bodies() {
    let tc = TypeChecker::new();
    let env = Environment::new();
    // ⟨i⟩ ((λx. x) y) and ⟨i⟩ y are convertible: path binders are
    // compared by opening their bodies, not by representation.
    let t1 = Term::PathLambda(Box::new(app(lam(Term::Universe(Level::Zero), var(0)), var(0))));
    let t2 = Term::PathLambda(Box::new(var(0)));
    let v1 = tc.eval(&env, &t1).unwrap();
    let v2 = tc.eval(&env, &t2).unwrap();
    let ctx = Context::new().extend(v1);
    assert!(tc.check(&ctx, &var(0), &v2).is_ok());
}

#[test]
fn path_application_substitutes_the_endpoint() {
    let tc = TypeChecker::new();
    let env = Environment::new();
    // (⟨i⟩ i) @ 1 normalizes to the endpoint 1.
    let t = Term::PathApp(
        Box::new(Term::PathLambda(Box::new(Term::Interval(ivar(0))))),
        IntervalPoint::One,
    );
    assert_eq!(tc.normalize(&env, &t).unwrap(), Term::Interval(IntervalPoint::One));
}

#[test]
fn interval_substitution_is_total() {
    // Substitution reaches interval positions under every constructor,
    // including transport endpoints and nested path binders.
    let t = Term::Transport(
        Box::new(Term::PathLambda(Box::new(Term::Interval(ivar(0))))),
        ivar(0),
        neg(ivar(0)),
        Box::new(Term::PathApp(Box::new(var(0)), ivar(0))),
    );
    let expected = Term::Transport(
        Box::new(Term::PathLambda(Box::new(Term::Interval(IntervalPoint::One)))),
        IntervalPoint::One,
        neg(IntervalPoint::One),
        Box::new(Term::PathApp(Box::new(var(0)), IntervalPoint::One)),
    );
    assert_eq!(substitute_interval(&t, &IntervalPoint::One), expected);
}

#[test]
fn divergent_term_reports_depth_exhaustion() {
    let tc = TypeChecker { max_depth: 32 };
    let env = Environment::new();
    // Ω = (λx. x x)(λx. x x) never reaches a value; the depth budget
    // turns that into the undecided error rather than divergence.
    let self_app = lam(Term::Universe(Level::Zero), app(var(0), var(0)));
    let omega = app(self_app.clone(), self_app);
    match tc.eval(&env, &omega) {
        Err(TypeError::UnificationFailure) => (),
        other => panic!("expected the depth guard to fire, got {:?}", other),
    }
}

#[test]
fn context_extension_leaves_base_usable() {
    let tc = TypeChecker::new();
    let ctx = Context::new();
    let id_type = Term::Pi(
        Box::new(Term::Universe(Level::Zero)),
        Box::new(Term::Pi(Box::new(var(0)), Box::new(var(1)))),
    );
    let id_term = lam(Term::Universe(Level::Zero), lam(var(0), var(0)));
    let id_type_val = tc.eval(&ctx.env, &id_type).unwrap();
    assert!(tc.check(&ctx, &id_term, &id_type_val).is_ok());

    // Branch off the same base context; the earlier verdict is unchanged.
    let _ctx2 = ctx.extend(Value::Universe(Level::Zero));
    let _ctx3 = ctx.extend(Value::Universe(Level::Succ(7)));
    assert!(tc.check(&ctx, &id_term, &id_type_val).is_ok());
}

#[test]
fn unbound_variable_is_reported() {
    let tc = TypeChecker::new();
    let ctx = Context::new();
    match tc.infer(&ctx, &var(0)) {
        Err(TypeError::UnboundVariable(DeBruijnIndex(0))) => (),
        other => panic!("expected an unbound variable error, got {:?}", other),
    }
}

#[test]
fn applying_a_universe_is_not_a_function() {
    let tc = TypeChecker::new();
    let ctx = Context::new();
    let t = app(Term::Universe(Level::Zero), Term::Universe(Level::Zero));
    match tc.infer(&ctx, &t) {
        Err(TypeError::NotAFunction(_)) => (),
        other => panic!("expected a not-a-function error, got {:?}", other),
    }
}

#[test]
fn path_applying_a_universe_is_not_a_path() {
    let tc = TypeChecker::new();
    let ctx = Context::new();
    let t = Term::PathApp(Box::new(Term::Universe(Level::Zero)), IntervalPoint::Zero);
    match tc.infer(&ctx, &t) {
        Err(TypeError::NotAPath(_)) => (),
        other => panic!("expected a not-a-path error, got {:?}", other),
    }
}

#[test]
fn pi_domain_must_be_a_universe() {
    let tc = TypeChecker::new();
    let ctx = Context::new();
    let t = Term::Pi(
        Box::new(lam(Term::Universe(Level::Zero), var(0))),
        Box::new(Term::Universe(Level::Zero)),
    );
    match tc.infer(&ctx, &t) {
        Err(TypeError::NotAUniverse(_)) => (),
        other => panic!("expected a not-a-universe error, got {:?}", other),
    }
}

#[test]
fn universe_does_not_check_at_its_own_level() {
    let tc = TypeChecker::new();
    let ctx = Context::new();
    let ty = Value::Universe(Level::Zero);
    match tc.check(&ctx, &Term::Universe(Level::Zero), &ty) {
        Err(TypeError::TypeMismatch { .. }) => (),
        other => panic!("expected a type mismatch, got {:?}", other),
    }
}

#[test]
fn transport_evaluation_is_undecided() {
    let tc = TypeChecker::new();
    let env = Environment::new();
    let t = Term::Transport(
        Box::new(Term::Universe(Level::Zero)),
        IntervalPoint::Zero,
        IntervalPoint::One,
        Box::new(Term::Universe(Level::Zero)),
    );
    match tc.eval(&env, &t) {
        Err(TypeError::UnificationFailure) => (),
        other => panic!("expected the undecided error, got {:?}", other),
    }
}

#[test]
fn level_join_and_successor() {
    assert_eq!(Level::Zero.max(Level::Succ(2)), Level::Succ(2));
    assert_eq!(Level::Succ(5).max(Level::Succ(3)), Level::Succ(5));
    assert_eq!(Level::Omega.max(Level::Succ(9)), Level::Omega);
    assert_eq!(Level::Zero.succ(), Level::Succ(1));
    assert_eq!(Level::Succ(7).succ(), Level::Succ(8));
    assert_eq!(Level::Omega.succ(), Level::Omega);
}

#[test]
fn environment_indexes_from_the_innermost_binding() {
    let env = Environment::new();
    let env = env.extend(Value::Universe(Level::Zero));
    let env = env.extend(Value::Universe(Level::Succ(1)));
    match env.lookup(DeBruijnIndex(0)) {
        Some(Value::Universe(Level::Succ(1))) => (),
        other => panic!("expected the innermost binding, got {:?}", other),
    }
    match env.lookup(DeBruijnIndex(1)) {
        Some(Value::Universe(Level::Zero)) => (),
        other => panic!("expected the outer binding, got {:?}", other),
    }
    assert!(env.lookup(DeBruijnIndex(2)).is_none());
}
