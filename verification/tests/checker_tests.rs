use sctt::checker::TypeChecker;
use sctt::semantics::{Context, Environment, Value};
use sctt::syntax::{DeBruijnIndex, Level, Term};

fn var(i: usize) -> Term {
    Term::Var(DeBruijnIndex(i))
}

fn lam(dom: Term, body: Term) -> Term {
    Term::Lambda(Box::new(dom), Box::new(body))
}

fn app(f: Term, a: Term) -> Term {
    Term::App(Box::new(f), Box::new(a))
}

fn pi(dom: Term, cod: Term) -> Term {
    Term::Pi(Box::new(dom), Box::new(cod))
}

fn path_type(space: Term, start: Term, end: Term) -> Term {
    Term::PathType(Box::new(space), Box::new(start), Box::new(end))
}

#[test]
fn test_identity_function() {
    let tc = TypeChecker::new();
    let ctx = Context::new();

    // id : Π(A : Type₀). Π(x : A). A
    // id = λA. λx. x
    let id_type = pi(Term::Universe(Level::Zero), pi(var(0), var(1)));
    let id_term = lam(Term::Universe(Level::Zero), lam(var(0), var(0)));

    let id_type_val = tc.eval(&ctx.env, &id_type).unwrap();
    assert!(tc.check(&ctx, &id_term, &id_type_val).is_ok());
}

#[test]
fn test_path_reflexivity() {
    let tc = TypeChecker::new();
    let ctx = Context::new();

    // refl : Π(A : Type₀). Π(a : A). Path A a a
    // refl = λA. λa. λi. a
    let refl_type = pi(
        Term::Universe(Level::Zero),
        pi(var(0), path_type(var(1), var(0), var(0))),
    );
    let refl_term = lam(
        Term::Universe(Level::Zero),
        lam(var(0), Term::PathLambda(Box::new(var(0)))),
    );

    let refl_type_val = tc.eval(&ctx.env, &refl_type).unwrap();
    assert!(tc.check(&ctx, &refl_term, &refl_type_val).is_ok());
}

#[test]
fn test_normalization_beta_reduction() {
    let tc = TypeChecker::new();
    let env = Environment::new();

    // (λx. x) y → y
    let redex = app(lam(Term::Universe(Level::Zero), var(0)), var(0));

    let normalized = tc.normalize(&env, &redex).unwrap();
    assert_eq!(normalized, var(0));
}

#[test]
fn test_universe_hierarchy() {
    let tc = TypeChecker::new();
    let ctx = Context::new();

    // Type₀ : Type₁
    let type0 = Term::Universe(Level::Zero);
    let inferred = tc.infer(&ctx, &type0).unwrap();

    match inferred {
        Value::Universe(Level::Succ(1)) => (),
        _ => panic!("Expected Type₁"),
    }
}

#[test]
fn test_confluence_property() {
    let tc = TypeChecker::new();
    let env = Environment::new();

    // Church numerals: different reduction paths should converge
    // two = λf. λx. f (f x)
    let two = lam(
        Term::Universe(Level::Zero),
        lam(
            Term::Universe(Level::Zero),
            app(var(1), app(var(1), var(0))),
        ),
    );

    let norm1 = tc.normalize(&env, &two).unwrap();
    let norm2 = tc.normalize(&env, &two).unwrap();

    assert_eq!(norm1, norm2, "Confluence property violated");
}
