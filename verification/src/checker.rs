//! The bidirectional checker: a judgment `check` against a known type and
//! a judgment `infer` that synthesizes one, with the evaluator and the
//! depth-bounded conversion checker as the equality oracle. Path
//! introduction is checked by the boundary conditions: the body at
//! endpoint `0` must convert to the path type's start and at `1` to its
//! end, under exactly the same notion of equality as everything else.

use vstd::prelude::*;
use crate::syntax::{
    term_height, term_levels_ok, DeBruijnIndex, IntervalPoint, Level, Term,
};
use crate::interval::spec_subst_interval;
use crate::semantics::{
    list_len, spec_ctx_extend, spec_ctx_len, spec_ctx_lookup, Context, Neutral, TypeError, Value,
    ValueList,
};
use crate::eval::{spec_apply_closure, spec_eval};
use crate::convert::{
    lemma_values_equal_symmetric, lemma_values_equal_transitive, lemma_values_equal_verdicts,
    spec_check_equal, spec_values_equal,
};

verus! {

/// The type checker. Its one piece of state is the depth budget that
/// bounds every recursion through closures — evaluation, quoting and
/// conversion checking all fail fast with a structured error instead of
/// overflowing the stack on divergent input.
pub struct TypeChecker {
    /// The depth budget for evaluation, quoting and conversion checking.
    pub max_depth: usize,
}

/// The universe level of a value that must be a universe; anything else
/// has no level to give.
pub open spec fn spec_level_of(v: Value) -> Result<Level, TypeError> {
    match v {
        Value::Universe(l) => Ok(l),
        _ => Err(TypeError::NotAUniverse(v)),
    }
}

/// The inference judgment: the type synthesized for a term, or the error
/// that rules it out.
///
/// - A variable reports its context entry, or `UnboundVariable`.
/// - A universe lives in its strict successor universe.
/// - A dependent product lives at the join of the levels of its domain
///   and codomain.
/// - An application requires a product type of its head, checks the
///   argument against the domain and instantiates the codomain.
/// - A path type lives at the level of its space: paths do not raise the
///   universe level. Both endpoints must check against the space.
/// - A path application requires a path type of its head and reports the
///   underlying space.
/// - A lambda never infers: it needs a target type, and the mismatch
///   reported carries its evaluated domain annotation.
/// - Constructs with no inference rule here (path binders, bare interval
///   points, `Transport`, `Hcomp`) are reported as undecided.
pub open spec fn spec_infer(ctx: Context, t: Term, depth: nat) -> Result<Value, TypeError>
    decreases term_height(t), 0int,
{
    match t {
        Term::Var(idx) => match spec_ctx_lookup(ctx, idx.0 as nat) {
            Some(v) => Ok(v),
            None => Err(TypeError::UnboundVariable(idx)),
        },
        Term::Universe(l) => Ok(Value::Universe(l.spec_succ())),
        Term::Pi(a, b) => match spec_eval(ctx.env, *a, depth) {
            Ok(av) => match spec_level_of(av) {
                Ok(al) => {
                    let ctx2 = spec_ctx_extend(ctx, av);
                    match spec_eval(ctx2.env, *b, depth) {
                        Ok(bv) => match spec_level_of(bv) {
                            Ok(bl) => Ok(Value::Universe(al.spec_max(bl))),
                            Err(e) => Err(e),
                        },
                        Err(e) => Err(e),
                    }
                },
                Err(e) => Err(e),
            },
            Err(e) => Err(e),
        },
        Term::App(f, a) => match spec_infer(ctx, *f, depth) {
            Ok(ft) => match ft {
                Value::Pi(aty, c) => match spec_check(ctx, *a, *aty, depth) {
                    Ok(_) => match spec_eval(ctx.env, *a, depth) {
                        Ok(av) => spec_apply_closure(c, av, depth),
                        Err(e) => Err(e),
                    },
                    Err(e) => Err(e),
                },
                _ => Err(TypeError::NotAFunction(ft)),
            },
            Err(e) => Err(e),
        },
        Term::PathType(a, st, en) => match spec_eval(ctx.env, *a, depth) {
            Ok(av) => match spec_level_of(av) {
                Ok(al) => match spec_check(ctx, *st, av, depth) {
                    Ok(_) => match spec_check(ctx, *en, av, depth) {
                        Ok(_) => Ok(Value::Universe(al)),
                        Err(e) => Err(e),
                    },
                    Err(e) => Err(e),
                },
                Err(e) => Err(e),
            },
            Err(e) => Err(e),
        },
        Term::PathApp(p, _) => match spec_infer(ctx, *p, depth) {
            Ok(pt) => match pt {
                Value::PathType(aty, _, _) => Ok(*aty),
                _ => Err(TypeError::NotAPath(pt)),
            },
            Err(e) => Err(e),
        },
        Term::Lambda(a, _) => match spec_eval(ctx.env, *a, depth) {
            Ok(av) => match spec_check(ctx, *a, Value::Universe(Level::Omega), depth) {
                Ok(_) => Err(
                    TypeError::TypeMismatch {
                        expected: Value::Universe(Level::Omega),
                        found: av,
                    },
                ),
                Err(e) => Err(e),
            },
            Err(e) => Err(e),
        },
        Term::PathLambda(_) => Err(TypeError::UnificationFailure),
        Term::Interval(_) => Err(TypeError::UnificationFailure),
        Term::Transport(_, _, _, _) => Err(TypeError::UnificationFailure),
        Term::Hcomp(_, _, _) => Err(TypeError::UnificationFailure),
    }
}

/// The checking judgment: whether a term checks against an expected type.
///
/// - A lambda against a dependent product binds its domain and checks the
///   body against the instantiated codomain.
/// - A path binder against a path type is checked by its boundary: the
///   body with the interval variable set to `0` must convert to the
///   type's start, and set to `1` to its end, each failure reported as a
///   mismatch.
/// - Every other shape switches to inference and requires the inferred
///   type to convert to the expected one.
pub open spec fn spec_check(ctx: Context, t: Term, ty: Value, depth: nat) -> Result<
    (),
    TypeError,
>
    decreases term_height(t), 1int,
{
    match (t, ty) {
        (Term::Lambda(_, body), Value::Pi(aty, c)) => {
            let ctx2 = spec_ctx_extend(ctx, *aty);
            let var = Value::Neutral(Neutral::Var(DeBruijnIndex(spec_ctx_len(ctx) as usize)));
            match spec_apply_closure(c, var, depth) {
                Ok(bty) => spec_check(ctx2, *body, bty, depth),
                Err(e) => Err(e),
            }
        },
        (Term::PathLambda(body), Value::PathType(aty, s, en)) => {
            let at0 = spec_subst_interval(*body, IntervalPoint::Zero);
            let at1 = spec_subst_interval(*body, IntervalPoint::One);
            match spec_eval(ctx.env, at0, depth) {
                Ok(v0) => match spec_eval(ctx.env, at1, depth) {
                    Ok(v1) => match spec_check_equal(ctx, v0, *s, depth) {
                        Ok(_) => spec_check_equal(ctx, v1, *en, depth),
                        Err(e) => Err(e),
                    },
                    Err(e) => Err(e),
                },
                Err(e) => Err(e),
            }
        },
        (t2, ty2) => match spec_infer(ctx, t2, depth) {
            Ok(inferred) => spec_check_equal(ctx, inferred, ty2, depth),
            Err(e) => Err(e),
        },
    }
}

impl TypeChecker {
    /// A checker with the default depth budget.
    pub fn new() -> (r: Self)
        ensures
            r.max_depth == 1000,
    {
        TypeChecker { max_depth: 1000 }
    }

    /// Checks a term against an expected type. The size bound on the
    /// inputs is a machine limit: binding levels are `usize` indices.
    pub fn check(&self, ctx: &Context, term: &Term, ty: &Value) -> (r: Result<(), TypeError>)
        requires
            term_levels_ok(*term),
            spec_ctx_len(*ctx) + term_height(*term) + self.max_depth <= usize::MAX,
        ensures
            r == spec_check(*ctx, *term, *ty, self.max_depth as nat),
        decreases term_height(*term), 1int,
    {
        match (term, ty) {
            (Term::Lambda(_, body), Value::Pi(aty, c)) => {
                let n = ctx.types.len();
                let ctx2 = ctx.extend((**aty).clone());
                let var = Value::Neutral(Neutral::Var(DeBruijnIndex(n)));
                match self.apply_closure(c.clone(), var, self.max_depth) {
                    Ok(bty) => self.check(&ctx2, body, &bty),
                    Err(e) => Err(e),
                }
            },
            (Term::PathLambda(body), Value::PathType(aty, s, en)) => {
                let at0 = crate::interval::substitute_interval(body, &IntervalPoint::Zero);
                let at1 = crate::interval::substitute_interval(body, &IntervalPoint::One);
                match self.eval(&ctx.env, &at0) {
                    Ok(v0) => match self.eval(&ctx.env, &at1) {
                        Ok(v1) => match self.check_equal(ctx, &v0, s) {
                            Ok(_) => self.check_equal(ctx, &v1, en),
                            Err(e) => Err(e),
                        },
                        Err(e) => Err(e),
                    },
                    Err(e) => Err(e),
                }
            },
            _ => match self.infer(ctx, term) {
                Ok(inferred) => self.check_equal(ctx, &inferred, ty),
                Err(e) => Err(e),
            },
        }
    }

    /// Infers the type of a term. The size bound on the inputs is a
    /// machine limit: binding levels are `usize` indices.
    pub fn infer(&self, ctx: &Context, term: &Term) -> (r: Result<Value, TypeError>)
        requires
            term_levels_ok(*term),
            spec_ctx_len(*ctx) + term_height(*term) + self.max_depth <= usize::MAX,
        ensures
            r == spec_infer(*ctx, *term, self.max_depth as nat),
        decreases term_height(*term), 0int,
    {
        match term {
            Term::Var(idx) => match ctx.lookup(*idx) {
                Some(v) => Ok(v.clone()),
                None => Err(TypeError::UnboundVariable(*idx)),
            },
            Term::Universe(l) => Ok(Value::Universe(l.succ())),
            Term::Pi(a, b) => match self.eval(&ctx.env, a) {
                Ok(av) => match self.infer_universe_level(&av) {
                    Ok(al) => {
                        let ctx2 = ctx.extend(av);
                        match self.eval(&ctx2.env, b) {
                            Ok(bv) => match self.infer_universe_level(&bv) {
                                Ok(bl) => Ok(Value::Universe(al.max(bl))),
                                Err(e) => Err(e),
                            },
                            Err(e) => Err(e),
                        }
                    },
                    Err(e) => Err(e),
                },
                Err(e) => Err(e),
            },
            Term::App(f, a) => match self.infer(ctx, f) {
                Ok(ft) => match ft {
                    Value::Pi(aty, c) => match self.check(ctx, a, &aty) {
                        Ok(_) => match self.eval(&ctx.env, a) {
                            Ok(av) => self.apply_closure(c, av, self.max_depth),
                            Err(e) => Err(e),
                        },
                        Err(e) => Err(e),
                    },
                    other => Err(TypeError::NotAFunction(other)),
                },
                Err(e) => Err(e),
            },
            Term::PathType(a, st, en) => match self.eval(&ctx.env, a) {
                Ok(av) => match self.infer_universe_level(&av) {
                    Ok(al) => match self.check(ctx, st, &av) {
                        Ok(_) => match self.check(ctx, en, &av) {
                            Ok(_) => Ok(Value::Universe(al)),
                            Err(e) => Err(e),
                        },
                        Err(e) => Err(e),
                    },
                    Err(e) => Err(e),
                },
                Err(e) => Err(e),
            },
            Term::PathApp(p, _) => match self.infer(ctx, p) {
                Ok(pt) => match pt {
                    Value::PathType(aty, _, _) => Ok(*aty),
                    other => Err(TypeError::NotAPath(other)),
                },
                Err(e) => Err(e),
            },
            Term::Lambda(a, _) => match self.eval(&ctx.env, a) {
                Ok(av) => match self.check(ctx, a, &Value::Universe(Level::Omega)) {
                    Ok(_) => Err(
                        TypeError::TypeMismatch {
                            expected: Value::Universe(Level::Omega),
                            found: av,
                        },
                    ),
                    Err(e) => Err(e),
                },
                Err(e) => Err(e),
            },
            Term::PathLambda(_) => Err(TypeError::UnificationFailure),
            Term::Interval(_) => Err(TypeError::UnificationFailure),
            Term::Transport(_, _, _, _) => Err(TypeError::UnificationFailure),
            Term::Hcomp(_, _, _) => Err(TypeError::UnificationFailure),
        }
    }

    /// The universe level of a value that must be a universe.
    pub(crate) fn infer_universe_level(&self, ty: &Value) -> (r: Result<Level, TypeError>)
        ensures
            r == spec_level_of(*ty),
    {
        match ty {
            Value::Universe(l) => Ok(*l),
            _ => Err(TypeError::NotAUniverse(ty.clone())),
        }
    }
}

/// Universe successor law: the base universe is inferred to live in the
/// first successor universe, in any context and under any depth budget.
pub proof fn lemma_universe_successor(ctx: Context, depth: nat)
    ensures
        spec_infer(ctx, Term::Universe(Level::Zero), depth) == Ok::<Value, TypeError>(
            Value::Universe(Level::Succ(1)),
        ),
{
}

/// Path boundary law: checking a path binder against a path type succeeds
/// exactly when the body with the interval variable set to `0` evaluates
/// and converts to the type's start, and set to `1` to its end; and a
/// boundary that evaluates but fails to convert is reported as a
/// `TypeMismatch` carrying the offending endpoint, never ignored.
pub proof fn lemma_path_boundary(
    ctx: Context,
    body: Term,
    aty: Value,
    s: Value,
    en: Value,
    depth: nat,
)
    ensures
        ({
            let v0r = spec_eval(ctx.env, spec_subst_interval(body, IntervalPoint::Zero), depth);
            let v1r = spec_eval(ctx.env, spec_subst_interval(body, IntervalPoint::One), depth);
            let verdict = spec_check(
                ctx,
                Term::PathLambda(Box::new(body)),
                Value::PathType(Box::new(aty), Box::new(s), Box::new(en)),
                depth,
            );
            let lv = spec_ctx_len(ctx) as int;
            &&& (verdict is Ok <==> {
                &&& v0r matches Ok(v0) && spec_values_equal(lv, v0, s, depth) == Ok::<
                    bool,
                    TypeError,
                >(true)
                &&& v1r matches Ok(v1) && spec_values_equal(lv, v1, en, depth) == Ok::<
                    bool,
                    TypeError,
                >(true)
            })
            &&& (v0r matches Ok(v0) ==> v1r is Ok ==> spec_values_equal(lv, v0, s, depth) == Ok::<
                bool,
                TypeError,
            >(false) ==> verdict == Err::<(), TypeError>(
                TypeError::TypeMismatch { expected: s, found: v0 },
            ))
            &&& (v0r matches Ok(v0) ==> v1r matches Ok(v1) ==> (spec_values_equal(lv, v0, s, depth)
                == Ok::<bool, TypeError>(true) && spec_values_equal(lv, v1, en, depth) == Ok::<
                bool,
                TypeError,
            >(false)) ==> verdict == Err::<(), TypeError>(
                TypeError::TypeMismatch { expected: en, found: v1 },
            ))
        }),
{
    let v0r = spec_eval(ctx.env, spec_subst_interval(body, IntervalPoint::Zero), depth);
    let v1r = spec_eval(ctx.env, spec_subst_interval(body, IntervalPoint::One), depth);
    let lv = spec_ctx_len(ctx) as int;
    if let Ok(v0) = v0r {
        if let Ok(v1) = v1r {
            let e0 = spec_values_equal(lv, v0, s, depth);
            let e1 = spec_values_equal(lv, v1, en, depth);
            assert(spec_check_equal(ctx, v0, s, depth) == (match e0 {
                Ok(true) => Ok::<(), TypeError>(()),
                Ok(false) => Err(TypeError::TypeMismatch { expected: s, found: v0 }),
                Err(e) => Err(e),
            }));
            assert(spec_check_equal(ctx, v1, en, depth) == (match e1 {
                Ok(true) => Ok::<(), TypeError>(()),
                Ok(false) => Err(TypeError::TypeMismatch { expected: en, found: v1 }),
                Err(e) => Err(e),
            }));
        }
    }
}

/// Perturbing the start boundary: when a path binder checks against a
/// path type, replacing the start by a value decidedly not convertible to
/// it is never accepted — the verdict is the mismatch carrying the new
/// endpoint and the evaluated boundary, unless that very comparison runs
/// out of depth budget, in which case the undecided error surfaces.
pub proof fn lemma_boundary_perturbed_start(
    ctx: Context,
    body: Term,
    aty: Value,
    s: Value,
    en: Value,
    s2: Value,
    depth: nat,
)
    requires
        spec_check(
            ctx,
            Term::PathLambda(Box::new(body)),
            Value::PathType(Box::new(aty), Box::new(s), Box::new(en)),
            depth,
        ) == Ok::<(), TypeError>(()),
        spec_values_equal(spec_ctx_len(ctx) as int, s2, s, depth) == Ok::<bool, TypeError>(false),
    ensures
        ({
            let v0r = spec_eval(ctx.env, spec_subst_interval(body, IntervalPoint::Zero), depth);
            let verdict = spec_check(
                ctx,
                Term::PathLambda(Box::new(body)),
                Value::PathType(Box::new(aty), Box::new(s2), Box::new(en)),
                depth,
            );
            &&& verdict != Ok::<(), TypeError>(())
            &&& (v0r matches Ok(v0) ==> (verdict == Err::<(), TypeError>(
                TypeError::TypeMismatch { expected: s2, found: v0 },
            ) || verdict == Err::<(), TypeError>(TypeError::UnificationFailure)))
        }),
{
    let lv = spec_ctx_len(ctx) as int;
    let v0r = spec_eval(ctx.env, spec_subst_interval(body, IntervalPoint::Zero), depth);
    let v1r = spec_eval(ctx.env, spec_subst_interval(body, IntervalPoint::One), depth);
    lemma_path_boundary(ctx, body, aty, s, en, depth);
    lemma_path_boundary(ctx, body, aty, s2, en, depth);
    if let Ok(v0) = v0r {
        if let Ok(v1) = v1r {
            let e0 = spec_values_equal(lv, v0, s2, depth);
            match e0 {
                Ok(true) => {
                    lemma_values_equal_symmetric(lv, v0, s2, depth);
                    lemma_values_equal_transitive(lv, s2, v0, s, depth);
                    assert(false);
                },
                Ok(false) => {
                },
                Err(_) => {
                    lemma_values_equal_verdicts(lv, v0, s2, depth);
                    assert(spec_check_equal(ctx, v0, s2, depth) == Err::<(), TypeError>(
                        TypeError::UnificationFailure,
                    ));
                },
            }
        }
    }
}

/// Perturbing the end boundary: the twin of
/// `lemma_boundary_perturbed_start` for the other endpoint.
pub proof fn lemma_boundary_perturbed_end(
    ctx: Context,
    body: Term,
    aty: Value,
    s: Value,
    en: Value,
    en2: Value,
    depth: nat,
)
    requires
        spec_check(
            ctx,
            Term::PathLambda(Box::new(body)),
            Value::PathType(Box::new(aty), Box::new(s), Box::new(en)),
            depth,
        ) == Ok::<(), TypeError>(()),
        spec_values_equal(spec_ctx_len(ctx) as int, en2, en, depth) == Ok::<bool, TypeError>(
            false,
        ),
    ensures
        ({
            let v1r = spec_eval(ctx.env, spec_subst_interval(body, IntervalPoint::One), depth);
            let verdict = spec_check(
                ctx,
                Term::PathLambda(Box::new(body)),
                Value::PathType(Box::new(aty), Box::new(s), Box::new(en2)),
                depth,
            );
            &&& verdict != Ok::<(), TypeError>(())
            &&& (v1r matches Ok(v1) ==> (verdict == Err::<(), TypeError>(
                TypeError::TypeMismatch { expected: en2, found: v1 },
            ) || verdict == Err::<(), TypeError>(TypeError::UnificationFailure)))
        }),
{
    let lv = spec_ctx_len(ctx) as int;
    let v0r = spec_eval(ctx.env, spec_subst_interval(body, IntervalPoint::Zero), depth);
    let v1r = spec_eval(ctx.env, spec_subst_interval(body, IntervalPoint::One), depth);
    lemma_path_boundary(ctx, body, aty, s, en, depth);
    lemma_path_boundary(ctx, body, aty, s, en2, depth);
    if let Ok(v0) = v0r {
        if let Ok(v1) = v1r {
            let e1 = spec_values_equal(lv, v1, en2, depth);
            match e1 {
                Ok(true) => {
                    lemma_values_equal_symmetric(lv, v1, en2, depth);
                    lemma_values_equal_transitive(lv, en2, v1, en, depth);
                    assert(false);
                },
                Ok(false) => {
                },
                Err(_) => {
                    lemma_values_equal_verdicts(lv, v1, en2, depth);
                    assert(spec_check_equal(ctx, v0, s, depth) == Ok::<(), TypeError>(()));
                    assert(spec_check_equal(ctx, v1, en2, depth) == Err::<(), TypeError>(
                        TypeError::UnificationFailure,
                    ));
                },
            }
        }
    }
}

/// Context purity: extending a context builds a fresh context — the new
/// type list is the old one with `ty` in front and the receiver is not
/// touched — and every judgment is a function of the context value handed
/// to it, so a verdict reached in the base context is unchanged by later
/// extensions.
pub proof fn lemma_context_purity(
    ctx: Context,
    ty: Value,
    t: Term,
    expected: Value,
    depth: nat,
    verdict: Result<(), TypeError>,
)
    requires
        verdict == spec_check(ctx, t, expected, depth),
    ensures
        spec_ctx_extend(ctx, ty).types == ValueList::Cons(Box::new(ty), Box::new(ctx.types)),
        spec_ctx_len(spec_ctx_extend(ctx, ty)) == spec_ctx_len(ctx) + 1,
        spec_check(ctx, t, expected, depth) == verdict,
{
    assert(list_len(spec_ctx_extend(ctx, ty).types) == 1 + list_len(ctx.types));
}

} // verus!
