//! The quoter: semantic values are read back into normal-form syntax.
//! Under every term binder a fresh neutral variable is introduced and the
//! closure is forced open, so two semantically equal functions read back
//! to the same syntax however they were built. A path binder is opened
//! differently: its body is evaluated in the captured environment and
//! read back at the same level — the algebra tracks one interval
//! dimension whose endpoints enter through substitution at application,
//! and a fresh term variable here would shift the body's term indices
//! under the interval binder. Quoting shares the depth budget discipline
//! of evaluation and is total.

use vstd::prelude::*;
use crate::syntax::{DeBruijnIndex, Level, Term, term_height};
use crate::semantics::{
    list_len, neutral_height, spec_env_extend, value_height, Closure, Environment, Neutral,
    TypeError, Value, ValueList,
};
use crate::eval::{spec_apply_closure, spec_eval, lemma_beta_identity};
use crate::checker::TypeChecker;

verus! {

/// The normal-form syntax a value reads back to at a given binding level.
///
/// Term binders quote by applying their closure to a fresh neutral
/// variable at the current level and reading the result back one level
/// deeper. A path binder quotes by evaluating its body in the captured
/// environment and reading it back at the same level: no term variable
/// is bound, so no fresh variable is introduced and no index shifts. A
/// quoted lambda carries a placeholder domain annotation (the base
/// universe): evaluation never consults domain annotations, so normal
/// forms do not preserve them.
pub open spec fn spec_quote(level: int, v: Value, fuel: nat) -> Result<Term, TypeError>
    decreases fuel, value_height(v), 1int,
{
    match v {
        Value::Neutral(n) => spec_quote_neutral(level, n, fuel),
        Value::Universe(l) => Ok(Term::Universe(l)),
        Value::Lambda(c) => if fuel == 0 {
            Err(TypeError::UnificationFailure)
        } else {
            let var = Value::Neutral(Neutral::Var(DeBruijnIndex(level as usize)));
            match spec_apply_closure(c, var, fuel) {
                Ok(bv) => match spec_quote(level + 1, bv, (fuel - 1) as nat) {
                    Ok(b) => Ok(
                        Term::Lambda(Box::new(Term::Universe(Level::Zero)), Box::new(b)),
                    ),
                    Err(e) => Err(e),
                },
                Err(e) => Err(e),
            }
        },
        Value::Pi(a, c) => match spec_quote(level, *a, fuel) {
            Ok(at) => if fuel == 0 {
                Err(TypeError::UnificationFailure)
            } else {
                let var = Value::Neutral(Neutral::Var(DeBruijnIndex(level as usize)));
                match spec_apply_closure(c, var, fuel) {
                    Ok(bv) => match spec_quote(level + 1, bv, (fuel - 1) as nat) {
                        Ok(bt) => Ok(Term::Pi(Box::new(at), Box::new(bt))),
                        Err(e) => Err(e),
                    },
                    Err(e) => Err(e),
                }
            },
            Err(e) => Err(e),
        },
        Value::PathType(a, s, e) => match spec_quote(level, *a, fuel) {
            Ok(at) => match spec_quote(level, *s, fuel) {
                Ok(st) => match spec_quote(level, *e, fuel) {
                    Ok(et) => Ok(
                        Term::PathType(Box::new(at), Box::new(st), Box::new(et)),
                    ),
                    Err(er) => Err(er),
                },
                Err(er) => Err(er),
            },
            Err(er) => Err(er),
        },
        Value::PathLambda(c) => if fuel == 0 {
            Err(TypeError::UnificationFailure)
        } else {
            match spec_eval(c.env, *c.body, fuel) {
                Ok(bv) => match spec_quote(level, bv, (fuel - 1) as nat) {
                    Ok(b) => Ok(Term::PathLambda(Box::new(b))),
                    Err(e) => Err(e),
                },
                Err(e) => Err(e),
            }
        },
        Value::Interval(i) => Ok(Term::Interval(i)),
    }
}

/// The syntax a neutral spine reads back to, elimination by elimination.
///
/// Variables follow the readback convention of `lemma_variable_readback`:
/// a fresh variable introduced by the quoter or the judgments carries its
/// binding level, counted from the outside, and is read back as the
/// De Bruijn index that rebinds it at the ambient level, `level - 1 -
/// tag`. A tag at or above the ambient level is an unbound variable of an
/// open term, which evaluation re-injected under its raw index; it reads
/// back unchanged, so a free variable of the input reappears as itself at
/// the depth where it occurred.
pub open spec fn spec_quote_neutral(level: int, n: Neutral, fuel: nat) -> Result<Term, TypeError>
    decreases fuel, neutral_height(n), 0int,
{
    match n {
        Neutral::Var(idx) => Ok(
            Term::Var(
                DeBruijnIndex(
                    if idx.0 < level {
                        (level - 1 - idx.0) as usize
                    } else {
                        idx.0
                    },
                ),
            ),
        ),
        Neutral::App(f, a) => match spec_quote_neutral(level, *f, fuel) {
            Ok(ft) => match spec_quote(level, *a, fuel) {
                Ok(at) => Ok(Term::App(Box::new(ft), Box::new(at))),
                Err(e) => Err(e),
            },
            Err(e) => Err(e),
        },
        Neutral::PathApp(p, i) => match spec_quote_neutral(level, *p, fuel) {
            Ok(pt) => Ok(Term::PathApp(Box::new(pt), i)),
            Err(e) => Err(e),
        },
        Neutral::Transport(a, i, j, t) => match spec_quote(level, *a, fuel) {
            Ok(at) => match spec_quote_neutral(level, *t, fuel) {
                Ok(tt) => Ok(Term::Transport(Box::new(at), i, j, Box::new(tt))),
                Err(e) => Err(e),
            },
            Err(e) => Err(e),
        },
    }
}

/// The normal form of a term: evaluate, then read back at the ambient
/// binding level. A deterministic function of the environment, the term
/// and the depth budget.
pub open spec fn spec_normalize(env: Environment, t: Term, fuel: nat) -> Result<Term, TypeError> {
    match spec_eval(env, t, fuel) {
        Ok(v) => spec_quote(list_len(env.values) as int, v, fuel),
        Err(e) => Err(e),
    }
}

impl TypeChecker {
    /// Normalizes a term by evaluation and quoting, with the checker's
    /// depth budget.
    pub fn normalize(&self, env: &Environment, term: &Term) -> (r: Result<Term, TypeError>)
        requires
            list_len(env.values) + self.max_depth <= usize::MAX,
        ensures
            r == spec_normalize(*env, *term, self.max_depth as nat),
    {
        match self.eval(env, term) {
            Ok(v) => {
                let level = env.values.len();
                self.quote(level, &v, self.max_depth)
            },
            Err(e) => Err(e),
        }
    }

    /// Reads a value back into syntax at the given binding level.
    pub(crate) fn quote(&self, level: usize, value: &Value, fuel: usize) -> (r: Result<
        Term,
        TypeError,
    >)
        requires
            level + fuel <= usize::MAX,
        ensures
            r == spec_quote(level as int, *value, fuel as nat),
        decreases fuel, value_height(*value), 1int,
    {
        match value {
            Value::Neutral(n) => self.quote_neutral(level, n, fuel),
            Value::Universe(l) => Ok(Term::Universe(*l)),
            Value::Lambda(c) => {
                if fuel == 0 {
                    Err(TypeError::UnificationFailure)
                } else {
                    let var = Value::Neutral(Neutral::Var(DeBruijnIndex(level)));
                    match self.apply_closure(c.clone(), var, fuel) {
                        Ok(bv) => match self.quote(level + 1, &bv, fuel - 1) {
                            Ok(b) => Ok(
                                Term::Lambda(
                                    Box::new(Term::Universe(Level::Zero)),
                                    Box::new(b),
                                ),
                            ),
                            Err(e) => Err(e),
                        },
                        Err(e) => Err(e),
                    }
                }
            },
            Value::Pi(a, c) => {
                match self.quote(level, a, fuel) {
                    Ok(at) => {
                        if fuel == 0 {
                            Err(TypeError::UnificationFailure)
                        } else {
                            let var = Value::Neutral(Neutral::Var(DeBruijnIndex(level)));
                            match self.apply_closure(c.clone(), var, fuel) {
                                Ok(bv) => match self.quote(level + 1, &bv, fuel - 1) {
                                    Ok(bt) => Ok(Term::Pi(Box::new(at), Box::new(bt))),
                                    Err(e) => Err(e),
                                },
                                Err(e) => Err(e),
                            }
                        }
                    },
                    Err(e) => Err(e),
                }
            },
            Value::PathType(a, s, e) => match self.quote(level, a, fuel) {
                Ok(at) => match self.quote(level, s, fuel) {
                    Ok(st) => match self.quote(level, e, fuel) {
                        Ok(et) => Ok(
                            Term::PathType(Box::new(at), Box::new(st), Box::new(et)),
                        ),
                        Err(er) => Err(er),
                    },
                    Err(er) => Err(er),
                },
                Err(er) => Err(er),
            },
            Value::PathLambda(c) => {
                if fuel == 0 {
                    Err(TypeError::UnificationFailure)
                } else {
                    match self.eval_fuel(&c.env, &c.body, fuel) {
                        Ok(bv) => match self.quote(level, &bv, fuel - 1) {
                            Ok(b) => Ok(Term::PathLambda(Box::new(b))),
                            Err(e) => Err(e),
                        },
                        Err(e) => Err(e),
                    }
                }
            },
            Value::Interval(i) => Ok(Term::Interval(i.clone())),
        }
    }

    /// Reads a neutral spine back into syntax.
    pub(crate) fn quote_neutral(&self, level: usize, n: &Neutral, fuel: usize) -> (r: Result<
        Term,
        TypeError,
    >)
        requires
            level + fuel <= usize::MAX,
        ensures
            r == spec_quote_neutral(level as int, *n, fuel as nat),
        decreases fuel, neutral_height(*n), 0int,
    {
        match n {
            Neutral::Var(idx) => Ok(
                Term::Var(
                    DeBruijnIndex(
                        if idx.0 < level {
                            level - 1 - idx.0
                        } else {
                            idx.0
                        },
                    ),
                ),
            ),
            Neutral::App(f, a) => match self.quote_neutral(level, f, fuel) {
                Ok(ft) => match self.quote(level, a, fuel) {
                    Ok(at) => Ok(Term::App(Box::new(ft), Box::new(at))),
                    Err(e) => Err(e),
                },
                Err(e) => Err(e),
            },
            Neutral::PathApp(p, i) => match self.quote_neutral(level, p, fuel) {
                Ok(pt) => Ok(Term::PathApp(Box::new(pt), i.clone())),
                Err(e) => Err(e),
            },
            Neutral::Transport(a, i, j, t) => match self.quote(level, a, fuel) {
                Ok(at) => match self.quote_neutral(level, t, fuel) {
                    Ok(tt) => Ok(
                        Term::Transport(Box::new(at), i.clone(), j.clone(), Box::new(tt)),
                    ),
                    Err(e) => Err(e),
                },
                Err(e) => Err(e),
            },
        }
    }
}

/// Confluence at the level of results: normalization is a function of the
/// environment, the term and the depth budget alone, so two runs over the
/// same input yield byte-for-byte identical syntax.
pub proof fn lemma_normalize_deterministic(
    env: Environment,
    t: Term,
    fuel: nat,
    r1: Result<Term, TypeError>,
    r2: Result<Term, TypeError>,
)
    requires
        r1 == spec_normalize(env, t, fuel),
        r2 == spec_normalize(env, t, fuel),
    ensures
        r1 == r2,
{
}

/// Beta law at the level of normal forms: `(λx. x) t` normalizes to the
/// same syntax as `t` itself, whenever `t` evaluates at all.
pub proof fn lemma_beta_normalize(env: Environment, dom: Term, t: Term, fuel: nat)
    requires
        fuel >= 1,
        spec_eval(env, t, fuel) is Ok,
    ensures
        spec_normalize(
            env,
            Term::App(
                Box::new(Term::Lambda(Box::new(dom), Box::new(Term::Var(DeBruijnIndex(0))))),
                Box::new(t),
            ),
            fuel,
        ) == spec_normalize(env, t, fuel),
{
    if let Ok(v) = spec_eval(env, t, fuel) {
        lemma_beta_identity(env, dom, t, v, fuel);
    }
}

/// Readback of variables: a fresh variable tagged with binding level `l`
/// reads back under `level` binders as the De Bruijn index `level - 1 -
/// l` that rebinds it, while an unbound variable's raw index — at or
/// above the ambient level — reads back unchanged.
pub proof fn lemma_variable_readback(level: int, idx: DeBruijnIndex, fuel: nat)
    ensures
        spec_quote_neutral(level, Neutral::Var(idx), fuel) == Ok::<Term, TypeError>(
            Term::Var(
                DeBruijnIndex(
                    if idx.0 < level {
                        (level - 1 - idx.0) as usize
                    } else {
                        idx.0
                    },
                ),
            ),
        ),
{
}

/// Beta law at a normal form: the two-binder identity `λA. λx. x`, with
/// the base-universe domain annotations that normal forms carry,
/// normalizes in the empty environment to exactly itself — so it is a
/// fixed point of normalization.
pub proof fn lemma_normalize_identity_fixed_point(fuel: nat)
    requires
        fuel >= 2,
    ensures
        ({
            let empty = Environment { values: ValueList::Nil };
            let id2 = Term::Lambda(
                Box::new(Term::Universe(Level::Zero)),
                Box::new(
                    Term::Lambda(
                        Box::new(Term::Universe(Level::Zero)),
                        Box::new(Term::Var(DeBruijnIndex(0))),
                    ),
                ),
            );
            spec_normalize(empty, id2, fuel) == Ok::<Term, TypeError>(id2)
        }),
{
    let empty = Environment { values: ValueList::Nil };
    let inner = Term::Lambda(
        Box::new(Term::Universe(Level::Zero)),
        Box::new(Term::Var(DeBruijnIndex(0))),
    );
    let id2 = Term::Lambda(Box::new(Term::Universe(Level::Zero)), Box::new(inner));
    let f1 = (fuel - 1) as nat;
    let f2 = (f1 - 1) as nat;
    let c0 = Closure { env: empty, body: Box::new(inner) };
    assert(spec_eval(empty, id2, fuel) == Ok::<Value, TypeError>(Value::Lambda(c0)));
    let var0 = Value::Neutral(Neutral::Var(DeBruijnIndex(0)));
    let env1 = spec_env_extend(empty, var0);
    let c1 = Closure { env: env1, body: Box::new(Term::Var(DeBruijnIndex(0))) };
    assert(spec_apply_closure(c0, var0, fuel) == Ok::<Value, TypeError>(Value::Lambda(c1)));
    let var1 = Value::Neutral(Neutral::Var(DeBruijnIndex(1)));
    let env2 = spec_env_extend(env1, var1);
    assert(spec_eval(env2, Term::Var(DeBruijnIndex(0)), f2) == Ok::<Value, TypeError>(var1));
    assert(spec_apply_closure(c1, var1, f1) == Ok::<Value, TypeError>(var1));
    lemma_variable_readback(2, DeBruijnIndex(1), f2);
    assert(spec_quote(2, var1, f2) == Ok::<Term, TypeError>(Term::Var(DeBruijnIndex(0))));
    assert(spec_quote(1, Value::Lambda(c1), f1) == Ok::<Term, TypeError>(inner));
    assert(spec_quote(0, Value::Lambda(c0), fuel) == Ok::<Term, TypeError>(id2));
    assert(list_len(empty.values) == 0);
}

/// The beta law end to end on a closed normal witness: the identity
/// abstraction applied to `λA. λx. x` normalizes to that very term,
/// byte for byte, whatever the abstraction's domain annotation.
pub proof fn lemma_beta_law_on_identity(dom: Term, fuel: nat)
    requires
        fuel >= 2,
    ensures
        ({
            let empty = Environment { values: ValueList::Nil };
            let id2 = Term::Lambda(
                Box::new(Term::Universe(Level::Zero)),
                Box::new(
                    Term::Lambda(
                        Box::new(Term::Universe(Level::Zero)),
                        Box::new(Term::Var(DeBruijnIndex(0))),
                    ),
                ),
            );
            spec_normalize(
                empty,
                Term::App(
                    Box::new(
                        Term::Lambda(Box::new(dom), Box::new(Term::Var(DeBruijnIndex(0)))),
                    ),
                    Box::new(id2),
                ),
                fuel,
            ) == Ok::<Term, TypeError>(id2)
        }),
{
    let empty = Environment { values: ValueList::Nil };
    let inner = Term::Lambda(
        Box::new(Term::Universe(Level::Zero)),
        Box::new(Term::Var(DeBruijnIndex(0))),
    );
    let id2 = Term::Lambda(Box::new(Term::Universe(Level::Zero)), Box::new(inner));
    lemma_normalize_identity_fixed_point(fuel);
    let c0 = Closure { env: empty, body: Box::new(inner) };
    assert(spec_eval(empty, id2, fuel) == Ok::<Value, TypeError>(Value::Lambda(c0)));
    lemma_beta_normalize(empty, dom, id2, fuel);
}

} // verus!
