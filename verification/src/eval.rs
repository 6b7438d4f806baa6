//! The evaluator: terms go to semantic values. Binders capture the current
//! environment as closures; applications either enter a closure or grow a
//! neutral spine. Every recursive descent through a closure consumes one
//! unit of the depth budget, so evaluation is total: it returns either a
//! value or a structured error, never diverging on pathological input.

use vstd::prelude::*;
use crate::syntax::{DeBruijnIndex, IntervalPoint, Term, term_height};
use crate::interval::{spec_subst_interval, substitute_interval};
use crate::semantics::{
    spec_env_extend, spec_env_lookup, Closure, Environment, Neutral, PathClosure, TypeError, Value,
};
use crate::checker::TypeChecker;

verus! {

/// What a term evaluates to in a given environment with a given depth
/// budget.
///
/// - A variable looks itself up, or re-enters the domain as a neutral when
///   unbound (an open term under a binder). An unbound variable keeps its
///   raw De Bruijn index as its tag, while fresh variables made by the
///   quoter and the judgments carry binding levels; the quoter's readback
///   convention tells the two apart by comparing the tag with the ambient
///   level.
/// - Binders capture the environment unevaluated.
/// - An application evaluates both sides and then applies; a path
///   application substitutes the point into the path body before
///   evaluating it.
/// - `Transport` and `Hcomp` have no evaluation rule in this core and are
///   reported as undecided.
pub open spec fn spec_eval(env: Environment, t: Term, fuel: nat) -> Result<Value, TypeError>
    decreases fuel, term_height(t), 1int,
{
    match t {
        Term::Var(idx) => Ok(
            match spec_env_lookup(env, idx.0 as nat) {
                Some(v) => v,
                None => Value::Neutral(Neutral::Var(idx)),
            },
        ),
        Term::Universe(l) => Ok(Value::Universe(l)),
        Term::Lambda(_, body) => Ok(Value::Lambda(Closure { env, body })),
        Term::Pi(a, b) => match spec_eval(env, *a, fuel) {
            Ok(av) => Ok(Value::Pi(Box::new(av), Closure { env, body: b })),
            Err(e) => Err(e),
        },
        Term::App(f, a) => match spec_eval(env, *f, fuel) {
            Ok(fv) => match spec_eval(env, *a, fuel) {
                Ok(av) => spec_apply_value(fv, av, fuel),
                Err(e) => Err(e),
            },
            Err(e) => Err(e),
        },
        Term::PathType(a, st, en) => match spec_eval(env, *a, fuel) {
            Ok(av) => match spec_eval(env, *st, fuel) {
                Ok(sv) => match spec_eval(env, *en, fuel) {
                    Ok(ev) => Ok(Value::PathType(Box::new(av), Box::new(sv), Box::new(ev))),
                    Err(e) => Err(e),
                },
                Err(e) => Err(e),
            },
            Err(e) => Err(e),
        },
        Term::PathLambda(body) => Ok(Value::PathLambda(PathClosure { env, body })),
        Term::PathApp(p, i) => match spec_eval(env, *p, fuel) {
            Ok(pv) => spec_apply_path(pv, i, fuel),
            Err(e) => Err(e),
        },
        Term::Interval(i) => Ok(Value::Interval(i)),
        Term::Transport(_, _, _, _) => Err(TypeError::UnificationFailure),
        Term::Hcomp(_, _, _) => Err(TypeError::UnificationFailure),
    }
}

/// Application of an evaluated head to an evaluated argument: a lambda
/// enters its closure, a neutral grows its spine, and anything else is not
/// a function.
pub open spec fn spec_apply_value(f: Value, arg: Value, fuel: nat) -> Result<Value, TypeError>
    decreases fuel, 0nat, 1int,
{
    match f {
        Value::Lambda(c) => spec_apply_closure(c, arg, fuel),
        Value::Neutral(n) => Ok(Value::Neutral(Neutral::App(Box::new(n), Box::new(arg)))),
        _ => Err(TypeError::NotAFunction(f)),
    }
}

/// Application of an evaluated path to an interval point: a path binder
/// substitutes the point into its body and evaluates, a neutral grows its
/// spine, and anything else is not a path.
pub open spec fn spec_apply_path(p: Value, i: IntervalPoint, fuel: nat) -> Result<
    Value,
    TypeError,
>
    decreases fuel, 0nat, 1int,
{
    match p {
        Value::PathLambda(c) => if fuel == 0 {
            Err(TypeError::UnificationFailure)
        } else {
            spec_eval(c.env, spec_subst_interval(*c.body, i), (fuel - 1) as nat)
        },
        Value::Neutral(n) => Ok(Value::Neutral(Neutral::PathApp(Box::new(n), i))),
        _ => Err(TypeError::NotAPath(p)),
    }
}

/// Entry into a closure: the closure's captured environment is extended
/// with the argument and the body is evaluated there, at one unit less of
/// the depth budget.
pub open spec fn spec_apply_closure(c: Closure, arg: Value, fuel: nat) -> Result<
    Value,
    TypeError,
>
    decreases fuel, 0nat, 0int,
{
    if fuel == 0 {
        Err(TypeError::UnificationFailure)
    } else {
        spec_eval(spec_env_extend(c.env, arg), *c.body, (fuel - 1) as nat)
    }
}

impl TypeChecker {
    /// Evaluates a term to a value, with the checker's depth budget.
    /// Referentially transparent: the result is a function of the
    /// environment and the term alone.
    pub fn eval(&self, env: &Environment, term: &Term) -> (r: Result<Value, TypeError>)
        ensures
            r == spec_eval(*env, *term, self.max_depth as nat),
    {
        self.eval_fuel(env, term, self.max_depth)
    }

    /// Evaluates with an explicit remaining depth budget.
    pub(crate) fn eval_fuel(&self, env: &Environment, term: &Term, fuel: usize) -> (r: Result<
        Value,
        TypeError,
    >)
        ensures
            r == spec_eval(*env, *term, fuel as nat),
        decreases fuel, term_height(*term), 1int,
    {
        match term {
            Term::Var(idx) => match env.lookup(*idx) {
                Some(v) => Ok(v.clone()),
                None => Ok(Value::Neutral(Neutral::Var(*idx))),
            },
            Term::Universe(l) => Ok(Value::Universe(*l)),
            Term::Lambda(_, body) => Ok(
                Value::Lambda(Closure { env: env.clone(), body: Box::new((**body).clone()) }),
            ),
            Term::Pi(a, b) => match self.eval_fuel(env, a, fuel) {
                Ok(av) => Ok(
                    Value::Pi(
                        Box::new(av),
                        Closure { env: env.clone(), body: Box::new((**b).clone()) },
                    ),
                ),
                Err(e) => Err(e),
            },
            Term::App(f, a) => match self.eval_fuel(env, f, fuel) {
                Ok(fv) => match self.eval_fuel(env, a, fuel) {
                    Ok(av) => self.apply_value(fv, av, fuel),
                    Err(e) => Err(e),
                },
                Err(e) => Err(e),
            },
            Term::PathType(a, st, en) => match self.eval_fuel(env, a, fuel) {
                Ok(av) => match self.eval_fuel(env, st, fuel) {
                    Ok(sv) => match self.eval_fuel(env, en, fuel) {
                        Ok(ev) => Ok(
                            Value::PathType(Box::new(av), Box::new(sv), Box::new(ev)),
                        ),
                        Err(e) => Err(e),
                    },
                    Err(e) => Err(e),
                },
                Err(e) => Err(e),
            },
            Term::PathLambda(body) => Ok(
                Value::PathLambda(
                    PathClosure { env: env.clone(), body: Box::new((**body).clone()) },
                ),
            ),
            Term::PathApp(p, i) => match self.eval_fuel(env, p, fuel) {
                Ok(pv) => self.apply_path(pv, i.clone(), fuel),
                Err(e) => Err(e),
            },
            Term::Interval(i) => Ok(Value::Interval(i.clone())),
            Term::Transport(_, _, _, _) => Err(TypeError::UnificationFailure),
            Term::Hcomp(_, _, _) => Err(TypeError::UnificationFailure),
        }
    }

    /// Applies an evaluated head to an evaluated argument.
    pub(crate) fn apply_value(&self, f: Value, arg: Value, fuel: usize) -> (r: Result<
        Value,
        TypeError,
    >)
        ensures
            r == spec_apply_value(f, arg, fuel as nat),
        decreases fuel, 0nat, 1int,
    {
        match f {
            Value::Lambda(c) => self.apply_closure(c, arg, fuel),
            Value::Neutral(n) => Ok(Value::Neutral(Neutral::App(Box::new(n), Box::new(arg)))),
            other => Err(TypeError::NotAFunction(other)),
        }
    }

    /// Applies an evaluated path to an interval point.
    pub(crate) fn apply_path(&self, p: Value, i: IntervalPoint, fuel: usize) -> (r: Result<
        Value,
        TypeError,
    >)
        ensures
            r == spec_apply_path(p, i, fuel as nat),
        decreases fuel, 0nat, 1int,
    {
        match p {
            Value::PathLambda(c) => {
                if fuel == 0 {
                    Err(TypeError::UnificationFailure)
                } else {
                    let body = substitute_interval(&c.body, &i);
                    self.eval_fuel(&c.env, &body, fuel - 1)
                }
            },
            Value::Neutral(n) => Ok(Value::Neutral(Neutral::PathApp(Box::new(n), i))),
            other => Err(TypeError::NotAPath(other)),
        }
    }

    /// Enters a closure with the given argument.
    pub(crate) fn apply_closure(&self, closure: Closure, arg: Value, fuel: usize) -> (r: Result<
        Value,
        TypeError,
    >)
        ensures
            r == spec_apply_closure(closure, arg, fuel as nat),
        decreases fuel, 0nat, 0int,
    {
        if fuel == 0 {
            Err(TypeError::UnificationFailure)
        } else {
            let env2 = closure.env.extend(arg);
            self.eval_fuel(&env2, &closure.body, fuel - 1)
        }
    }
}

/// Non-termination guard at the evaluator: entering any closure with an
/// exhausted depth budget reports the undecided verdict rather than
/// recursing further.
pub proof fn lemma_evaluation_depth_guard(c: Closure, arg: Value)
    ensures
        spec_apply_closure(c, arg, 0) == Err::<Value, TypeError>(TypeError::UnificationFailure),
{
}

/// Beta law: applying an identity abstraction to an argument evaluates to
/// exactly what the argument evaluates to, whenever the argument evaluates
/// at all.
pub proof fn lemma_beta_identity(env: Environment, dom: Term, t: Term, v: Value, fuel: nat)
    requires
        fuel >= 1,
        spec_eval(env, t, fuel) == Ok::<Value, TypeError>(v),
    ensures
        spec_eval(
            env,
            Term::App(
                Box::new(Term::Lambda(Box::new(dom), Box::new(Term::Var(DeBruijnIndex(0))))),
                Box::new(t),
            ),
            fuel,
        ) == Ok::<Value, TypeError>(v),
{
    reveal_with_fuel(spec_eval, 4);
}

} // verus!
