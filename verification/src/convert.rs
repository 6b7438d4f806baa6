//! The conversion checker: depth-bounded structural equality of semantic
//! values, the equality oracle of the bidirectional rules. Closures are
//! never compared by representation: both sides are opened and the
//! results are compared. The verdict is three-valued — equal, unequal, or
//! undecided when the depth budget runs out — and an undecided verdict
//! must never be read as inequality. Evaluation trouble inside a closure
//! being compared is reported as the undecided verdict too, so the only
//! error conversion ever returns is `UnificationFailure`, and the verdict
//! is symmetric in its two sides (`lemma_values_equal_symmetric`).

use vstd::prelude::*;
use crate::syntax::DeBruijnIndex;
use crate::interval::{point_equiv, points_equivalent};
use crate::semantics::{spec_ctx_len, Context, Neutral, TypeError, Value};
use crate::eval::{spec_apply_closure, spec_eval};
use crate::checker::TypeChecker;

verus! {

/// Structural equality of two values at a binding level, with a depth
/// budget.
///
/// - Universes compare by level.
/// - Lambdas, and the codomains of dependent products, compare by
///   instantiation at one shared fresh variable.
/// - Path types compare componentwise: space, start, end.
/// - Path binders compare by their bodies, each evaluated in its captured
///   environment (as the quoter reads them back).
/// - Interval values compare up to the De Morgan laws.
/// - Neutrals compare spine by spine; every cross-variant pairing is
///   unequal.
///
/// A side that fails to evaluate while being opened leaves the question
/// undecided: the comparison reports `UnificationFailure` rather than
/// leak an evaluation error of one side or the other.
pub open spec fn spec_values_equal(level: int, v1: Value, v2: Value, fuel: nat) -> Result<
    bool,
    TypeError,
>
    decreases fuel, 1int,
{
    if fuel == 0 {
        Err(TypeError::UnificationFailure)
    } else {
        let rest = (fuel - 1) as nat;
        match (v1, v2) {
            (Value::Universe(l1), Value::Universe(l2)) => Ok(l1 == l2),
            (Value::Lambda(c1), Value::Lambda(c2)) => {
                let var = Value::Neutral(Neutral::Var(DeBruijnIndex(level as usize)));
                match (spec_apply_closure(c1, var, fuel), spec_apply_closure(c2, var, fuel)) {
                    (Ok(b1), Ok(b2)) => spec_values_equal(level + 1, b1, b2, rest),
                    _ => Err(TypeError::UnificationFailure),
                }
            },
            (Value::Pi(a1, c1), Value::Pi(a2, c2)) => match spec_values_equal(
                level,
                *a1,
                *a2,
                rest,
            ) {
                Ok(true) => {
                    let var = Value::Neutral(Neutral::Var(DeBruijnIndex(level as usize)));
                    match (spec_apply_closure(c1, var, fuel), spec_apply_closure(c2, var, fuel)) {
                        (Ok(b1), Ok(b2)) => spec_values_equal(level + 1, b1, b2, rest),
                        _ => Err(TypeError::UnificationFailure),
                    }
                },
                Ok(false) => Ok(false),
                Err(e) => Err(e),
            },
            (Value::PathType(a1, s1, e1), Value::PathType(a2, s2, e2)) => match spec_values_equal(
                level,
                *a1,
                *a2,
                rest,
            ) {
                Ok(true) => match spec_values_equal(level, *s1, *s2, rest) {
                    Ok(true) => spec_values_equal(level, *e1, *e2, rest),
                    Ok(false) => Ok(false),
                    Err(e) => Err(e),
                },
                Ok(false) => Ok(false),
                Err(e) => Err(e),
            },
            (Value::PathLambda(c1), Value::PathLambda(c2)) => match (
                spec_eval(c1.env, *c1.body, fuel),
                spec_eval(c2.env, *c2.body, fuel),
            ) {
                (Ok(b1), Ok(b2)) => spec_values_equal(level, b1, b2, rest),
                _ => Err(TypeError::UnificationFailure),
            },
            (Value::Interval(p), Value::Interval(q)) => Ok(point_equiv(p, q)),
            (Value::Neutral(n1), Value::Neutral(n2)) => spec_neutrals_equal(level, n1, n2, rest),
            _ => Ok(false),
        }
    }
}

/// Structural equality of two neutral spines: variables compare by index,
/// applications compare head and argument, path applications compare head
/// and interval point up to the De Morgan laws, and stuck transports
/// compare componentwise — type, subject spine, and both points up to the
/// De Morgan laws.
pub open spec fn spec_neutrals_equal(level: int, n1: Neutral, n2: Neutral, fuel: nat) -> Result<
    bool,
    TypeError,
>
    decreases fuel, 0int,
{
    if fuel == 0 {
        Err(TypeError::UnificationFailure)
    } else {
        let rest = (fuel - 1) as nat;
        match (n1, n2) {
            (Neutral::Var(i1), Neutral::Var(i2)) => Ok(i1 == i2),
            (Neutral::App(f1, a1), Neutral::App(f2, a2)) => match spec_neutrals_equal(
                level,
                *f1,
                *f2,
                rest,
            ) {
                Ok(true) => spec_values_equal(level, *a1, *a2, rest),
                Ok(false) => Ok(false),
                Err(e) => Err(e),
            },
            (Neutral::PathApp(p1, i1), Neutral::PathApp(p2, i2)) => match spec_neutrals_equal(
                level,
                *p1,
                *p2,
                rest,
            ) {
                Ok(b) => Ok(b && point_equiv(i1, i2)),
                Err(e) => Err(e),
            },
            (
                Neutral::Transport(a1, i1, j1, t1),
                Neutral::Transport(a2, i2, j2, t2),
            ) => match spec_values_equal(level, *a1, *a2, rest) {
                Ok(true) => match spec_neutrals_equal(level, *t1, *t2, rest) {
                    Ok(b) => Ok(b && point_equiv(i1, i2) && point_equiv(j1, j2)),
                    Err(e) => Err(e),
                },
                Ok(false) => Ok(false),
                Err(e) => Err(e),
            },
            _ => Ok(false),
        }
    }
}

/// The conversion judgment as the checker consumes it: equal values pass,
/// unequal values are a type mismatch carrying both sides, and an
/// exhausted budget propagates as undecided.
pub open spec fn spec_check_equal(ctx: Context, v1: Value, v2: Value, fuel: nat) -> Result<
    (),
    TypeError,
> {
    match spec_values_equal(spec_ctx_len(ctx) as int, v1, v2, fuel) {
        Ok(true) => Ok(()),
        Ok(false) => Err(TypeError::TypeMismatch { expected: v2, found: v1 }),
        Err(e) => Err(e),
    }
}

impl TypeChecker {
    /// Decides structural equality of two values at a binding level.
    pub(crate) fn values_equal(&self, level: usize, v1: &Value, v2: &Value, fuel: usize) -> (r:
        Result<bool, TypeError>)
        requires
            level + fuel <= usize::MAX,
        ensures
            r == spec_values_equal(level as int, *v1, *v2, fuel as nat),
        decreases fuel, 1int,
    {
        if fuel == 0 {
            Err(TypeError::UnificationFailure)
        } else {
            match (v1, v2) {
                (Value::Universe(l1), Value::Universe(l2)) => Ok(*l1 == *l2),
                (Value::Lambda(c1), Value::Lambda(c2)) => {
                    let var = Value::Neutral(Neutral::Var(DeBruijnIndex(level)));
                    match (
                        self.apply_closure(c1.clone(), var.clone(), fuel),
                        self.apply_closure(c2.clone(), var, fuel),
                    ) {
                        (Ok(b1), Ok(b2)) => self.values_equal(level + 1, &b1, &b2, fuel - 1),
                        _ => Err(TypeError::UnificationFailure),
                    }
                },
                (Value::Pi(a1, c1), Value::Pi(a2, c2)) => match self.values_equal(
                    level,
                    a1,
                    a2,
                    fuel - 1,
                ) {
                    Ok(true) => {
                        let var = Value::Neutral(Neutral::Var(DeBruijnIndex(level)));
                        match (
                            self.apply_closure(c1.clone(), var.clone(), fuel),
                            self.apply_closure(c2.clone(), var, fuel),
                        ) {
                            (Ok(b1), Ok(b2)) => self.values_equal(level + 1, &b1, &b2, fuel - 1),
                            _ => Err(TypeError::UnificationFailure),
                        }
                    },
                    Ok(false) => Ok(false),
                    Err(e) => Err(e),
                },
                (Value::PathType(a1, s1, e1), Value::PathType(a2, s2, e2)) => match self
                    .values_equal(level, a1, a2, fuel - 1) {
                    Ok(true) => match self.values_equal(level, s1, s2, fuel - 1) {
                        Ok(true) => self.values_equal(level, e1, e2, fuel - 1),
                        Ok(false) => Ok(false),
                        Err(e) => Err(e),
                    },
                    Ok(false) => Ok(false),
                    Err(e) => Err(e),
                },
                (Value::PathLambda(c1), Value::PathLambda(c2)) => match (
                    self.eval_fuel(&c1.env, &c1.body, fuel),
                    self.eval_fuel(&c2.env, &c2.body, fuel),
                ) {
                    (Ok(b1), Ok(b2)) => self.values_equal(level, &b1, &b2, fuel - 1),
                    _ => Err(TypeError::UnificationFailure),
                },
                (Value::Interval(p), Value::Interval(q)) => Ok(points_equivalent(p, q)),
                (Value::Neutral(n1), Value::Neutral(n2)) => self.neutrals_equal(
                    level,
                    n1,
                    n2,
                    fuel - 1,
                ),
                _ => Ok(false),
            }
        }
    }

    /// Decides structural equality of two neutral spines.
    pub(crate) fn neutrals_equal(&self, level: usize, n1: &Neutral, n2: &Neutral, fuel: usize) -> (
        r: Result<bool, TypeError>)
        requires
            level + fuel <= usize::MAX,
        ensures
            r == spec_neutrals_equal(level as int, *n1, *n2, fuel as nat),
        decreases fuel, 0int,
    {
        if fuel == 0 {
            Err(TypeError::UnificationFailure)
        } else {
            match (n1, n2) {
                (Neutral::Var(i1), Neutral::Var(i2)) => Ok(*i1 == *i2),
                (Neutral::App(f1, a1), Neutral::App(f2, a2)) => match self.neutrals_equal(
                    level,
                    f1,
                    f2,
                    fuel - 1,
                ) {
                    Ok(true) => self.values_equal(level, a1, a2, fuel - 1),
                    Ok(false) => Ok(false),
                    Err(e) => Err(e),
                },
                (Neutral::PathApp(p1, i1), Neutral::PathApp(p2, i2)) => match self.neutrals_equal(
                    level,
                    p1,
                    p2,
                    fuel - 1,
                ) {
                    Ok(b) => if b {
                        Ok(points_equivalent(i1, i2))
                    } else {
                        Ok(false)
                    },
                    Err(e) => Err(e),
                },
                (
                    Neutral::Transport(a1, i1, j1, t1),
                    Neutral::Transport(a2, i2, j2, t2),
                ) => match self.values_equal(level, a1, a2, fuel - 1) {
                    Ok(true) => match self.neutrals_equal(level, t1, t2, fuel - 1) {
                        Ok(b) => if b && points_equivalent(i1, i2) {
                            Ok(points_equivalent(j1, j2))
                        } else {
                            Ok(false)
                        },
                        Err(e) => Err(e),
                    },
                    Ok(false) => Ok(false),
                    Err(e) => Err(e),
                },
                _ => Ok(false),
            }
        }
    }

    /// Requires two values to be convertible in the given context,
    /// reporting inequality as a mismatch that carries both sides.
    pub(crate) fn check_equal(&self, ctx: &Context, v1: &Value, v2: &Value) -> (r: Result<
        (),
        TypeError,
    >)
        requires
            spec_ctx_len(*ctx) + self.max_depth <= usize::MAX,
        ensures
            r == spec_check_equal(*ctx, *v1, *v2, self.max_depth as nat),
    {
        let level = ctx.types.len();
        match self.values_equal(level, v1, v2, self.max_depth) {
            Ok(true) => Ok(()),
            Ok(false) => Err(
                TypeError::TypeMismatch { expected: v2.clone(), found: v1.clone() },
            ),
            Err(e) => Err(e),
        }
    }
}

/// Non-termination guard: with the depth budget exhausted, conversion
/// checking returns the undecided verdict — it neither answers nor
/// diverges, and callers must not read the verdict as inequality.
pub proof fn lemma_conversion_depth_guard(level: int, v1: Value, v2: Value)
    ensures
        spec_values_equal(level, v1, v2, 0) == Err::<bool, TypeError>(
            TypeError::UnificationFailure,
        ),
{
}

/// The verdict set of conversion: equal, unequal, or undecided. The one
/// error conversion ever returns is `UnificationFailure`; evaluation
/// trouble inside a compared closure is folded into the undecided
/// verdict, never leaked.
pub proof fn lemma_values_equal_verdicts(level: int, v1: Value, v2: Value, fuel: nat)
    ensures
        spec_values_equal(level, v1, v2, fuel) is Ok || spec_values_equal(level, v1, v2, fuel)
            == Err::<bool, TypeError>(TypeError::UnificationFailure),
    decreases fuel,
{
    if fuel > 0 {
        let rest = (fuel - 1) as nat;
        let var = Value::Neutral(Neutral::Var(DeBruijnIndex(level as usize)));
        match (v1, v2) {
            (Value::Lambda(c1), Value::Lambda(c2)) => {
                if let (Ok(b1), Ok(b2)) = (
                    spec_apply_closure(c1, var, fuel),
                    spec_apply_closure(c2, var, fuel),
                ) {
                    lemma_values_equal_verdicts(level + 1, b1, b2, rest);
                }
            },
            (Value::Pi(a1, c1), Value::Pi(a2, c2)) => {
                lemma_values_equal_verdicts(level, *a1, *a2, rest);
                if let (Ok(b1), Ok(b2)) = (
                    spec_apply_closure(c1, var, fuel),
                    spec_apply_closure(c2, var, fuel),
                ) {
                    lemma_values_equal_verdicts(level + 1, b1, b2, rest);
                }
            },
            (Value::PathType(a1, s1, e1), Value::PathType(a2, s2, e2)) => {
                lemma_values_equal_verdicts(level, *a1, *a2, rest);
                lemma_values_equal_verdicts(level, *s1, *s2, rest);
                lemma_values_equal_verdicts(level, *e1, *e2, rest);
            },
            (Value::PathLambda(c1), Value::PathLambda(c2)) => {
                if let (Ok(b1), Ok(b2)) = (
                    spec_eval(c1.env, *c1.body, fuel),
                    spec_eval(c2.env, *c2.body, fuel),
                ) {
                    lemma_values_equal_verdicts(level, b1, b2, rest);
                }
            },
            (Value::Neutral(n1), Value::Neutral(n2)) => {
                lemma_neutrals_equal_verdicts(level, n1, n2, rest);
            },
            _ => {
            },
        }
    }
}

/// The verdict set of spine comparison, part of
/// `lemma_values_equal_verdicts`.
pub proof fn lemma_neutrals_equal_verdicts(level: int, n1: Neutral, n2: Neutral, fuel: nat)
    ensures
        spec_neutrals_equal(level, n1, n2, fuel) is Ok || spec_neutrals_equal(level, n1, n2, fuel)
            == Err::<bool, TypeError>(TypeError::UnificationFailure),
    decreases fuel,
{
    if fuel > 0 {
        let rest = (fuel - 1) as nat;
        match (n1, n2) {
            (Neutral::App(f1, a1), Neutral::App(f2, a2)) => {
                lemma_neutrals_equal_verdicts(level, *f1, *f2, rest);
                lemma_values_equal_verdicts(level, *a1, *a2, rest);
            },
            (Neutral::PathApp(p1, _), Neutral::PathApp(p2, _)) => {
                lemma_neutrals_equal_verdicts(level, *p1, *p2, rest);
            },
            (Neutral::Transport(a1, _, _, t1), Neutral::Transport(a2, _, _, t2)) => {
                lemma_values_equal_verdicts(level, *a1, *a2, rest);
                lemma_neutrals_equal_verdicts(level, *t1, *t2, rest);
            },
            _ => {
            },
        }
    }
}

/// Symmetry of conversion: swapping the two sides never changes the
/// verdict — equal stays equal, unequal stays unequal, and undecided
/// stays undecided.
pub proof fn lemma_values_equal_symmetric(level: int, v1: Value, v2: Value, fuel: nat)
    ensures
        spec_values_equal(level, v1, v2, fuel) == spec_values_equal(level, v2, v1, fuel),
    decreases fuel,
{
    if fuel > 0 {
        let rest = (fuel - 1) as nat;
        let var = Value::Neutral(Neutral::Var(DeBruijnIndex(level as usize)));
        match (v1, v2) {
            (Value::Lambda(c1), Value::Lambda(c2)) => {
                if let (Ok(b1), Ok(b2)) = (
                    spec_apply_closure(c1, var, fuel),
                    spec_apply_closure(c2, var, fuel),
                ) {
                    lemma_values_equal_symmetric(level + 1, b1, b2, rest);
                }
            },
            (Value::Pi(a1, c1), Value::Pi(a2, c2)) => {
                lemma_values_equal_symmetric(level, *a1, *a2, rest);
                if let (Ok(b1), Ok(b2)) = (
                    spec_apply_closure(c1, var, fuel),
                    spec_apply_closure(c2, var, fuel),
                ) {
                    lemma_values_equal_symmetric(level + 1, b1, b2, rest);
                }
            },
            (Value::PathType(a1, s1, e1), Value::PathType(a2, s2, e2)) => {
                lemma_values_equal_symmetric(level, *a1, *a2, rest);
                lemma_values_equal_symmetric(level, *s1, *s2, rest);
                lemma_values_equal_symmetric(level, *e1, *e2, rest);
            },
            (Value::PathLambda(c1), Value::PathLambda(c2)) => {
                if let (Ok(b1), Ok(b2)) = (
                    spec_eval(c1.env, *c1.body, fuel),
                    spec_eval(c2.env, *c2.body, fuel),
                ) {
                    lemma_values_equal_symmetric(level, b1, b2, rest);
                }
            },
            (Value::Neutral(n1), Value::Neutral(n2)) => {
                lemma_neutrals_equal_symmetric(level, n1, n2, rest);
            },
            _ => {
            },
        }
    }
}

/// Symmetry of spine comparison, part of
/// `lemma_values_equal_symmetric`.
pub proof fn lemma_neutrals_equal_symmetric(level: int, n1: Neutral, n2: Neutral, fuel: nat)
    ensures
        spec_neutrals_equal(level, n1, n2, fuel) == spec_neutrals_equal(level, n2, n1, fuel),
    decreases fuel,
{
    if fuel > 0 {
        let rest = (fuel - 1) as nat;
        match (n1, n2) {
            (Neutral::App(f1, a1), Neutral::App(f2, a2)) => {
                lemma_neutrals_equal_symmetric(level, *f1, *f2, rest);
                lemma_values_equal_symmetric(level, *a1, *a2, rest);
            },
            (Neutral::PathApp(p1, _), Neutral::PathApp(p2, _)) => {
                lemma_neutrals_equal_symmetric(level, *p1, *p2, rest);
            },
            (Neutral::Transport(a1, _, _, t1), Neutral::Transport(a2, _, _, t2)) => {
                lemma_values_equal_symmetric(level, *a1, *a2, rest);
                lemma_neutrals_equal_symmetric(level, *t1, *t2, rest);
            },
            _ => {
            },
        }
    }
}

/// Transitivity of conversion where it answers in the affirmative:
/// values convertible to a shared middle value are convertible to each
/// other, at the same level and depth budget.
pub proof fn lemma_values_equal_transitive(level: int, v1: Value, v2: Value, v3: Value, fuel: nat)
    requires
        spec_values_equal(level, v1, v2, fuel) == Ok::<bool, TypeError>(true),
        spec_values_equal(level, v2, v3, fuel) == Ok::<bool, TypeError>(true),
    ensures
        spec_values_equal(level, v1, v3, fuel) == Ok::<bool, TypeError>(true),
    decreases fuel,
{
    let rest = (fuel - 1) as nat;
    let var = Value::Neutral(Neutral::Var(DeBruijnIndex(level as usize)));
    match (v1, v2, v3) {
        (Value::Lambda(c1), Value::Lambda(c2), Value::Lambda(c3)) => {
            if let (Ok(b1), Ok(b2), Ok(b3)) = (
                spec_apply_closure(c1, var, fuel),
                spec_apply_closure(c2, var, fuel),
                spec_apply_closure(c3, var, fuel),
            ) {
                lemma_values_equal_transitive(level + 1, b1, b2, b3, rest);
            }
        },
        (Value::Pi(a1, c1), Value::Pi(a2, c2), Value::Pi(a3, c3)) => {
            lemma_values_equal_transitive(level, *a1, *a2, *a3, rest);
            if let (Ok(b1), Ok(b2), Ok(b3)) = (
                spec_apply_closure(c1, var, fuel),
                spec_apply_closure(c2, var, fuel),
                spec_apply_closure(c3, var, fuel),
            ) {
                lemma_values_equal_transitive(level + 1, b1, b2, b3, rest);
            }
        },
        (Value::PathType(a1, s1, e1), Value::PathType(a2, s2, e2), Value::PathType(a3, s3, e3)) => {
            lemma_values_equal_transitive(level, *a1, *a2, *a3, rest);
            lemma_values_equal_transitive(level, *s1, *s2, *s3, rest);
            lemma_values_equal_transitive(level, *e1, *e2, *e3, rest);
        },
        (Value::PathLambda(c1), Value::PathLambda(c2), Value::PathLambda(c3)) => {
            if let (Ok(b1), Ok(b2), Ok(b3)) = (
                spec_eval(c1.env, *c1.body, fuel),
                spec_eval(c2.env, *c2.body, fuel),
                spec_eval(c3.env, *c3.body, fuel),
            ) {
                lemma_values_equal_transitive(level, b1, b2, b3, rest);
            }
        },
        (Value::Neutral(n1), Value::Neutral(n2), Value::Neutral(n3)) => {
            lemma_neutrals_equal_transitive(level, n1, n2, n3, rest);
        },
        _ => {
        },
    }
}

/// Transitivity of the decided-equal verdict on spines, part of
/// `lemma_values_equal_transitive`.
pub proof fn lemma_neutrals_equal_transitive(
    level: int,
    n1: Neutral,
    n2: Neutral,
    n3: Neutral,
    fuel: nat,
)
    requires
        spec_neutrals_equal(level, n1, n2, fuel) == Ok::<bool, TypeError>(true),
        spec_neutrals_equal(level, n2, n3, fuel) == Ok::<bool, TypeError>(true),
    ensures
        spec_neutrals_equal(level, n1, n3, fuel) == Ok::<bool, TypeError>(true),
    decreases fuel,
{
    let rest = (fuel - 1) as nat;
    match (n1, n2, n3) {
        (Neutral::App(f1, a1), Neutral::App(f2, a2), Neutral::App(f3, a3)) => {
            lemma_neutrals_equal_transitive(level, *f1, *f2, *f3, rest);
            lemma_values_equal_transitive(level, *a1, *a2, *a3, rest);
        },
        (Neutral::PathApp(p1, _), Neutral::PathApp(p2, _), Neutral::PathApp(p3, _)) => {
            lemma_neutrals_equal_transitive(level, *p1, *p2, *p3, rest);
        },
        (
            Neutral::Transport(a1, _, _, t1),
            Neutral::Transport(a2, _, _, t2),
            Neutral::Transport(a3, _, _, t3),
        ) => {
            lemma_values_equal_transitive(level, *a1, *a2, *a3, rest);
            lemma_neutrals_equal_transitive(level, *t1, *t2, *t3, rest);
        },
        _ => {
        },
    }
}

/// Interval values compare exactly up to the De Morgan laws: two points
/// equal in the algebra are convertible as values wherever any depth
/// budget is left, and two points the algebra distinguishes are not.
pub proof fn lemma_interval_values_compare_by_the_algebra(
    level: int,
    p: crate::syntax::IntervalPoint,
    q: crate::syntax::IntervalPoint,
    fuel: nat,
)
    requires
        fuel >= 1,
    ensures
        spec_values_equal(level, Value::Interval(p), Value::Interval(q), fuel) == Ok::<
            bool,
            TypeError,
        >(point_equiv(p, q)),
{
}

} // verus!
