//! The De Morgan interval algebra: normalization of interval points, the
//! equivalence the conversion checker compares points by, and structural
//! substitution of a point for the interval variable throughout a term.

use vstd::prelude::*;
use crate::syntax::{DeBruijnIndex, HcompSides, IntervalPoint, Term};

verus! {

/// Meet of two normal points, simplified by the lattice unit laws:
/// `0` absorbs, `1` is neutral, anything else stays a formal meet.
pub open spec fn spec_meet_norm(a: IntervalPoint, b: IntervalPoint) -> IntervalPoint {
    match (a, b) {
        (IntervalPoint::Zero, _) => IntervalPoint::Zero,
        (_, IntervalPoint::Zero) => IntervalPoint::Zero,
        (IntervalPoint::One, q) => q,
        (p, IntervalPoint::One) => p,
        (p, q) => IntervalPoint::Meet(Box::new(p), Box::new(q)),
    }
}

/// Join of two normal points, simplified by the lattice unit laws:
/// `1` absorbs, `0` is neutral, anything else stays a formal join.
pub open spec fn spec_join_norm(a: IntervalPoint, b: IntervalPoint) -> IntervalPoint {
    match (a, b) {
        (IntervalPoint::One, _) => IntervalPoint::One,
        (_, IntervalPoint::One) => IntervalPoint::One,
        (IntervalPoint::Zero, q) => q,
        (p, IntervalPoint::Zero) => p,
        (p, q) => IntervalPoint::Join(Box::new(p), Box::new(q)),
    }
}

/// Negation of a normal point, pushed inward by the De Morgan laws:
/// endpoints flip, a double negation cancels, and negation distributes
/// over meet and join into the dual operation.
pub open spec fn spec_neg_norm(q: IntervalPoint) -> IntervalPoint
    decreases q,
{
    match q {
        IntervalPoint::Zero => IntervalPoint::One,
        IntervalPoint::One => IntervalPoint::Zero,
        IntervalPoint::Var(v) => IntervalPoint::Neg(Box::new(IntervalPoint::Var(v))),
        IntervalPoint::Neg(r) => *r,
        IntervalPoint::Meet(a, b) => spec_join_norm(spec_neg_norm(*a), spec_neg_norm(*b)),
        IntervalPoint::Join(a, b) => spec_meet_norm(spec_neg_norm(*a), spec_neg_norm(*b)),
    }
}

/// The normal form a point is compared by: negation in front of variables
/// only, no meet or join with an endpoint, no double negation.
pub open spec fn spec_normal(p: IntervalPoint) -> IntervalPoint
    decreases p,
{
    match p {
        IntervalPoint::Zero => IntervalPoint::Zero,
        IntervalPoint::One => IntervalPoint::One,
        IntervalPoint::Var(v) => IntervalPoint::Var(v),
        IntervalPoint::Meet(a, b) => spec_meet_norm(spec_normal(*a), spec_normal(*b)),
        IntervalPoint::Join(a, b) => spec_join_norm(spec_normal(*a), spec_normal(*b)),
        IntervalPoint::Neg(a) => spec_neg_norm(spec_normal(*a)),
    }
}

/// Two points are equivalent when their normal forms coincide. This is the
/// equality the conversion checker applies to interval points, so the laws
/// proved below hold everywhere a boundary or equality check compares
/// points.
pub open spec fn point_equiv(p: IntervalPoint, q: IntervalPoint) -> bool {
    spec_normal(p) == spec_normal(q)
}

/// Structural equality of interval points.
pub fn point_eq(a: &IntervalPoint, b: &IntervalPoint) -> (r: bool)
    ensures
        r == (a == b),
    decreases *a,
{
    match (a, b) {
        (IntervalPoint::Zero, IntervalPoint::Zero) => true,
        (IntervalPoint::One, IntervalPoint::One) => true,
        (IntervalPoint::Var(v), IntervalPoint::Var(w)) => v.0 == w.0,
        (IntervalPoint::Meet(a1, b1), IntervalPoint::Meet(a2, b2)) => point_eq(a1, a2) && point_eq(
            b1,
            b2,
        ),
        (IntervalPoint::Join(a1, b1), IntervalPoint::Join(a2, b2)) => point_eq(a1, a2) && point_eq(
            b1,
            b2,
        ),
        (IntervalPoint::Neg(a1), IntervalPoint::Neg(a2)) => point_eq(a1, a2),
        _ => false,
    }
}

/// Meet of two normal points.
pub fn meet_norm(a: IntervalPoint, b: IntervalPoint) -> (r: IntervalPoint)
    ensures
        r == spec_meet_norm(a, b),
{
    match (a, b) {
        (IntervalPoint::Zero, _) => IntervalPoint::Zero,
        (_, IntervalPoint::Zero) => IntervalPoint::Zero,
        (IntervalPoint::One, q) => q,
        (p, IntervalPoint::One) => p,
        (p, q) => IntervalPoint::Meet(Box::new(p), Box::new(q)),
    }
}

/// Join of two normal points.
pub fn join_norm(a: IntervalPoint, b: IntervalPoint) -> (r: IntervalPoint)
    ensures
        r == spec_join_norm(a, b),
{
    match (a, b) {
        (IntervalPoint::One, _) => IntervalPoint::One,
        (_, IntervalPoint::One) => IntervalPoint::One,
        (IntervalPoint::Zero, q) => q,
        (p, IntervalPoint::Zero) => p,
        (p, q) => IntervalPoint::Join(Box::new(p), Box::new(q)),
    }
}

/// Negation of a normal point, by the De Morgan laws.
pub fn neg_norm(q: IntervalPoint) -> (r: IntervalPoint)
    ensures
        r == spec_neg_norm(q),
    decreases q,
{
    match q {
        IntervalPoint::Zero => IntervalPoint::One,
        IntervalPoint::One => IntervalPoint::Zero,
        IntervalPoint::Var(v) => IntervalPoint::Neg(Box::new(IntervalPoint::Var(v))),
        IntervalPoint::Neg(r) => *r,
        IntervalPoint::Meet(a, b) => join_norm(neg_norm(*a), neg_norm(*b)),
        IntervalPoint::Join(a, b) => meet_norm(neg_norm(*a), neg_norm(*b)),
    }
}

/// The normal form of a point.
pub fn normal(p: IntervalPoint) -> (r: IntervalPoint)
    ensures
        r == spec_normal(p),
    decreases p,
{
    match p {
        IntervalPoint::Zero => IntervalPoint::Zero,
        IntervalPoint::One => IntervalPoint::One,
        IntervalPoint::Var(v) => IntervalPoint::Var(v),
        IntervalPoint::Meet(a, b) => meet_norm(normal(*a), normal(*b)),
        IntervalPoint::Join(a, b) => join_norm(normal(*a), normal(*b)),
        IntervalPoint::Neg(a) => neg_norm(normal(*a)),
    }
}

/// Decides the equivalence `point_equiv` by comparing normal forms.
pub fn points_equivalent(p: &IntervalPoint, q: &IntervalPoint) -> (r: bool)
    ensures
        r == point_equiv(*p, *q),
{
    let pn = normal(p.clone());
    let qn = normal(q.clone());
    point_eq(&pn, &qn)
}

/// A point that is an endpoint or a bare variable: the fragment the
/// De Morgan interchange laws below are stated over.
pub open spec fn is_basic_point(p: IntervalPoint) -> bool {
    p is Zero || p is One || p is Var
}

/// De Morgan law: over endpoints and variables, `¬(i ∧ j)` and
/// `(¬i) ∨ (¬j)` are interchangeable under every equality check.
pub proof fn lemma_de_morgan_neg_meet(i: IntervalPoint, j: IntervalPoint)
    requires
        is_basic_point(i),
        is_basic_point(j),
    ensures
        point_equiv(
            IntervalPoint::Neg(Box::new(IntervalPoint::Meet(Box::new(i), Box::new(j)))),
            IntervalPoint::Join(
                Box::new(IntervalPoint::Neg(Box::new(i))),
                Box::new(IntervalPoint::Neg(Box::new(j))),
            ),
        ),
{
    reveal_with_fuel(spec_normal, 4);
    reveal_with_fuel(spec_neg_norm, 4);
}

/// De Morgan law: over endpoints and variables, `¬(i ∨ j)` and
/// `(¬i) ∧ (¬j)` are interchangeable under every equality check.
pub proof fn lemma_de_morgan_neg_join(i: IntervalPoint, j: IntervalPoint)
    requires
        is_basic_point(i),
        is_basic_point(j),
    ensures
        point_equiv(
            IntervalPoint::Neg(Box::new(IntervalPoint::Join(Box::new(i), Box::new(j)))),
            IntervalPoint::Meet(
                Box::new(IntervalPoint::Neg(Box::new(i))),
                Box::new(IntervalPoint::Neg(Box::new(j))),
            ),
        ),
{
    reveal_with_fuel(spec_normal, 4);
    reveal_with_fuel(spec_neg_norm, 4);
}


/// Double negation: over endpoints and variables, `¬¬i` and `i` are
/// interchangeable under every equality check.
pub proof fn lemma_double_negation(i: IntervalPoint)
    requires
        is_basic_point(i),
    ensures
        point_equiv(IntervalPoint::Neg(Box::new(IntervalPoint::Neg(Box::new(i)))), i),
{
    reveal_with_fuel(spec_normal, 4);
    reveal_with_fuel(spec_neg_norm, 4);
}

/// Fixed point of meet: `0 ∧ i` collapses to `0` for every point `i`.
pub proof fn lemma_meet_zero(i: IntervalPoint)
    ensures
        point_equiv(
            IntervalPoint::Meet(Box::new(IntervalPoint::Zero), Box::new(i)),
            IntervalPoint::Zero,
        ),
{
}

/// Fixed point of join: `1 ∨ i` collapses to `1` for every point `i`.
pub proof fn lemma_join_one(i: IntervalPoint)
    ensures
        point_equiv(
            IntervalPoint::Join(Box::new(IntervalPoint::One), Box::new(i)),
            IntervalPoint::One,
        ),
{
}

/// Substitution of a point for the interval variable inside a point.
pub open spec fn spec_subst_point(p: IntervalPoint, r: IntervalPoint) -> IntervalPoint
    decreases p,
{
    match p {
        IntervalPoint::Zero => IntervalPoint::Zero,
        IntervalPoint::One => IntervalPoint::One,
        IntervalPoint::Var(_) => r,
        IntervalPoint::Meet(a, b) => IntervalPoint::Meet(
            Box::new(spec_subst_point(*a, r)),
            Box::new(spec_subst_point(*b, r)),
        ),
        IntervalPoint::Join(a, b) => IntervalPoint::Join(
            Box::new(spec_subst_point(*a, r)),
            Box::new(spec_subst_point(*b, r)),
        ),
        IntervalPoint::Neg(a) => IntervalPoint::Neg(Box::new(spec_subst_point(*a, r))),
    }
}

/// Substitution respects the algebra's equivalence: replacing the
/// interval variable by either of two equivalent points yields equivalent
/// points, whatever expression surrounds the variable. Together with the
/// comparison rules of the conversion checker — which judge interval
/// values and the points of stuck spines by this very equivalence — the
/// De Morgan laws hold of a substituted endpoint wherever it later
/// surfaces in a comparison.
pub proof fn lemma_subst_point_congruence(p: IntervalPoint, i: IntervalPoint, j: IntervalPoint)
    requires
        point_equiv(i, j),
    ensures
        point_equiv(spec_subst_point(p, i), spec_subst_point(p, j)),
    decreases p,
{
    match p {
        IntervalPoint::Meet(a, b) => {
            lemma_subst_point_congruence(*a, i, j);
            lemma_subst_point_congruence(*b, i, j);
        },
        IntervalPoint::Join(a, b) => {
            lemma_subst_point_congruence(*a, i, j);
            lemma_subst_point_congruence(*b, i, j);
        },
        IntervalPoint::Neg(a) => {
            lemma_subst_point_congruence(*a, i, j);
        },
        _ => {
        },
    }
}

/// Substitution of a concrete point for the interval variable throughout a
/// term: a total structural recursion over every constructor that can
/// contain an interval-dependent subterm, including binder domains, path
/// endpoints, nested path binders, transports and compositions. The
/// algebra tracks a single interval dimension, so the recursion proceeds
/// unchanged under a nested path binder.
pub open spec fn spec_subst_interval(t: Term, r: IntervalPoint) -> Term
    decreases t,
{
    match t {
        Term::Var(i) => Term::Var(i),
        Term::Universe(l) => Term::Universe(l),
        Term::Lambda(a, b) => Term::Lambda(
            Box::new(spec_subst_interval(*a, r)),
            Box::new(spec_subst_interval(*b, r)),
        ),
        Term::App(f, a) => Term::App(
            Box::new(spec_subst_interval(*f, r)),
            Box::new(spec_subst_interval(*a, r)),
        ),
        Term::Pi(a, b) => Term::Pi(
            Box::new(spec_subst_interval(*a, r)),
            Box::new(spec_subst_interval(*b, r)),
        ),
        Term::PathType(a, s, e) => Term::PathType(
            Box::new(spec_subst_interval(*a, r)),
            Box::new(spec_subst_interval(*s, r)),
            Box::new(spec_subst_interval(*e, r)),
        ),
        Term::PathLambda(b) => Term::PathLambda(Box::new(spec_subst_interval(*b, r))),
        Term::PathApp(p, i) => Term::PathApp(
            Box::new(spec_subst_interval(*p, r)),
            spec_subst_point(i, r),
        ),
        Term::Interval(i) => Term::Interval(spec_subst_point(i, r)),
        Term::Transport(a, i, j, b) => Term::Transport(
            Box::new(spec_subst_interval(*a, r)),
            spec_subst_point(i, r),
            spec_subst_point(j, r),
            Box::new(spec_subst_interval(*b, r)),
        ),
        Term::Hcomp(a, sides, cap) => Term::Hcomp(
            Box::new(spec_subst_interval(*a, r)),
            spec_subst_sides(sides, r),
            Box::new(spec_subst_interval(*cap, r)),
        ),
    }
}

/// Substitution into the sides of a composition, part of
/// `spec_subst_interval`.
pub open spec fn spec_subst_sides(s: HcompSides, r: IntervalPoint) -> HcompSides
    decreases s,
{
    match s {
        HcompSides::Nil => HcompSides::Nil,
        HcompSides::Cons(i, j, t, rest) => HcompSides::Cons(
            spec_subst_point(i, r),
            spec_subst_point(j, r),
            Box::new(spec_subst_interval(*t, r)),
            Box::new(spec_subst_sides(*rest, r)),
        ),
    }
}

/// Substitutes `r` for the interval variable inside a point.
pub fn subst_point(p: &IntervalPoint, r: &IntervalPoint) -> (res: IntervalPoint)
    ensures
        res == spec_subst_point(*p, *r),
    decreases *p,
{
    match p {
        IntervalPoint::Zero => IntervalPoint::Zero,
        IntervalPoint::One => IntervalPoint::One,
        IntervalPoint::Var(_) => r.clone(),
        IntervalPoint::Meet(a, b) => IntervalPoint::Meet(
            Box::new(subst_point(a, r)),
            Box::new(subst_point(b, r)),
        ),
        IntervalPoint::Join(a, b) => IntervalPoint::Join(
            Box::new(subst_point(a, r)),
            Box::new(subst_point(b, r)),
        ),
        IntervalPoint::Neg(a) => IntervalPoint::Neg(Box::new(subst_point(a, r))),
    }
}

/// Substitutes `r` for the interval variable throughout a term.
pub fn substitute_interval(t: &Term, r: &IntervalPoint) -> (res: Term)
    ensures
        res == spec_subst_interval(*t, *r),
    decreases *t,
{
    match t {
        Term::Var(i) => Term::Var(*i),
        Term::Universe(l) => Term::Universe(*l),
        Term::Lambda(a, b) => Term::Lambda(
            Box::new(substitute_interval(a, r)),
            Box::new(substitute_interval(b, r)),
        ),
        Term::App(f, a) => Term::App(
            Box::new(substitute_interval(f, r)),
            Box::new(substitute_interval(a, r)),
        ),
        Term::Pi(a, b) => Term::Pi(
            Box::new(substitute_interval(a, r)),
            Box::new(substitute_interval(b, r)),
        ),
        Term::PathType(a, s, e) => Term::PathType(
            Box::new(substitute_interval(a, r)),
            Box::new(substitute_interval(s, r)),
            Box::new(substitute_interval(e, r)),
        ),
        Term::PathLambda(b) => Term::PathLambda(Box::new(substitute_interval(b, r))),
        Term::PathApp(p, i) => Term::PathApp(
            Box::new(substitute_interval(p, r)),
            subst_point(i, r),
        ),
        Term::Interval(i) => Term::Interval(subst_point(i, r)),
        Term::Transport(a, i, j, b) => Term::Transport(
            Box::new(substitute_interval(a, r)),
            subst_point(i, r),
            subst_point(j, r),
            Box::new(substitute_interval(b, r)),
        ),
        Term::Hcomp(a, sides, cap) => Term::Hcomp(
            Box::new(substitute_interval(a, r)),
            subst_sides(sides, r),
            Box::new(substitute_interval(cap, r)),
        ),
    }
}

/// Substitutes `r` for the interval variable in the sides of a
/// composition.
pub fn subst_sides(s: &HcompSides, r: &IntervalPoint) -> (res: HcompSides)
    ensures
        res == spec_subst_sides(*s, *r),
    decreases *s,
{
    match s {
        HcompSides::Nil => HcompSides::Nil,
        HcompSides::Cons(i, j, t, rest) => HcompSides::Cons(
            subst_point(i, r),
            subst_point(j, r),
            Box::new(substitute_interval(t, r)),
            Box::new(subst_sides(rest, r)),
        ),
    }
}

} // verus!
