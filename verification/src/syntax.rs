//! The term language: universe levels, interval points, and the syntax of
//! the type theory, together with the size and well-formedness measures
//! that the recursive definitions over terms are justified by.

use vstd::prelude::*;

verus! {

/// A nameless variable reference, counted from the innermost enclosing
/// binder (index 0 is the most recently bound variable).
#[derive(Debug, Clone, Copy, PartialEq, Eq, Hash, Structural)]
pub struct DeBruijnIndex(pub usize);

/// Universe levels for the cumulative type hierarchy, totally ordered with
/// `Omega` on top. Nothing collapses levels automatically: a type at level
/// `n` is not usable at level `n - 1`.
#[derive(Debug, Clone, Copy, PartialEq, Eq, PartialOrd, Ord, Structural)]
pub enum Level {
    Zero,
    Succ(usize),
    Omega,
}

impl Level {
    /// The join of two levels: `Omega` absorbs, `Zero` is neutral, and two
    /// finite successors join by the larger step count.
    pub open spec fn spec_max(self, other: Level) -> Level {
        match (self, other) {
            (Level::Omega, _) => Level::Omega,
            (_, Level::Omega) => Level::Omega,
            (Level::Zero, l) => l,
            (l, Level::Zero) => l,
            (Level::Succ(i), Level::Succ(j)) => Level::Succ(if i <= j { j } else { i }),
        }
    }

    /// The next level up: `Zero` steps to `Succ(1)` and `Omega` stays put.
    pub open spec fn spec_succ(self) -> Level {
        match self {
            Level::Zero => Level::Succ(1),
            Level::Succ(n) => Level::Succ((n + 1) as usize),
            Level::Omega => Level::Omega,
        }
    }

    #[verifier::when_used_as_spec(spec_max)]
    pub fn max(self, other: Level) -> (r: Level)
        ensures
            r == self.spec_max(other),
    {
        match (self, other) {
            (Level::Omega, _) => Level::Omega,
            (_, Level::Omega) => Level::Omega,
            (Level::Zero, l) => l,
            (l, Level::Zero) => l,
            (Level::Succ(i), Level::Succ(j)) => Level::Succ(if i <= j { j } else { i }),
        }
    }

    #[verifier::when_used_as_spec(spec_succ)]
    pub fn succ(self) -> (r: Level)
        requires
            self matches Level::Succ(n) ==> n < usize::MAX,
        ensures
            r == self.spec_succ(),
    {
        match self {
            Level::Zero => Level::Succ(1),
            Level::Succ(n) => Level::Succ(n + 1),
            Level::Omega => Level::Omega,
        }
    }
}

/// A point of the free De Morgan algebra over interval variables and the
/// two endpoints. Purely syntactic: the checker never interprets a point
/// numerically, it only compares points up to the algebra's laws.
#[derive(Debug, PartialEq)]
pub enum IntervalPoint {
    Zero,
    One,
    Var(DeBruijnIndex),
    Meet(Box<IntervalPoint>, Box<IntervalPoint>),
    Join(Box<IntervalPoint>, Box<IntervalPoint>),
    Neg(Box<IntervalPoint>),
}

/// Core syntax. Every compound variant exclusively owns its children, and
/// terms are never mutated once built.
///
/// `Transport` and `Hcomp` are carried by the syntax (and are covered by
/// interval substitution), but no evaluation or typing rule is given for
/// them here: the evaluator and the bidirectional rules report them as
/// undecided rather than guess a semantics.
#[derive(Debug, PartialEq)]
pub enum Term {
    /// A variable, by De Bruijn index.
    Var(DeBruijnIndex),
    /// The universe at a level.
    Universe(Level),
    /// `λ(x : domain). body`; the domain annotation is kept but plays no
    /// role in evaluation.
    Lambda(Box<Term>, Box<Term>),
    /// Application.
    App(Box<Term>, Box<Term>),
    /// The dependent product `Π(x : domain). codomain`.
    Pi(Box<Term>, Box<Term>),
    /// `Path space start end`: paths in `space` from `start` to `end`.
    PathType(Box<Term>, Box<Term>, Box<Term>),
    /// Path abstraction `λi. body` over an interval variable.
    PathLambda(Box<Term>),
    /// Path application `p @ i`.
    PathApp(Box<Term>, IntervalPoint),
    /// An interval point used as a term.
    Interval(IntervalPoint),
    /// Transport along a path: type, source point, target point, subject.
    Transport(Box<Term>, IntervalPoint, IntervalPoint, Box<Term>),
    /// Homogeneous composition: type, sides, cap.
    Hcomp(Box<Term>, HcompSides, Box<Term>),
}

/// The sides of a homogeneous composition: a sequence of
/// (face, direction, tube term) triples.
#[derive(Debug, PartialEq)]
pub enum HcompSides {
    Nil,
    Cons(IntervalPoint, IntervalPoint, Box<Term>, Box<HcompSides>),
}

impl Clone for IntervalPoint {
    /// A deep copy equal to the original.
    fn clone(&self) -> (res: Self)
        ensures
            res == *self,
        decreases *self,
    {
        match self {
            IntervalPoint::Zero => IntervalPoint::Zero,
            IntervalPoint::One => IntervalPoint::One,
            IntervalPoint::Var(i) => IntervalPoint::Var(*i),
            IntervalPoint::Meet(a, b) => IntervalPoint::Meet(
                Box::new((**a).clone()),
                Box::new((**b).clone()),
            ),
            IntervalPoint::Join(a, b) => IntervalPoint::Join(
                Box::new((**a).clone()),
                Box::new((**b).clone()),
            ),
            IntervalPoint::Neg(a) => IntervalPoint::Neg(Box::new((**a).clone())),
        }
    }
}

impl Clone for Term {
    /// A deep copy equal to the original.
    fn clone(&self) -> (res: Self)
        ensures
            res == *self,
        decreases *self,
    {
        match self {
            Term::Var(i) => Term::Var(*i),
            Term::Universe(l) => Term::Universe(*l),
            Term::Lambda(a, b) => Term::Lambda(Box::new((**a).clone()), Box::new((**b).clone())),
            Term::App(f, a) => Term::App(Box::new((**f).clone()), Box::new((**a).clone())),
            Term::Pi(a, b) => Term::Pi(Box::new((**a).clone()), Box::new((**b).clone())),
            Term::PathType(a, s, e) => Term::PathType(
                Box::new((**a).clone()),
                Box::new((**s).clone()),
                Box::new((**e).clone()),
            ),
            Term::PathLambda(b) => Term::PathLambda(Box::new((**b).clone())),
            Term::PathApp(p, i) => Term::PathApp(Box::new((**p).clone()), i.clone()),
            Term::Interval(i) => Term::Interval(i.clone()),
            Term::Transport(a, i, j, b) => Term::Transport(
                Box::new((**a).clone()),
                i.clone(),
                j.clone(),
                Box::new((**b).clone()),
            ),
            Term::Hcomp(a, sides, cap) => Term::Hcomp(
                Box::new((**a).clone()),
                sides.clone(),
                Box::new((**cap).clone()),
            ),
        }
    }
}

impl Clone for HcompSides {
    /// A deep copy equal to the original.
    fn clone(&self) -> (res: Self)
        ensures
            res == *self,
        decreases *self,
    {
        match self {
            HcompSides::Nil => HcompSides::Nil,
            HcompSides::Cons(i, j, t, rest) => HcompSides::Cons(
                i.clone(),
                j.clone(),
                Box::new((**t).clone()),
                Box::new((**rest).clone()),
            ),
        }
    }
}

/// A size measure on terms, used to justify termination of the structural
/// recursions over syntax. Every term has positive height and every proper
/// subterm has strictly smaller height.
pub open spec fn term_height(t: Term) -> nat
    decreases t,
{
    match t {
        Term::Var(_) => 1,
        Term::Universe(_) => 1,
        Term::Lambda(a, b) => 1 + term_height(*a) + term_height(*b),
        Term::App(f, a) => 1 + term_height(*f) + term_height(*a),
        Term::Pi(a, b) => 1 + term_height(*a) + term_height(*b),
        Term::PathType(a, s, e) => 1 + term_height(*a) + term_height(*s) + term_height(*e),
        Term::PathLambda(b) => 1 + term_height(*b),
        Term::PathApp(p, _) => 1 + term_height(*p),
        Term::Interval(_) => 1,
        Term::Transport(a, _, _, b) => 1 + term_height(*a) + term_height(*b),
        Term::Hcomp(a, sides, cap) => 1 + term_height(*a) + sides_height(sides) + term_height(
            *cap,
        ),
    }
}

/// The size measure of a side list, part of `term_height`.
pub open spec fn sides_height(s: HcompSides) -> nat
    decreases s,
{
    match s {
        HcompSides::Nil => 0,
        HcompSides::Cons(_, _, t, rest) => 1 + term_height(*t) + sides_height(*rest),
    }
}

/// Every universe annotation in the term has room for one more successor
/// step in a `usize`. A machine-size bound only: the inference rule for a
/// universe computes its successor level.
pub open spec fn term_levels_ok(t: Term) -> bool
    decreases t,
{
    match t {
        Term::Var(_) => true,
        Term::Universe(l) => l matches Level::Succ(n) ==> n < usize::MAX,
        Term::Lambda(a, b) => term_levels_ok(*a) && term_levels_ok(*b),
        Term::App(f, a) => term_levels_ok(*f) && term_levels_ok(*a),
        Term::Pi(a, b) => term_levels_ok(*a) && term_levels_ok(*b),
        Term::PathType(a, s, e) => term_levels_ok(*a) && term_levels_ok(*s) && term_levels_ok(*e),
        Term::PathLambda(b) => term_levels_ok(*b),
        Term::PathApp(p, _) => term_levels_ok(*p),
        Term::Interval(_) => true,
        Term::Transport(a, _, _, b) => term_levels_ok(*a) && term_levels_ok(*b),
        Term::Hcomp(a, sides, cap) => term_levels_ok(*a) && sides_levels_ok(sides)
            && term_levels_ok(*cap),
    }
}

/// Level bound for the sides of a composition, part of `term_levels_ok`.
pub open spec fn sides_levels_ok(s: HcompSides) -> bool
    decreases s,
{
    match s {
        HcompSides::Nil => true,
        HcompSides::Cons(_, _, t, rest) => term_levels_ok(*t) && sides_levels_ok(*rest),
    }
}

} // verus!
