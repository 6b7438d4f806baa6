//! The semantic domain of evaluation: values, neutral spines, closures,
//! evaluation environments and typing contexts, and the error taxonomy of
//! the checker.
//!
//! Environments and contexts are persistent: `extend` returns a fresh
//! structure and never touches its receiver, so a host may keep a base
//! context and branch from it freely.

use vstd::prelude::*;
use crate::syntax::{DeBruijnIndex, IntervalPoint, Level, Term};

verus! {

/// A semantic value: the result of evaluating a term. Binders are
/// represented by closures, so evaluation under a binder is deferred until
/// the closure is applied.
#[derive(Debug)]
pub enum Value {
    Neutral(Neutral),
    Universe(Level),
    Lambda(Closure),
    Pi(Box<Value>, Closure),
    PathType(Box<Value>, Box<Value>, Box<Value>),
    PathLambda(PathClosure),
    Interval(IntervalPoint),
}

/// A stuck computation blocked on a free variable, carrying its spine of
/// pending eliminations.
#[derive(Debug)]
pub enum Neutral {
    Var(DeBruijnIndex),
    App(Box<Neutral>, Box<Value>),
    PathApp(Box<Neutral>, IntervalPoint),
    Transport(Box<Value>, IntervalPoint, IntervalPoint, Box<Neutral>),
}

/// An environment snapshot paired with an unevaluated body; the captured
/// environment is never mutated after creation.
#[derive(Debug)]
pub struct Closure {
    pub env: Environment,
    pub body: Box<Term>,
}

/// A closure binding an interval variable rather than a term variable.
#[derive(Debug)]
pub struct PathClosure {
    pub env: Environment,
    pub body: Box<Term>,
}

/// A persistent sequence of values, innermost binding first.
#[derive(Debug)]
pub enum ValueList {
    Nil,
    Cons(Box<Value>, Box<ValueList>),
}

/// An evaluation environment: an append-only ordered sequence of values,
/// indexed from the end (the innermost-bound variable has index 0).
#[derive(Debug)]
pub struct Environment {
    pub values: ValueList,
}

/// A typing context: the sequence of types bound so far, in lockstep with
/// an environment in which each bound position holds a neutral variable
/// placeholder.
#[derive(Debug)]
pub struct Context {
    pub types: ValueList,
    pub env: Environment,
}

/// The checker's error taxonomy. Every operation of the checker returns
/// one of these in a `Result`; nothing panics or diverges.
#[derive(Debug)]
pub enum TypeError {
    /// A De Bruijn index with no binding in the current context.
    UnboundVariable(DeBruijnIndex),
    /// The inferred or checked type disagrees with the required one,
    /// including path-boundary mismatches.
    TypeMismatch { expected: Value, found: Value },
    /// An application whose head is not a function.
    NotAFunction(Value),
    /// A path application whose head is not a path.
    NotAPath(Value),
    /// A type whose universe level was required but which is not a
    /// universe.
    NotAUniverse(Value),
    /// A malformed interval-algebra term where a well-formed one was
    /// required.
    InvalidInterval,
    /// The question was left undecided: the depth bound ran out, a value
    /// under comparison could not be opened, or the construct carries no
    /// rule in this core. Never to be read as an answer in the negative.
    UnificationFailure,
}

/// The number of values in a list.
pub open spec fn list_len(l: ValueList) -> nat
    decreases l,
{
    match l {
        ValueList::Nil => 0,
        ValueList::Cons(_, rest) => 1 + list_len(*rest),
    }
}

/// The list as a sequence in binding order: the outermost binding comes
/// first and extension appends at the end.
pub open spec fn list_seq(l: ValueList) -> Seq<Value>
    decreases l,
{
    match l {
        ValueList::Nil => Seq::empty(),
        ValueList::Cons(v, rest) => list_seq(*rest).push(*v),
    }
}

/// Lookup by De Bruijn index: index 0 is the innermost binding.
pub open spec fn list_lookup(l: ValueList, idx: nat) -> Option<Value>
    decreases l,
{
    match l {
        ValueList::Nil => None,
        ValueList::Cons(v, rest) => if idx == 0 {
            Some(*v)
        } else {
            list_lookup(*rest, (idx - 1) as nat)
        },
    }
}

/// Index arithmetic of the sequence view: in a list of length `n`, index
/// `i` refers to logical position `n - 1 - i`, and an out-of-range index
/// finds nothing.
pub proof fn lemma_lookup_is_position(l: ValueList, idx: nat)
    ensures
        list_seq(l).len() == list_len(l),
        idx < list_len(l) ==> list_lookup(l, idx) == Some(list_seq(l)[list_len(l) - 1 - idx]),
        idx >= list_len(l) ==> list_lookup(l, idx) is None,
    decreases l,
{
    match l {
        ValueList::Nil => {
        },
        ValueList::Cons(v, rest) => {
            if idx > 0 {
                lemma_lookup_is_position(*rest, (idx - 1) as nat);
            } else {
                lemma_lookup_is_position(*rest, 0);
            }
        },
    }
}

/// The environment obtained by binding one more value.
pub open spec fn spec_env_extend(env: Environment, v: Value) -> Environment {
    Environment { values: ValueList::Cons(Box::new(v), Box::new(env.values)) }
}

/// Lookup in an environment, by De Bruijn index.
pub open spec fn spec_env_lookup(env: Environment, idx: nat) -> Option<Value> {
    list_lookup(env.values, idx)
}

/// The number of bindings in a context.
pub open spec fn spec_ctx_len(ctx: Context) -> nat {
    list_len(ctx.types)
}

/// The context obtained by binding a fresh variable of the given type: the
/// type is appended, and the parallel environment is extended with a
/// neutral placeholder for the new position.
pub open spec fn spec_ctx_extend(ctx: Context, ty: Value) -> Context {
    Context {
        types: ValueList::Cons(Box::new(ty), Box::new(ctx.types)),
        env: spec_env_extend(
            ctx.env,
            Value::Neutral(Neutral::Var(DeBruijnIndex(list_len(ctx.types) as usize))),
        ),
    }
}

/// Lookup of the type bound at a De Bruijn index.
pub open spec fn spec_ctx_lookup(ctx: Context, idx: nat) -> Option<Value> {
    list_lookup(ctx.types, idx)
}

/// A size measure on values, used to justify termination of the
/// structural recursions over the semantic domain. Closures count as
/// leaves: recursion into a closure body is bounded by fuel, not by this
/// measure.
pub open spec fn value_height(v: Value) -> nat
    decreases v,
{
    match v {
        Value::Neutral(n) => 1 + neutral_height(n),
        Value::Universe(_) => 1,
        Value::Lambda(_) => 1,
        Value::Pi(a, _) => 1 + value_height(*a),
        Value::PathType(a, s, e) => 1 + value_height(*a) + value_height(*s) + value_height(*e),
        Value::PathLambda(_) => 1,
        Value::Interval(_) => 1,
    }
}

/// The size measure of a neutral spine, part of `value_height`.
pub open spec fn neutral_height(n: Neutral) -> nat
    decreases n,
{
    match n {
        Neutral::Var(_) => 1,
        Neutral::App(f, a) => 1 + neutral_height(*f) + value_height(*a),
        Neutral::PathApp(p, _) => 1 + neutral_height(*p),
        Neutral::Transport(a, _, _, t) => 1 + value_height(*a) + neutral_height(*t),
    }
}

impl Clone for Value {
    /// A deep copy equal to the original.
    fn clone(&self) -> (res: Self)
        ensures
            res == *self,
        decreases *self,
    {
        match self {
            Value::Neutral(n) => Value::Neutral(n.clone()),
            Value::Universe(l) => Value::Universe(*l),
            Value::Lambda(c) => Value::Lambda(c.clone()),
            Value::Pi(a, c) => Value::Pi(Box::new((**a).clone()), c.clone()),
            Value::PathType(a, s, e) => Value::PathType(
                Box::new((**a).clone()),
                Box::new((**s).clone()),
                Box::new((**e).clone()),
            ),
            Value::PathLambda(c) => Value::PathLambda(c.clone()),
            Value::Interval(i) => Value::Interval(i.clone()),
        }
    }
}

impl Clone for Neutral {
    /// A deep copy equal to the original.
    fn clone(&self) -> (res: Self)
        ensures
            res == *self,
        decreases *self,
    {
        match self {
            Neutral::Var(i) => Neutral::Var(*i),
            Neutral::App(f, a) => Neutral::App(Box::new((**f).clone()), Box::new((**a).clone())),
            Neutral::PathApp(p, i) => Neutral::PathApp(Box::new((**p).clone()), i.clone()),
            Neutral::Transport(a, i, j, t) => Neutral::Transport(
                Box::new((**a).clone()),
                i.clone(),
                j.clone(),
                Box::new((**t).clone()),
            ),
        }
    }
}

impl Clone for Closure {
    /// A deep copy equal to the original.
    fn clone(&self) -> (res: Self)
        ensures
            res == *self,
        decreases *self,
    {
        Closure { env: self.env.clone(), body: Box::new((*self.body).clone()) }
    }
}

impl Clone for PathClosure {
    /// A deep copy equal to the original.
    fn clone(&self) -> (res: Self)
        ensures
            res == *self,
        decreases *self,
    {
        PathClosure { env: self.env.clone(), body: Box::new((*self.body).clone()) }
    }
}

impl Clone for ValueList {
    /// A deep copy equal to the original.
    fn clone(&self) -> (res: Self)
        ensures
            res == *self,
        decreases *self,
    {
        match self {
            ValueList::Nil => ValueList::Nil,
            ValueList::Cons(v, rest) => ValueList::Cons(
                Box::new((**v).clone()),
                Box::new((**rest).clone()),
            ),
        }
    }
}

impl Clone for Environment {
    /// A deep copy equal to the original.
    fn clone(&self) -> (res: Self)
        ensures
            res == *self,
        decreases *self,
    {
        Environment { values: self.values.clone() }
    }
}

impl Clone for Context {
    /// A deep copy equal to the original.
    fn clone(&self) -> (res: Self)
        ensures
            res == *self,
        decreases *self,
    {
        Context { types: self.types.clone(), env: self.env.clone() }
    }
}

impl ValueList {
    /// The number of values in the list.
    pub fn len(&self) -> (r: usize)
        requires
            list_len(*self) <= usize::MAX,
        ensures
            r == list_len(*self),
        decreases *self,
    {
        match self {
            ValueList::Nil => 0,
            ValueList::Cons(_, rest) => 1 + rest.len(),
        }
    }
}

/// Walks `idx` steps into the list; index 0 is the innermost binding.
fn list_get<'a>(l: &'a ValueList, idx: usize) -> (r: Option<&'a Value>)
    ensures
        match r {
            Some(v) => list_lookup(*l, idx as nat) == Some(*v),
            None => list_lookup(*l, idx as nat) is None,
        },
    decreases *l,
{
    match l {
        ValueList::Nil => None,
        ValueList::Cons(v, rest) => if idx == 0 {
            Some(&**v)
        } else {
            list_get(rest, idx - 1)
        },
    }
}

impl Environment {
    /// The empty environment.
    pub fn new() -> (r: Self)
        ensures
            r.values == ValueList::Nil,
            list_seq(r.values) == Seq::<Value>::empty(),
    {
        Environment { values: ValueList::Nil }
    }

    /// Binds one more value. The receiver is untouched: the result is a
    /// fresh environment whose sequence view is the old one with `v`
    /// appended.
    pub fn extend(&self, v: Value) -> (r: Self)
        ensures
            r == spec_env_extend(*self, v),
            list_seq(r.values) == list_seq(self.values).push(v),
    {
        Environment { values: ValueList::Cons(Box::new(v), Box::new(self.values.clone())) }
    }

    /// Looks up the value bound `idx` binders out; `None` when the index
    /// runs past the end of the environment.
    pub fn lookup(&self, idx: DeBruijnIndex) -> (r: Option<&Value>)
        ensures
            match r {
                Some(v) => spec_env_lookup(*self, idx.0 as nat) == Some(*v),
                None => spec_env_lookup(*self, idx.0 as nat) is None,
            },
    {
        list_get(&self.values, idx.0)
    }
}

impl Context {
    /// The empty context.
    pub fn new() -> (r: Self)
        ensures
            r.types == ValueList::Nil,
            r.env.values == ValueList::Nil,
    {
        Context { types: ValueList::Nil, env: Environment { values: ValueList::Nil } }
    }

    /// Binds a fresh variable of type `ty`. The receiver is untouched and
    /// remains usable: the result is a fresh context carrying one more
    /// type, and its environment carries a neutral placeholder for the new
    /// position.
    pub fn extend(&self, ty: Value) -> (r: Self)
        requires
            list_len(self.types) < usize::MAX,
        ensures
            r == spec_ctx_extend(*self, ty),
            list_seq(r.types) == list_seq(self.types).push(ty),
    {
        let n = self.types.len();
        Context {
            types: ValueList::Cons(Box::new(ty), Box::new(self.types.clone())),
            env: self.env.extend(Value::Neutral(Neutral::Var(DeBruijnIndex(n)))),
        }
    }

    /// Looks up the type of the variable bound `idx` binders out; `None`
    /// when the index is unbound.
    pub fn lookup(&self, idx: DeBruijnIndex) -> (r: Option<&Value>)
        ensures
            match r {
                Some(v) => spec_ctx_lookup(*self, idx.0 as nat) == Some(*v),
                None => spec_ctx_lookup(*self, idx.0 as nat) is None,
            },
    {
        list_get(&self.types, idx.0)
    }
}

} // verus!
