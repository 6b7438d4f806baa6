//! The data model of the interactive proving layer that drives the
//! checker: the tactic language, goal hypotheses as a host renders them,
//! and the commands a proof script is made of. The checker core itself
//! exposes only `infer`, `check` and `normalize`; a host maps tactics
//! onto those entry points (introducing a variable is the lambda rule of
//! `check`, an exact term is `infer` plus convertibility).

use vstd::prelude::*;
use crate::syntax::Term;

verus! {

/// A proof goal as the proving layer holds it: its hypotheses rendered
/// from context entries, the printed conclusion, and the conclusion as a
/// term where one is at hand.
#[derive(Debug)]
pub struct Goal {
    pub id: usize,
    pub context: Vec<Hypothesis>,
    pub conclusion: String,
    pub term: Option<Term>,
}

/// A hypothesis of a goal, as rendered from a context entry: a name, the
/// printed type, and optionally a printed value.
#[derive(Debug)]
pub struct Hypothesis {
    pub name: String,
    pub ty: String,
    pub value: Option<String>,
}

/// The tactic language of the proving layer.
#[derive(Debug)]
pub enum Tactic {
    Intro(String),
    Apply(String),
    Exact(String),
    Assumption,
    Reflexivity,
    Symmetry,
    Transitivity(String),
    Rewrite(String, Direction),
    Induction(String),
    Case(String),
    Destruct(String),
    PathIntro,
    PathElim(String),
    Transport(String, String),
    Hcomp(Vec<String>),
    /// Automated search, with a depth limit.
    Auto(usize),
    Simp,
    Ring,
    /// Linear arithmetic.
    Omega,
    /// Sledgehammer-style automation.
    Hammer,
    /// Introduce an intermediate lemma.
    Have(String, String),
    Suffices(String),
    ByContradiction,
    Try(Box<Tactic>),
    Repeat(Box<Tactic>),
    First(Vec<Tactic>),
    Solve(Vec<Tactic>),
    Ltac(String, Vec<TacticExpr>),
}

/// The direction a rewrite is applied in.
#[derive(Debug)]
pub enum Direction {
    LeftToRight,
    RightToLeft,
}

/// An expression of the tactic meta-language.
#[derive(Debug)]
pub enum TacticExpr {
    Tactic(Tactic),
    Match(String, Vec<(Pattern, TacticExpr)>),
    Let(String, Box<TacticExpr>, Box<TacticExpr>),
    Fail(String),
    Idtac,
}

/// A pattern of the tactic meta-language.
#[derive(Debug)]
pub enum Pattern {
    Var(String),
    Constructor(String, Vec<Pattern>),
    Wildcard,
}

/// One step of a proof script: a tactic applied to a goal at a time.
#[derive(Debug)]
pub struct ProofCommand {
    pub tactic: Tactic,
    pub goal_id: usize,
    pub timestamp: u64,
}

impl Tactic {
    /// The tactic a bare name denotes, for the five names a script may
    /// use without arguments; `intro` defaults its variable name to `x`
    /// and `auto` defaults its search depth to 5. Any other name denotes
    /// nothing.
    pub fn from_name(name: &str) -> (r: Option<Tactic>)
        ensures
            name@ == "intro"@ ==> (r matches Some(t) && t matches Tactic::Intro(x) && x@ == "x"@),
            name@ == "assumption"@ ==> (r matches Some(t) && t is Assumption),
            name@ == "reflexivity"@ ==> (r matches Some(t) && t is Reflexivity),
            name@ == "auto"@ ==> (r matches Some(t) && t matches Tactic::Auto(d) && d == 5),
            name@ == "simp"@ ==> (r matches Some(t) && t is Simp),
            name@ != "intro"@ && name@ != "assumption"@ && name@ != "reflexivity"@ && name@
                != "auto"@ && name@ != "simp"@ ==> r is None,
    {
        proof {
            reveal_strlit("intro");
            reveal_strlit("assumption");
            reveal_strlit("reflexivity");
            reveal_strlit("auto");
            reveal_strlit("simp");
            reveal_strlit("x");
            assert("intro"@.len() == 5);
            assert("assumption"@.len() == 10);
            assert("reflexivity"@.len() == 11);
            assert("auto"@.len() == 4);
            assert("simp"@.len() == 4);
            assert("auto"@[0] == 'a');
            assert("simp"@[0] == 's');
            assert("intro"@ != "assumption"@);
            assert("intro"@ != "reflexivity"@);
            assert("intro"@ != "auto"@);
            assert("intro"@ != "simp"@);
            assert("assumption"@ != "reflexivity"@);
            assert("assumption"@ != "auto"@);
            assert("assumption"@ != "simp"@);
            assert("reflexivity"@ != "auto"@);
            assert("reflexivity"@ != "simp"@);
            assert("auto"@ != "simp"@);
        }
        let n = name.to_owned();
        if n == "intro".to_owned() {
            Some(Tactic::Intro("x".to_owned()))
        } else if n == "assumption".to_owned() {
            Some(Tactic::Assumption)
        } else if n == "reflexivity".to_owned() {
            Some(Tactic::Reflexivity)
        } else if n == "auto".to_owned() {
            Some(Tactic::Auto(5))
        } else if n == "simp".to_owned() {
            Some(Tactic::Simp)
        } else {
            None
        }
    }
}

} // verus!
