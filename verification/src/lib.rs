//! A bidirectional type checker with normalization by evaluation for a
//! dependent type theory extended with cubical path types over a free
//! De Morgan interval algebra.
//!
//! Syntax (`Term`) is evaluated into a semantic domain (`Value`) of weak
//! head normal forms with closures; normal forms are read back by quoting.
//! Definitional equality is a depth-bounded structural comparison of
//! values, and the bidirectional rules (`check`/`infer`) use it as their
//! equality oracle, in particular to enforce the endpoint boundary
//! conditions of path introduction.

pub mod syntax;
pub mod interval;
pub mod semantics;
pub mod eval;
pub mod quote;
pub mod convert;
pub mod checker;
pub mod tactics;
pub mod backend;

pub use backend::OptLevel;
pub use checker::TypeChecker;
pub use semantics::{Context, Value};
pub use syntax::Term;
pub use tactics::{Goal, Tactic};
