//! Lint metadata and the diagnostics a lint pass produces.

use crate::hir::Span;
use vstd::prelude::*;

verus! {

/// The severity a lint reports at unless configured otherwise.
#[derive(Clone, Copy, Debug, PartialEq, Eq, Structural)]
pub enum Level {
    Allow,
    Warn,
    Deny,
}

/// A lint's registration record: its identifier, default level and summary.
#[derive(Clone, Copy, Debug, PartialEq, Eq)]
pub struct Lint {
    pub name: &'static str,
    pub default_level: Level,
    pub desc: &'static str,
}

/// One finding of a lint at a source location.
#[derive(Clone, Copy, Debug, PartialEq, Eq)]
pub struct Diagnostic {
    pub lint: Lint,
    pub span: Span,
    pub message: &'static str,
}

} // verus!
