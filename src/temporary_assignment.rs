//! Warns about constructing a struct or tuple only to assign into one of its
//! fields, as in `(0, 0).0 = 1`: if the value is only created to be updated,
//! the value wanted could be written in the first place.

use crate::hir::{Expr, ExprKind, Span, TypeckTables};
use crate::lint::{Diagnostic, Level, Lint};
use vstd::prelude::*;

verus! {

/// The registration record of the lint.
pub open spec fn temporary_assignment_spec() -> Lint {
    Lint { name: "TEMPORARY_ASSIGNMENT", default_level: Level::Warn, desc: "assignments to temporaries" }
}

/// The registration record of the lint: warns by default.
pub fn temporary_assignment() -> (r: Lint)
    ensures
        r == temporary_assignment_spec(),
{
    Lint { name: "TEMPORARY_ASSIGNMENT", default_level: Level::Warn, desc: "assignments to temporaries" }
}

/// The diagnostic reported for an assignment to a temporary at `span`.
pub open spec fn temporary_assignment_diagnostic(span: Span) -> Diagnostic {
    Diagnostic { lint: temporary_assignment_spec(), span, message: "assignment to temporary" }
}

/// A temporary is an expression that is a struct or tuple literal itself.
pub open spec fn is_temporary_spec(e: Expr) -> bool {
    e.kind is Struct || e.kind is Tup
}

/// The base of the assignment's target, where `e` is an assignment whose
/// target is a named or positional field access.
pub open spec fn assigned_field_base(e: Expr) -> Option<Expr> {
    match e.kind {
        ExprKind::Assign(target, _) => match target.kind {
            ExprKind::Field(base, _) => Some(*base),
            ExprKind::TupField(base, _) => Some(*base),
            _ => None,
        },
        _ => None,
    }
}

/// `e` assigns into a field of a struct or tuple literal whose value was not
/// adjusted, given the adjusted node ids `adjusted`.
pub open spec fn is_assignment_to_temporary(e: Expr, adjusted: Seq<u64>) -> bool {
    match assigned_field_base(e) {
        Some(base) => is_temporary_spec(base) && !adjusted.contains(base.id),
        None => false,
    }
}

/// What inspecting `e` reports: one diagnostic at `e`'s span for an
/// assignment to a temporary, nothing otherwise.
pub open spec fn diagnostic_for(e: Expr, adjusted: Seq<u64>) -> Option<Diagnostic> {
    if is_assignment_to_temporary(e, adjusted) {
        Some(temporary_assignment_diagnostic(e.span))
    } else {
        None
    }
}

fn is_temporary(expr: &Expr) -> (r: bool)
    ensures
        r == is_temporary_spec(*expr),
{
    match expr.kind {
        ExprKind::Struct(..) | ExprKind::Tup(..) => true,
        _ => false,
    }
}

/// The lint pass; it keeps no state between expressions.
#[derive(Clone, Copy, Debug, PartialEq, Eq, Structural)]
pub struct TemporaryAssignmentPass;

/// The pass state and report after inspecting `e` from state `p`.
pub open spec fn inspect_step(
    p: TemporaryAssignmentPass,
    e: Expr,
    adjusted: Seq<u64>,
) -> (TemporaryAssignmentPass, Option<Diagnostic>) {
    (p, diagnostic_for(e, adjusted))
}

impl TemporaryAssignmentPass {
    /// A fresh pass.
    pub fn new() -> (r: Self) {
        TemporaryAssignmentPass
    }

    /// The lints this pass reports.
    pub fn get_lints(&self) -> (r: Vec<Lint>)
        ensures
            r@ == seq![temporary_assignment_spec()],
    {
        vec![temporary_assignment()]
    }

    /// Inspects one expression. An assignment whose target is a field access
    /// directly on a struct or tuple literal, whose value the tables do not
    /// record as adjusted, gives one diagnostic at the assignment's span;
    /// every other expression gives none.
    pub fn check_expr(&mut self, cx: &TypeckTables, expr: &Expr) -> (r: Option<Diagnostic>)
        ensures
            (*final(self), r) == inspect_step(*old(self), *expr, cx@),
            is_assignment_to_temporary(*expr, cx@) ==> r == Some(
                temporary_assignment_diagnostic(expr.span),
            ),
            !is_assignment_to_temporary(*expr, cx@) ==> r is None,
    {
        if let ExprKind::Assign(target, _) = &expr.kind {
            match &target.kind {
                ExprKind::Field(base, _) | ExprKind::TupField(base, _) => {
                    if is_temporary(base) && !cx.is_adjusted(base) {
                        return Some(
                            Diagnostic {
                                lint: temporary_assignment(),
                                span: expr.span,
                                message: "assignment to temporary",
                            },
                        );
                    }
                },
                _ => {},
            }
        }
        None
    }
}

/// Inspecting an expression twice, the second time from the state the first
/// left, reports the same thing both times and leaves the same state: the
/// pass accumulates nothing.
pub proof fn lemma_inspect_idempotent(p: TemporaryAssignmentPass, e: Expr, adjusted: Seq<u64>)
    ensures
        inspect_step(inspect_step(p, e, adjusted).0, e, adjusted) == inspect_step(p, e, adjusted),
{
}

} // verus!
