//! The part of a typed syntax tree that the lint reads: expressions with
//! their kind, node id and source span, and the table of adjusted nodes.

use vstd::prelude::*;

verus! {

/// A source location, used only to place a diagnostic.
#[derive(Clone, Copy, Debug, PartialEq, Eq, Structural)]
pub struct Span {
    pub lo: u32,
    pub hi: u32,
}

/// One field initializer of a struct literal: `name: expr`.
#[derive(Debug)]
pub struct FieldInit {
    pub name: String,
    pub expr: Expr,
}

/// The kinds of expression the lint tells apart; everything else is `Other`.
#[derive(Debug)]
pub enum ExprKind {
    /// An integer literal.
    Lit(u64),
    /// A path, such as a local variable `p`.
    Path(String),
    /// A call `f(args)`.
    Call(Box<Expr>, Vec<Expr>),
    /// A tuple literal `(a, b)`.
    Tup(Vec<Expr>),
    /// A struct literal `Name { field: value, .. }`.
    Struct(String, Vec<FieldInit>),
    /// A named field access `base.name`.
    Field(Box<Expr>, String),
    /// A positional field access `base.0`.
    TupField(Box<Expr>, usize),
    /// An assignment `target = value`.
    Assign(Box<Expr>, Box<Expr>),
    /// Any other expression.
    Other,
}

/// An expression node: its id in the tree, its kind and its span.
#[derive(Debug)]
pub struct Expr {
    pub id: u64,
    pub kind: ExprKind,
    pub span: Span,
}

/// What type checking recorded about implicit adjustments: the ids of the
/// expressions whose value was adjusted (reborrowed, dereferenced, coerced)
/// before use.
pub struct TypeckTables {
    adjusted: Vec<u64>,
}

impl View for TypeckTables {
    type V = Seq<u64>;

    /// The ids recorded as adjusted, in the order they were recorded.
    closed spec fn view(&self) -> Seq<u64> {
        self.adjusted@
    }
}

impl TypeckTables {
    /// Tables with no adjustment recorded.
    pub fn new() -> (r: Self)
        ensures
            r@ == Seq::<u64>::empty(),
    {
        TypeckTables { adjusted: Vec::new() }
    }

    /// Records that the value of the expression with this id was adjusted.
    pub fn record_adjustment(&mut self, id: u64)
        ensures
            final(self)@ == old(self)@.push(id),
    {
        self.adjusted.push(id);
    }

    /// Whether the value of `e` was implicitly adjusted before use.
    pub fn is_adjusted(&self, e: &Expr) -> (r: bool)
        ensures
            r == self@.contains(e.id),
    {
        let mut i: usize = 0;
        while i < self.adjusted.len()
            invariant
                0 <= i <= self.adjusted@.len(),
                forall|j: int| 0 <= j < i ==> self.adjusted@[j] != e.id,
            decreases self.adjusted@.len() - i,
        {
            if self.adjusted[i] == e.id {
                assert(self.adjusted@.contains(e.id));
                return true;
            }
            i = i + 1;
        }
        assert(!self.adjusted@.contains(e.id));
        false
    }
}

} // verus!
