//! Typed expressions and local bindings, as far as the checks here read them.
use vstd::prelude::*;
use crate::diag::Span;
use crate::ty::Ty;

verus! {

#[derive(Debug, Clone, Copy, PartialEq, Eq, Structural)]
pub enum UnaryOp {
    Neg,
    Not,
    Deref,
    Addr,
}

/// A binary operator.
#[derive(Debug, Clone, Copy, PartialEq, Eq, Structural)]
pub enum BinaryOp {
    Add,
    Sub,
    Mul,
    Div,
    Rem,
    BitAnd,
    BitOr,
    BitXor,
    Shl,
    Shr,
    Eq,
    Ne,
    Lt,
    Le,
    Gt,
    Ge,
    And,
    Or,
}

/// A literal as written in the source.
#[derive(Debug, PartialEq)]
pub enum Literal {
    /// an integer literal with its source text
    Integer(String),
    /// a floating-point literal with its source text
    Float(String),
    /// a character literal with its source text
    Char(String),
    String(String),
    Bool(bool),
    Null,
}

#[derive(Debug, PartialEq)]
pub enum TExprKind {
    Local(u64),
    Field { base: Box<TExpr>, field: u64 },
    Arrow { base: Box<TExpr>, field: u64 },
    Index { base: Box<TExpr>, index: Box<TExpr> },
    Unary { op: UnaryOp, expr: Box<TExpr> },
    Binary { op: BinaryOp, left: Box<TExpr>, right: Box<TExpr> },
    Literal(Literal),
    /// an `.await` of the inner expression
    Await(Box<TExpr>),
    /// an async `select` over the given futures
    AsyncSelect(Vec<TExpr>),
    /// a closure with its body (evaluated when the closure is called)
    Closure(Box<TExpr>),
    /// a value boxed into an erased error, with its concrete type
    ErrorBox { expr: Box<TExpr>, concrete_ty: Ty },
    /// an `unsafe` block: its statements and its value, if any
    UnsafeBlock { statements: Vec<TExpr>, value: Option<Box<TExpr>> },
    /// a cast of the inner expression to `ty`
    Cast { expr: Box<TExpr>, ty: Ty },
    /// the inner value, moved out of its place
    Move(Box<TExpr>),
    /// any other expression, with its operands
    Other(Vec<TExpr>),
}

#[derive(Debug, PartialEq)]
pub struct TExpr {
    pub span: Span,
    pub ty: Ty,
    pub kind: TExprKind,
}

#[derive(Debug, Clone, Copy, PartialEq, Eq, Structural)]
pub enum InitState {
    Assigned,
    Unassigned,
    Moved,
    /// assigned on some paths only
    MaybeAssigned,
    /// moved on some paths only
    MaybeMoved,
}

/// A local variable in scope.
#[derive(Debug, PartialEq)]
pub struct LocalBinding {
    pub id: u64,
    pub name: u64,
    pub ty: Ty,
    /// the type the value currently flowing in the variable has, when it is
    /// more precise than the declared type
    pub flow_ty: Option<Ty>,
    /// the type a condition narrowed the variable to (a nullable pointer
    /// known not to be null)
    pub narrowed_ty: Option<Ty>,
    pub init_state: InitState,
    pub mutable: bool,
    pub captured: bool,
    /// how many loops enclosed the declaration
    pub declared_loop_depth: u64,
}

#[derive(Debug, PartialEq)]
pub struct LocalScopes {
    pub bindings: Vec<LocalBinding>,
}

/// Whether a place may be written.
#[derive(Debug, Clone, Copy, PartialEq, Eq, Structural)]
pub enum LvalueAccess {
    Writable,
    ReadOnly,
}

pub open spec fn binding_index(scopes: LocalScopes, id: u64) -> Option<int> {
    if exists|i: int| 0 <= i < scopes.bindings@.len() && (#[trigger] scopes.bindings@[i]).id == id {
        Some(
            choose|i: int|
                0 <= i < scopes.bindings@.len() && (#[trigger] scopes.bindings@[i]).id == id
                    && forall|j: int| 0 <= j < i ==> (#[trigger] scopes.bindings@[j]).id != id,
        )
    } else {
        None
    }
}

impl LocalScopes {
    /// The position of the binding of local `id`.
    pub fn position(&self, id: u64) -> (r: Option<usize>)
        ensures
            r matches Some(i) ==> binding_index(*self, id) == Some(i as int) && i < self.bindings@.len(),
            r is None ==> binding_index(*self, id) is None,
    {
        let mut i: usize = 0;
        while i < self.bindings.len()
            invariant
                i <= self.bindings@.len(),
                forall|j: int| 0 <= j < i ==> (#[trigger] self.bindings@[j]).id != id,
            decreases self.bindings@.len() - i,
        {
            if self.bindings[i].id == id {
                proof {
                    let k = binding_index(*self, id)->0;
                    if k < i {
                        assert(self.bindings@[k].id != id);
                    }
                    if k > i {
                        assert(self.bindings@[i as int].id != id);
                    }
                }
                return Some(i);
            }
            i += 1;
        }
        None
    }
}

} // verus!
