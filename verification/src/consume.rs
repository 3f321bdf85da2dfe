//! Consuming resources: moving a resource out of a local, and the uses of
//! resources that are moved or not yet assigned.
use vstd::prelude::*;
use crate::affine::affine;
use crate::checker::{diag, TypeChecker};
use crate::diag::{DiagKind, Diagnostic};
use crate::lvalue::{lvalue_root_local, root_local};
use crate::texpr::{binding_index, InitState, LocalBinding, LocalScopes, TExpr, TExprKind};
use crate::ty::{copy_ty, known_ty_matches, Ty};

verus! {

/// A local after its value was moved out.
pub open spec fn moved_binding(b: LocalBinding) -> LocalBinding {
    LocalBinding { init_state: InitState::Moved, narrowed_ty: None, ..b }
}

pub open spec fn moved(e: TExpr) -> TExpr {
    TExpr { span: e.span, ty: e.ty, kind: TExprKind::Move(Box::new(e)) }
}

/// Consuming the value of `e` where it is used by value: the resulting
/// expression, the diagnostics, and the bindings of `scopes` afterwards.
/// Values that are not resources are used as they are.  A resource local
/// is moved (and marked moved) unless it was declared outside the loop
/// being checked and loop moves are not allowed; a resource part of a value
/// may be moved only inside `unsafe`.  Erased error boxes, the value of an
/// `unsafe` block and casts to the same type are consumed through.
pub open spec fn consume(
    tc: TypeChecker,
    scopes: LocalScopes,
    e: TExpr,
    allow_loop_move: bool,
    in_unsafe: bool,
) -> (TExpr, Seq<Diagnostic>, Seq<LocalBinding>)
    decreases e,
{
    match e.kind {
        TExprKind::ErrorBox { expr: inner, concrete_ty } => {
            let (ri, d, b) = consume(tc, scopes, *inner, allow_loop_move, in_unsafe);
            (TExpr { span: e.span, ty: e.ty, kind: TExprKind::ErrorBox { expr: Box::new(ri), concrete_ty } }, d, b)
        },
        _ => if !affine(tc, e.ty) {
            (e, Seq::empty(), scopes.bindings@)
        } else {
            match e.kind {
                TExprKind::UnsafeBlock { statements, value: Some(v) } => {
                    let (rv, d, b) = consume(tc, scopes, *v, allow_loop_move, true);
                    (
                        TExpr {
                            span: e.span,
                            ty: e.ty,
                            kind: TExprKind::UnsafeBlock { statements, value: Some(Box::new(rv)) },
                        },
                        d,
                        b,
                    )
                },
                TExprKind::Cast { expr: inner, ty } => if inner.ty == ty {
                    let (ri, d, b) = consume(tc, scopes, *inner, allow_loop_move, in_unsafe);
                    (TExpr { span: e.span, ty: e.ty, kind: TExprKind::Cast { expr: Box::new(ri), ty } }, d, b)
                } else {
                    (e, Seq::empty(), scopes.bindings@)
                },
                TExprKind::Local(id) => match binding_index(scopes, id) {
                    Some(i) => {
                        let b = scopes.bindings@[i];
                        if b.declared_loop_depth < tc.state.loop_depth && !allow_loop_move {
                            (
                                moved(e),
                                seq![diag(e.span, DiagKind::ResourceMovedInLoop { name: b.name })],
                                scopes.bindings@,
                            )
                        } else {
                            (moved(e), Seq::empty(), scopes.bindings@.update(i, moved_binding(b)))
                        }
                    },
                    None => (moved(e), Seq::empty(), scopes.bindings@),
                },
                TExprKind::Field { .. } | TExprKind::Arrow { .. } | TExprKind::Index { .. } => if in_unsafe {
                    (moved(e), Seq::empty(), scopes.bindings@)
                } else {
                    (e, seq![diag(e.span, DiagKind::MoveResourceSubvalue { ty: e.ty })], scopes.bindings@)
                },
                _ => (e, Seq::empty(), scopes.bindings@),
            }
        },
    }
}

/// The diagnostic for using a resource whose root local is moved, or not
/// definitely assigned.
pub open spec fn moved_use_diags(tc: TypeChecker, scopes: LocalScopes, e: TExpr) -> Seq<Diagnostic> {
    if !affine(tc, e.ty) {
        Seq::empty()
    } else {
        match root_local(e) {
            Some(id) => match binding_index(scopes, id) {
                Some(i) => {
                    let b = scopes.bindings@[i];
                    if b.init_state == InitState::Assigned {
                        Seq::empty()
                    } else if b.init_state == InitState::Moved || b.init_state == InitState::MaybeMoved {
                        seq![diag(e.span, DiagKind::UseOfMovedResource { name: b.name })]
                    } else {
                        seq![diag(e.span, DiagKind::NotDefinitelyAssigned { name: b.name })]
                    }
                },
                None => Seq::empty(),
            },
            None => Seq::empty(),
        }
    }
}

/// Consuming depends on the checker only through the program, the resource
/// generics in scope and the loop depth.
proof fn lemma_consume_context(
    a: TypeChecker,
    b: TypeChecker,
    scopes: LocalScopes,
    e: TExpr,
    allow_loop_move: bool,
    in_unsafe: bool,
)
    requires
        a.program == b.program,
        a.state.resource_generic_stack == b.state.resource_generic_stack,
        a.state.loop_depth == b.state.loop_depth,
    ensures
        consume(a, scopes, e, allow_loop_move, in_unsafe) == consume(b, scopes, e, allow_loop_move, in_unsafe),
    decreases e,
{
    crate::capability::lemma_affine_context_pub(a, b, e.ty);
    match e.kind {
        TExprKind::ErrorBox { expr: inner, .. } => lemma_consume_context(a, b, scopes, *inner, allow_loop_move, in_unsafe),
        TExprKind::UnsafeBlock { value: Some(v), .. } => lemma_consume_context(a, b, scopes, *v, allow_loop_move, true),
        TExprKind::Cast { expr: inner, .. } => lemma_consume_context(a, b, scopes, *inner, allow_loop_move, in_unsafe),
        _ => {},
    }
}

impl TypeChecker {
    /// Consumes the value of `expr` where it is used by value (see
    /// `consume`).
    pub fn consume_affine_expr(&mut self, scopes: &mut LocalScopes, expr: TExpr, allow_loop_move: bool) -> (r: TExpr)
        ensures
            final(self).same_context(*old(self)),
            ({
                let (re, d, b) = consume(
                    *old(self),
                    *old(scopes),
                    expr,
                    allow_loop_move,
                    old(self).state.unsafe_depth > 0,
                );
                &&& r == re
                &&& final(self).diagnostics@ == old(self).diagnostics@ + d
                &&& final(scopes).bindings@ == b
            }),
        decreases expr,
    {
        let ghost start = *self;
        let ghost start_scopes = *scopes;
        let TExpr { span, ty, kind } = expr;
        match kind {
            TExprKind::ErrorBox { expr: inner, concrete_ty } => {
                let ri = self.consume_affine_expr(scopes, *inner, allow_loop_move);
                return TExpr { span, ty, kind: TExprKind::ErrorBox { expr: Box::new(ri), concrete_ty } };
            },
            kind => {
                if !self.type_is_affine(&ty) {
                    proof {
                        assert(self.diagnostics@ =~= start.diagnostics@ + Seq::<Diagnostic>::empty());
                    }
                    return TExpr { span, ty, kind };
                }
                match kind {
                    TExprKind::UnsafeBlock { statements, value: Some(v) } => {
                        let previous = self.state.unsafe_depth;
                        self.state.unsafe_depth = if previous == u64::MAX {
                            previous
                        } else {
                            previous + 1
                        };
                        let ghost inner_start = *self;
                        let rv = self.consume_affine_expr(scopes, *v, allow_loop_move);
                        self.state.unsafe_depth = previous;
                        proof {
                            lemma_consume_context(inner_start, start, start_scopes, *v, allow_loop_move, true);
                        }
                        TExpr {
                            span,
                            ty,
                            kind: TExprKind::UnsafeBlock { statements, value: Some(Box::new(rv)) },
                        }
                    },
                    TExprKind::Cast { expr: inner, ty: cast_ty } => {
                        if known_ty_matches(&inner.ty, &cast_ty) {
                            let ri = self.consume_affine_expr(scopes, *inner, allow_loop_move);
                            TExpr { span, ty, kind: TExprKind::Cast { expr: Box::new(ri), ty: cast_ty } }
                        } else {
                            proof {
                                assert(self.diagnostics@ =~= start.diagnostics@ + Seq::<Diagnostic>::empty());
                            }
                            TExpr { span, ty, kind: TExprKind::Cast { expr: inner, ty: cast_ty } }
                        }
                    },
                    TExprKind::Local(id) => {
                        let inner_ty = copy_ty(&ty);
                        let local = TExpr { span, ty: inner_ty, kind: TExprKind::Local(id) };
                        match scopes.position(id) {
                            Some(i) => {
                                let b = &scopes.bindings[i];
                                if b.declared_loop_depth < self.state.loop_depth && !allow_loop_move {
                                    self.report(span, DiagKind::ResourceMovedInLoop { name: b.name });
                                } else {
                                    let updated = LocalBinding {
                                        id: b.id,
                                        name: b.name,
                                        ty: copy_ty(&b.ty),
                                        flow_ty: match &b.flow_ty {
                                            Some(t) => Some(copy_ty(t)),
                                            None => None,
                                        },
                                        narrowed_ty: None,
                                        init_state: InitState::Moved,
                                        mutable: b.mutable,
                                        captured: b.captured,
                                        declared_loop_depth: b.declared_loop_depth,
                                    };
                                    scopes.bindings.set(i, updated);
                                    proof {
                                        assert(self.diagnostics@ =~= start.diagnostics@ + Seq::<Diagnostic>::empty());
                                    }
                                }
                            },
                            None => {
                                proof {
                                    assert(self.diagnostics@ =~= start.diagnostics@ + Seq::<Diagnostic>::empty());
                                }
                            },
                        }
                        TExpr { span, ty, kind: TExprKind::Move(Box::new(local)) }
                    },
                    TExprKind::Field { base, field } => {
                        let e = TExpr { span, ty, kind: TExprKind::Field { base, field } };
                        self.move_subvalue(e)
                    },
                    TExprKind::Arrow { base, field } => {
                        let e = TExpr { span, ty, kind: TExprKind::Arrow { base, field } };
                        self.move_subvalue(e)
                    },
                    TExprKind::Index { base, index } => {
                        let e = TExpr { span, ty, kind: TExprKind::Index { base, index } };
                        self.move_subvalue(e)
                    },
                    kind => {
                        proof {
                            assert(self.diagnostics@ =~= start.diagnostics@ + Seq::<Diagnostic>::empty());
                        }
                        TExpr { span, ty, kind }
                    },
                }
            },
        }
    }

    fn move_subvalue(&mut self, e: TExpr) -> (r: TExpr)
        ensures
            final(self).same_context(*old(self)),
            old(self).state.unsafe_depth > 0 ==> r == moved(e) && final(self).diagnostics@ == old(
                self,
            ).diagnostics@,
            old(self).state.unsafe_depth == 0 ==> r == e && final(self).diagnostics@ == old(
                self,
            ).diagnostics@ + seq![diag(e.span, DiagKind::MoveResourceSubvalue { ty: e.ty })],
    {
        if self.state.unsafe_depth == 0 {
            self.report(e.span, DiagKind::MoveResourceSubvalue { ty: copy_ty(&e.ty) });
            e
        } else {
            let span = e.span;
            let ty = copy_ty(&e.ty);
            TExpr { span, ty, kind: TExprKind::Move(Box::new(e)) }
        }
    }

    /// Reports a use of a resource whose root local was moved or is not
    /// definitely assigned.
    pub fn diagnose_prechecked_affine_expr_moved(&mut self, scopes: &LocalScopes, expr: &TExpr)
        ensures
            final(self).same_context(*old(self)),
            final(self).diagnostics@ == old(self).diagnostics@ + moved_use_diags(*old(self), *scopes, *expr),
    {
        let ghost start = *self;
        if !self.type_is_affine(&expr.ty) {
            assert(self.diagnostics@ =~= start.diagnostics@ + moved_use_diags(start, *scopes, *expr));
            return ;
        }
        let id = match lvalue_root_local(expr) {
            Some(id) => id,
            None => {
                assert(self.diagnostics@ =~= start.diagnostics@ + moved_use_diags(start, *scopes, *expr));
                return ;
            },
        };
        let i = match scopes.position(id) {
            Some(i) => i,
            None => {
                assert(self.diagnostics@ =~= start.diagnostics@ + moved_use_diags(start, *scopes, *expr));
                return ;
            },
        };
        let b = &scopes.bindings[i];
        match b.init_state {
            InitState::Assigned => {
                assert(self.diagnostics@ =~= start.diagnostics@ + moved_use_diags(start, *scopes, *expr));
            },
            InitState::Moved | InitState::MaybeMoved => {
                self.report(expr.span, DiagKind::UseOfMovedResource { name: b.name });
            },
            _ => {
                self.report(expr.span, DiagKind::NotDefinitelyAssigned { name: b.name });
            },
        }
    }
}

} // verus!
