//! Places, assignments, literals and suspension points of typed expressions.
use vstd::prelude::*;
use crate::affine::affine;
use crate::assign::{can_assign, future_accepts_generated, std_async_future_accepts_generated};
use crate::asyncty::opaque_state_of;
use crate::checker::{diag, StdDefs, TypeChecker};
use crate::diag::{text_of, DiagKind, Diagnostic, Span};
use crate::literal::{abs_limits, char_literal_byte, integer_literal_value};
use crate::props::is_integer_ty;
use crate::texpr::{
    binding_index, BinaryOp, InitState, Literal, LocalBinding, LocalScopes, LvalueAccess, TExpr,
    TExprKind, UnaryOp,
};
use crate::ty::{copy_state, copy_ty, Ty, ViewMutability};

verus! {

/// Why a place may not be written.
#[derive(Debug, PartialEq)]
pub enum ReadOnlyReason {
    /// it belongs to a binding captured by a closure
    CapturedBinding(u64),
    /// it belongs to an immutable binding
    ImmutableBinding(u64),
    /// it is reached through a read-only pointer
    ReadOnlyPointer,
    /// it is reached through a read-only slice
    ReadOnlySlice,
}

/// A checked place: its expression, whether it may be written, and why not.
#[derive(Debug, PartialEq)]
pub struct CheckedLvalue {
    pub expr: TExpr,
    pub access: LvalueAccess,
    pub read_only_reason: Option<ReadOnlyReason>,
}

/// The access a view of the given mutability gives to the place behind it.
pub open spec fn access_of_view(m: ViewMutability) -> LvalueAccess {
    match m {
        ViewMutability::Mutable => LvalueAccess::Writable,
        ViewMutability::ReadOnly => LvalueAccess::ReadOnly,
    }
}

pub(crate) fn access_from_view(m: ViewMutability) -> (r: LvalueAccess)
    ensures
        r == access_of_view(m),
{
    match m {
        ViewMutability::Mutable => LvalueAccess::Writable,
        ViewMutability::ReadOnly => LvalueAccess::ReadOnly,
    }
}

/// Whether the place an expression denotes may be written: a local declared
/// mutable and not captured; a field of a writable place; the target of a
/// pointer, or an element of a slice, by the mutability of the view; an
/// element of an array place by the array's access.
pub open spec fn lvalue_access(scopes: LocalScopes, e: TExpr) -> Option<LvalueAccess>
    decreases e,
{
    match e.kind {
        TExprKind::Local(id) => match binding_index(scopes, id) {
            Some(i) => {
                let b = scopes.bindings@[i];
                Some(
                    if !b.captured && b.mutable {
                        LvalueAccess::Writable
                    } else {
                        LvalueAccess::ReadOnly
                    },
                )
            },
            None => None,
        },
        TExprKind::Field { base, .. } => lvalue_access(scopes, *base),
        TExprKind::Arrow { base, .. } => match base.ty {
            Ty::Pointer { mutability, .. } => Some(access_of_view(mutability)),
            _ => None,
        },
        TExprKind::Index { base, .. } => match base.ty {
            Ty::Slice { mutability, .. } => Some(access_of_view(mutability)),
            Ty::Array { .. } => lvalue_access(scopes, *base),
            Ty::OpaqueState { base: opaque_base, .. } => match *opaque_base {
                Ty::Slice { mutability, .. } => Some(access_of_view(mutability)),
                Ty::Array { .. } => lvalue_access(scopes, *base),
                _ => None,
            },
            _ => None,
        },
        TExprKind::Unary { op: UnaryOp::Deref, expr } => match expr.ty {
            Ty::Pointer { mutability, .. } => Some(access_of_view(mutability)),
            _ => None,
        },
        _ => None,
    }
}

/// The type the value flowing in a variable has after assigning a value of
/// type `value` to storage of type `storage`, when it is more precise than
/// the storage type: the storage type carrying the value's hidden state, or
/// the generated future itself.
pub open spec fn assignment_flow(std: StdDefs, storage: Ty, value: Ty) -> Option<Ty> {
    let storage_base = match storage {
        Ty::OpaqueState { base, .. } => *base,
        _ => storage,
    };
    match value {
        Ty::OpaqueState { base, state } => if can_assign(storage_base, *base)
            || future_accepts_generated(std, storage_base, *base) {
            Some(opaque_state_of(storage_base, state))
        } else if can_assign(storage, *base) {
            Some(opaque_state_of(storage, state))
        } else {
            None
        },
        Ty::GeneratedFuture { .. } => if future_accepts_generated(std, storage_base, value) {
            Some(value)
        } else {
            None
        },
        _ => None,
    }
}

/// The binding of a local after an assignment of a value of type `value`
/// completes it.
pub open spec fn assigned_binding(std: StdDefs, b: LocalBinding, value: Ty) -> LocalBinding {
    LocalBinding { init_state: InitState::Assigned, flow_ty: assignment_flow(std, b.ty, value), ..b }
}

/// Whether evaluating an expression may suspend: it contains an `.await` or
/// an async `select` outside of any closure body.
pub open spec fn has_suspension(e: TExpr) -> bool
    decreases e,
{
    match e.kind {
        TExprKind::Await(_) => true,
        TExprKind::AsyncSelect(_) => true,
        TExprKind::Closure(_) => false,
        TExprKind::Field { base, .. } => has_suspension(*base),
        TExprKind::Arrow { base, .. } => has_suspension(*base),
        TExprKind::Index { base, index } => has_suspension(*base) || has_suspension(*index),
        TExprKind::Unary { expr, .. } => has_suspension(*expr),
        TExprKind::Binary { left, right, .. } => has_suspension(*left) || has_suspension(*right),
        TExprKind::Other(args) => any_suspension(args@),
        TExprKind::ErrorBox { expr, .. } => has_suspension(*expr),
        TExprKind::UnsafeBlock { statements, value } => any_suspension(statements@) || match value {
            Some(v) => has_suspension(*v),
            None => false,
        },
        TExprKind::Cast { expr, .. } => has_suspension(*expr),
        TExprKind::Move(inner) => has_suspension(*inner),
        _ => false,
    }
}

pub open spec fn any_suspension(s: Seq<TExpr>) -> bool
    decreases s,
{
    if s.len() == 0 {
        false
    } else {
        has_suspension(s[0]) || any_suspension(s.subrange(1, s.len() as int))
    }
}

/// The type of an integer literal: the expected type when it is an integer,
/// `char` or C spelling type, else `i64`.
pub open spec fn integer_literal_ty(expected: Option<Ty>) -> Ty {
    match expected {
        Some(t) if is_integer_ty(t) || t is Char || t is CSpelling => t,
        _ => Ty::I64,
    }
}

/// The type of a floating-point literal: the expected type when it is a
/// floating-point or C spelling type, else `f64`.
pub open spec fn float_literal_ty(expected: Option<Ty>) -> Ty {
    match expected {
        Some(t) if t is Float32 || t is Float64 || t is CSpelling => t,
        _ => Ty::Float64,
    }
}

/// The type of a literal checked against an optional expected type.
pub open spec fn literal_ty(literal: Literal, expected: Option<Ty>) -> Ty {
    match literal {
        Literal::Integer(_) => integer_literal_ty(expected),
        Literal::Float(_) => float_literal_ty(expected),
        Literal::Char(_) => Ty::Char,
        Literal::String(_) => match expected {
            Some(Ty::Slice { mutability: ViewMutability::ReadOnly, elem }) if *elem is Char
                || *elem is U8 => Ty::Slice { mutability: ViewMutability::ReadOnly, elem },
            _ => Ty::Slice { mutability: ViewMutability::ReadOnly, elem: Box::new(Ty::Char) },
        },
        Literal::Bool(_) => Ty::Bool,
        Literal::Null => match expected {
            Some(Ty::Pointer { inner, mutability, .. }) => Ty::Pointer {
                nullable: true,
                mutability,
                inner,
            },
            _ => Ty::Unknown,
        },
    }
}

/// The diagnostics checking a literal reports.
pub open spec fn literal_diags(span: Span, literal: Literal, expected: Option<Ty>) -> Seq<Diagnostic> {
    match literal {
        Literal::Integer(raw) => {
            let ty = integer_literal_ty(expected);
            if is_integer_ty(ty) || ty is Char {
                match integer_literal_value(raw@) {
                    None => seq![diag(span, DiagKind::IntegerLiteralInvalid)],
                    Some(value) => match abs_limits(ty) {
                        Some((_, max)) if value > max => seq![
                            diag(span, DiagKind::IntegerLiteralOutOfRange { literal: text_of(raw@), ty }),
                        ],
                        _ => Seq::empty(),
                    },
                }
            } else {
                Seq::empty()
            }
        },
        Literal::Char(raw) => if char_literal_byte(raw@) is None {
            seq![diag(span, DiagKind::CharLiteralNotSingleByte { literal: text_of(raw@) })]
        } else {
            Seq::empty()
        },
        Literal::Null => match expected {
            Some(Ty::Pointer { .. }) => Seq::empty(),
            _ => seq![diag(span, DiagKind::NullWithoutPointer)],
        },
        _ => Seq::empty(),
    }
}

/// The local at the root of a place built of fields and elements.
pub open spec fn root_local(e: TExpr) -> Option<u64>
    decreases e,
{
    match e.kind {
        TExprKind::Local(id) => Some(id),
        TExprKind::Field { base, .. } => root_local(*base),
        TExprKind::Index { base, .. } => root_local(*base),
        _ => None,
    }
}

/// A nullable pointer local compared with `null`, and the non-nullable
/// type it has where the comparison shows it is not null.
pub open spec fn null_comparison(candidate: TExpr, other: TExpr) -> Option<(u64, Ty)> {
    match (other.kind, candidate.kind, candidate.ty) {
        (
            TExprKind::Literal(Literal::Null),
            TExprKind::Local(id),
            Ty::Pointer { nullable: true, mutability, inner },
        ) => Some((id, Ty::Pointer { nullable: false, mutability, inner })),
        _ => None,
    }
}

/// The locals a condition shows not to be null when it evaluates to
/// `truth`, with their narrowed types: `x != null` when true, `x == null`
/// when false, and both sides of `&&` when true.
pub open spec fn narrowings(cond: TExpr, truth: bool) -> Seq<(u64, Ty)>
    decreases cond,
{
    match cond.kind {
        TExprKind::Binary { op, left, right } => if op == BinaryOp::Eq || op == BinaryOp::Ne {
            if (op == BinaryOp::Ne && truth) || (op == BinaryOp::Eq && !truth) {
                match null_comparison(*left, *right) {
                    Some(x) => seq![x],
                    None => match null_comparison(*right, *left) {
                        Some(x) => seq![x],
                        None => Seq::empty(),
                    },
                }
            } else {
                Seq::empty()
            }
        } else if op == BinaryOp::And && truth {
            narrowings(*left, true) + narrowings(*right, true)
        } else {
            Seq::empty()
        },
        _ => Seq::empty(),
    }
}

/// The local at the root of a place built of fields and elements.
pub fn lvalue_root_local(expr: &TExpr) -> (r: Option<u64>)
    ensures
        r == root_local(*expr),
    decreases expr,
{
    match &expr.kind {
        TExprKind::Local(id) => Some(*id),
        TExprKind::Field { base, .. } => lvalue_root_local(base),
        TExprKind::Index { base, .. } => lvalue_root_local(base),
        _ => None,
    }
}

/// A nullable pointer local compared with `null`, with its non-nullable
/// type.
pub fn nullable_comparison_local(candidate: &TExpr, other: &TExpr) -> (r: Option<(u64, Ty)>)
    ensures
        r == null_comparison(*candidate, *other),
{
    match (&other.kind, &candidate.kind, &candidate.ty) {
        (
            TExprKind::Literal(Literal::Null),
            TExprKind::Local(id),
            Ty::Pointer { nullable: true, mutability, inner },
        ) => Some((*id, Ty::Pointer { nullable: false, mutability: *mutability, inner: Box::new(copy_ty(inner)) })),
        _ => None,
    }
}

/// The locals a condition shows not to be null when it evaluates to
/// `truth`, with their narrowed types.
pub fn nullable_narrowings_from_condition(cond: &TExpr, truth: bool) -> (r: Vec<(u64, Ty)>)
    ensures
        r@ == narrowings(*cond, truth),
    decreases cond,
{
    match &cond.kind {
        TExprKind::Binary { op, left, right } => {
            if *op == BinaryOp::Eq || *op == BinaryOp::Ne {
                let should_narrow = (*op == BinaryOp::Ne && truth) || (*op == BinaryOp::Eq && !truth);
                if !should_narrow {
                    return Vec::new();
                }
                let found = match nullable_comparison_local(left, right) {
                    Some(x) => Some(x),
                    None => nullable_comparison_local(right, left),
                };
                let mut out: Vec<(u64, Ty)> = Vec::new();
                if let Some(x) = found {
                    out.push(x);
                }
                proof {
                    assert(out@ =~= narrowings(*cond, truth));
                }
                out
            } else if *op == BinaryOp::And && truth {
                let mut out = nullable_narrowings_from_condition(left, true);
                let mut more = nullable_narrowings_from_condition(right, true);
                out.append(&mut more);
                out
            } else {
                Vec::new()
            }
        },
        _ => Vec::new(),
    }
}

/// The diagnostic for writing a read-only place, by the reason it is
/// read-only.
pub open spec fn read_only_diag(scopes: LocalScopes, target: CheckedLvalue, span: Span) -> Diagnostic {
    match target.read_only_reason {
        Some(ReadOnlyReason::CapturedBinding(name)) => diag(span, DiagKind::MutateCapturedBinding { name }),
        Some(ReadOnlyReason::ImmutableBinding(name)) => if (match root_local(target.expr) {
            Some(id) => match binding_index(scopes, id) {
                Some(i) => scopes.bindings@[i].init_state == InitState::Unassigned,
                None => false,
            },
            None => false,
        }) {
            diag(span, DiagKind::PartialInitImmutable { name })
        } else {
            diag(span, DiagKind::MutateImmutableBinding { name })
        },
        Some(ReadOnlyReason::ReadOnlyPointer) => diag(span, DiagKind::WriteThroughReadOnlyPointer),
        Some(ReadOnlyReason::ReadOnlySlice) => diag(span, DiagKind::WriteThroughReadOnlySlice),
        None => diag(span, DiagKind::NotWritable),
    }
}

/// Whether a write to the immutable binding `b` initializes it, and the
/// diagnostic when it does not.
pub open spec fn immutable_write(b: LocalBinding, loop_depth: u64, span: Span) -> (bool, Seq<Diagnostic>) {
    match b.init_state {
        InitState::Unassigned => if b.declared_loop_depth < loop_depth {
            (false, seq![diag(span, DiagKind::InitImmutableInLoop { name: b.name })])
        } else {
            (true, Seq::empty())
        },
        InitState::Assigned => (false, seq![diag(span, DiagKind::InitImmutableTwice { name: b.name })]),
        InitState::Moved => (false, seq![diag(span, DiagKind::ReinitMovedImmutable { name: b.name })]),
        InitState::MaybeAssigned => (false, seq![diag(span, DiagKind::InitMaybeAssignedImmutable { name: b.name })]),
        InitState::MaybeMoved => (false, seq![diag(span, DiagKind::ReinitMaybeMovedImmutable { name: b.name })]),
    }
}

/// Whether an assignment may write the place `target`, and the diagnostics
/// when it may not: a resource part of a value may only be replaced inside
/// `unsafe`; a writable place may be written; a captured local never; an
/// immutable local only to initialize it once, outside of loops entered
/// after its declaration; other read-only places are reported by why they
/// are read-only.
pub open spec fn target_check(tc: TypeChecker, scopes: LocalScopes, target: CheckedLvalue, span: Span) -> (
    bool,
    Seq<Diagnostic>,
) {
    if affine(tc, target.expr.ty) && !(target.expr.kind is Local) && tc.state.unsafe_depth == 0 {
        (false, seq![diag(span, DiagKind::ReplaceResourceSubvalue { ty: target.expr.ty })])
    } else if target.access == LvalueAccess::Writable {
        (true, Seq::empty())
    } else {
        match target.expr.kind {
            TExprKind::Local(id) => match binding_index(scopes, id) {
                None => (false, Seq::empty()),
                Some(i) => {
                    let b = scopes.bindings@[i];
                    if b.captured {
                        (false, seq![diag(span, DiagKind::MutateCapturedBinding { name: b.name })])
                    } else if !b.mutable {
                        immutable_write(b, tc.state.loop_depth, span)
                    } else {
                        (false, seq![read_only_diag(scopes, target, span)])
                    }
                },
            },
            _ => (false, seq![read_only_diag(scopes, target, span)]),
        }
    }
}

fn copy_literal(l: &Literal) -> (r: Literal)
    ensures
        r == *l,
{
    match l {
        Literal::Integer(s) => Literal::Integer(s.clone()),
        Literal::Float(s) => Literal::Float(s.clone()),
        Literal::Char(s) => Literal::Char(s.clone()),
        Literal::String(s) => Literal::String(s.clone()),
        Literal::Bool(b) => Literal::Bool(*b),
        Literal::Null => Literal::Null,
    }
}

fn integer_literal_ty_exec(expected: Option<&Ty>) -> (r: Ty)
    ensures
        r == integer_literal_ty(match expected {
            Some(t) => Some(*t),
            None => None,
        }),
{
    match expected {
        Some(t) => {
            let fits = t.is_integer() || match t {
                Ty::Char => true,
                Ty::CSpelling(_) => true,
                _ => false,
            };
            if fits {
                copy_ty(t)
            } else {
                Ty::I64
            }
        },
        None => Ty::I64,
    }
}

impl TypeChecker {
    /// Whether the place an expression denotes may be written; `None` when
    /// the expression denotes no place.
    pub fn texpr_lvalue_access(&self, scopes: &LocalScopes, expr: &TExpr) -> (r: Option<LvalueAccess>)
        ensures
            r == lvalue_access(*scopes, *expr),
        decreases expr,
    {
        match &expr.kind {
            TExprKind::Local(id) => match scopes.position(*id) {
                Some(i) => {
                    let b = &scopes.bindings[i];
                    Some(
                        if !b.captured && b.mutable {
                            LvalueAccess::Writable
                        } else {
                            LvalueAccess::ReadOnly
                        },
                    )
                },
                None => None,
            },
            TExprKind::Field { base, .. } => self.texpr_lvalue_access(scopes, base),
            TExprKind::Arrow { base, .. } => match &base.ty {
                Ty::Pointer { mutability, .. } => Some(access_from_view(*mutability)),
                _ => None,
            },
            TExprKind::Index { base, .. } => match &base.ty {
                Ty::Slice { mutability, .. } => Some(access_from_view(*mutability)),
                Ty::Array { .. } => self.texpr_lvalue_access(scopes, base),
                Ty::OpaqueState { base: opaque_base, .. } => match &**opaque_base {
                    Ty::Slice { mutability, .. } => Some(access_from_view(*mutability)),
                    Ty::Array { .. } => self.texpr_lvalue_access(scopes, base),
                    _ => None,
                },
                _ => None,
            },
            TExprKind::Unary { op: UnaryOp::Deref, expr: inner } => match &inner.ty {
                Ty::Pointer { mutability, .. } => Some(access_from_view(*mutability)),
                _ => None,
            },
            _ => None,
        }
    }

    fn assignment_flow_ty(&self, storage_ty: &Ty, value_ty: &Ty) -> (r: Option<Ty>)
        ensures
            r == assignment_flow(self.program.std, *storage_ty, *value_ty),
    {
        let storage_base: &Ty = match storage_ty {
            Ty::OpaqueState { base, .. } => &**base,
            _ => storage_ty,
        };
        match value_ty {
            Ty::OpaqueState { base, state } => {
                if storage_base.can_assign_from(base) || std_async_future_accepts_generated(
                    &self.program.std,
                    storage_base,
                    base,
                ) {
                    Some(crate::asyncty::opaque_state_exec(copy_ty(storage_base), copy_state(state)))
                } else if storage_ty.can_assign_from(base) {
                    Some(crate::asyncty::opaque_state_exec(copy_ty(storage_ty), copy_state(state)))
                } else {
                    None
                }
            },
            Ty::GeneratedFuture { .. } => {
                if std_async_future_accepts_generated(&self.program.std, storage_base, value_ty) {
                    Some(copy_ty(value_ty))
                } else {
                    None
                }
            },
            _ => None,
        }
    }

    /// Marks the local an assignment writes as assigned, and records the
    /// type of the value now flowing in it.
    pub fn mark_assignment_complete(&mut self, scopes: &mut LocalScopes, target: &TExpr, value_ty: &Ty)
        ensures
            *final(self) == *old(self),
            final(scopes).bindings@ == match target.kind {
                TExprKind::Local(id) => match binding_index(*old(scopes), id) {
                    Some(i) => old(scopes).bindings@.update(
                        i,
                        assigned_binding(old(self).program.std, old(scopes).bindings@[i], *value_ty),
                    ),
                    None => old(scopes).bindings@,
                },
                _ => old(scopes).bindings@,
            },
    {
        if let TExprKind::Local(id) = &target.kind {
            if let Some(i) = scopes.position(*id) {
                let b = &scopes.bindings[i];
                let flow_ty = self.assignment_flow_ty(&b.ty, value_ty);
                let updated = LocalBinding {
                    id: b.id,
                    name: b.name,
                    ty: copy_ty(&b.ty),
                    flow_ty,
                    narrowed_ty: match &b.narrowed_ty {
                        Some(t) => Some(copy_ty(t)),
                        None => None,
                    },
                    init_state: InitState::Assigned,
                    mutable: b.mutable,
                    captured: b.captured,
                    declared_loop_depth: b.declared_loop_depth,
                };
                scopes.bindings.set(i, updated);
            }
        }
    }

    /// Whether evaluating an expression may suspend (an `.await` or an async
    /// `select` outside of closure bodies).
    pub fn expr_contains_async_suspension(&self, expr: &TExpr) -> (r: bool)
        ensures
            r == has_suspension(*expr),
        decreases expr,
    {
        match &expr.kind {
            TExprKind::Await(_) => true,
            TExprKind::AsyncSelect(_) => true,
            TExprKind::Closure(_) => false,
            TExprKind::Field { base, .. } => self.expr_contains_async_suspension(base),
            TExprKind::Arrow { base, .. } => self.expr_contains_async_suspension(base),
            TExprKind::Index { base, index } => self.expr_contains_async_suspension(base)
                || self.expr_contains_async_suspension(index),
            TExprKind::Unary { expr: inner, .. } => self.expr_contains_async_suspension(inner),
            TExprKind::Binary { left, right, .. } => self.expr_contains_async_suspension(left)
                || self.expr_contains_async_suspension(right),
            TExprKind::Other(args) => {
                proof {
                    assert(decreases_to!(*expr => expr.kind));
                    assert(decreases_to!(expr.kind => expr.kind->Other_0));
                    assert(decreases_to!(expr.kind->Other_0 => args@));
                }
                self.any_contains_async_suspension(args)
            },
            TExprKind::ErrorBox { expr: inner, .. } => self.expr_contains_async_suspension(inner),
            TExprKind::UnsafeBlock { statements, value } => {
                proof {
                    assert(decreases_to!(*expr => expr.kind));
                    assert(decreases_to!(expr.kind => expr.kind->UnsafeBlock_statements));
                    assert(decreases_to!(expr.kind->UnsafeBlock_statements => statements@));
                }
                if self.any_contains_async_suspension(statements) {
                    return true;
                }
                match value {
                    Some(v) => self.expr_contains_async_suspension(v),
                    None => false,
                }
            },
            TExprKind::Cast { expr: inner, .. } => self.expr_contains_async_suspension(inner),
            TExprKind::Move(inner) => self.expr_contains_async_suspension(inner),
            _ => false,
        }
    }

    fn any_contains_async_suspension(&self, items: &Vec<TExpr>) -> (r: bool)
        ensures
            r == any_suspension(items@),
        decreases items@,
    {
        let mut i: usize = 0;
        assert(items@.subrange(0, items@.len() as int) =~= items@);
        while i < items.len()
            invariant
                i <= items@.len(),
                any_suspension(items@) == any_suspension(items@.subrange(i as int, items@.len() as int)),
            decreases items@.len() - i,
        {
            proof {
                assert(decreases_to!(items@ => items@[i as int]));
            }
            let found = self.expr_contains_async_suspension(&items[i]);
            assert(items@.subrange(i as int, items@.len() as int).subrange(1, items@.len() - i)
                =~= items@.subrange(i + 1, items@.len() as int));
            if found {
                return true;
            }
            i += 1;
        }
        false
    }

    fn read_only_diag_exec(&self, scopes: &LocalScopes, target: &CheckedLvalue, span: Span) -> (r: Diagnostic)
        ensures
            r == read_only_diag(*scopes, *target, span),
    {
        match &target.read_only_reason {
            Some(ReadOnlyReason::CapturedBinding(name)) => Diagnostic {
                span,
                kind: DiagKind::MutateCapturedBinding { name: *name },
            },
            Some(ReadOnlyReason::ImmutableBinding(name)) => {
                let partial = match lvalue_root_local(&target.expr) {
                    Some(id) => match scopes.position(id) {
                        Some(i) => scopes.bindings[i].init_state == InitState::Unassigned,
                        None => false,
                    },
                    None => false,
                };
                if partial {
                    Diagnostic { span, kind: DiagKind::PartialInitImmutable { name: *name } }
                } else {
                    Diagnostic { span, kind: DiagKind::MutateImmutableBinding { name: *name } }
                }
            },
            Some(ReadOnlyReason::ReadOnlyPointer) => Diagnostic { span, kind: DiagKind::WriteThroughReadOnlyPointer },
            Some(ReadOnlyReason::ReadOnlySlice) => Diagnostic { span, kind: DiagKind::WriteThroughReadOnlySlice },
            None => Diagnostic { span, kind: DiagKind::NotWritable },
        }
    }

    /// Whether an assignment may write the place `target`; reports why not
    /// (see `target_check`).
    pub fn validate_assignment_target(&mut self, scopes: &LocalScopes, target: &CheckedLvalue, span: Span) -> (r:
        bool)
        ensures
            final(self).same_context(*old(self)),
            r == target_check(*old(self), *scopes, *target, span).0,
            final(self).diagnostics@ == old(self).diagnostics@ + target_check(
                *old(self),
                *scopes,
                *target,
                span,
            ).1,
    {
        let ghost start = *self;
        let is_local = match target.expr.kind {
            TExprKind::Local(_) => true,
            _ => false,
        };
        if self.type_is_affine(&target.expr.ty) && !is_local && self.state.unsafe_depth == 0 {
            self.report(span, DiagKind::ReplaceResourceSubvalue { ty: copy_ty(&target.expr.ty) });
            proof {
                assert(self.diagnostics@ =~= start.diagnostics@ + target_check(start, *scopes, *target, span).1);
            }
            return false;
        }
        if target.access == LvalueAccess::Writable {
            proof {
                assert(self.diagnostics@ =~= start.diagnostics@ + target_check(start, *scopes, *target, span).1);
            }
            return true;
        }
        if let TExprKind::Local(id) = &target.expr.kind {
            let i = match scopes.position(*id) {
                Some(i) => i,
                None => {
                    proof {
                        assert(self.diagnostics@ =~= start.diagnostics@ + target_check(start, *scopes, *target, span).1);
                    }
                    return false;
                },
            };
            let b = &scopes.bindings[i];
            if b.captured {
                self.report(span, DiagKind::MutateCapturedBinding { name: b.name });
                proof {
                    assert(self.diagnostics@ =~= start.diagnostics@ + target_check(start, *scopes, *target, span).1);
                }
                return false;
            }
            if !b.mutable {
                let kind = match b.init_state {
                    InitState::Unassigned => {
                        if b.declared_loop_depth < self.state.loop_depth {
                            DiagKind::InitImmutableInLoop { name: b.name }
                        } else {
                            proof {
                                assert(self.diagnostics@ =~= start.diagnostics@ + target_check(
                                    start,
                                    *scopes,
                                    *target,
                                    span,
                                ).1);
                            }
                            return true;
                        }
                    },
                    InitState::Assigned => DiagKind::InitImmutableTwice { name: b.name },
                    InitState::Moved => DiagKind::ReinitMovedImmutable { name: b.name },
                    InitState::MaybeAssigned => DiagKind::InitMaybeAssignedImmutable { name: b.name },
                    InitState::MaybeMoved => DiagKind::ReinitMaybeMovedImmutable { name: b.name },
                };
                self.report(span, kind);
                proof {
                    assert(self.diagnostics@ =~= start.diagnostics@ + target_check(start, *scopes, *target, span).1);
                }
                return false;
            }
        }
        let d = self.read_only_diag_exec(scopes, target, span);
        self.diagnostics.push(d);
        proof {
            assert(self.diagnostics@ =~= start.diagnostics@ + target_check(start, *scopes, *target, span).1);
        }
        false
    }

    /// Checks a literal against an optional expected type and gives its
    /// typed expression.  The range of a floating-point literal is checked
    /// by `check_float_literal_range`, which needs floating-point arithmetic
    /// and stands outside this library.
    pub fn check_literal(&mut self, span: Span, literal: &Literal, expected: Option<&Ty>) -> (r: Option<TExpr>)
        ensures
            final(self).same_context(*old(self)),
            final(self).diagnostics@ == old(self).diagnostics@ + literal_diags(
                span,
                *literal,
                match expected {
                    Some(t) => Some(*t),
                    None => None,
                },
            ),
            r == Some(
                TExpr {
                    span,
                    ty: literal_ty(
                        *literal,
                        match expected {
                            Some(t) => Some(*t),
                            None => None,
                        },
                    ),
                    kind: TExprKind::Literal(*literal),
                },
            ),
    {
        let ghost start = self.diagnostics@;
        let ty = match literal {
            Literal::Integer(raw) => {
                let ty = integer_literal_ty_exec(expected);
                let checked = ty.is_integer() || match ty {
                    Ty::Char => true,
                    _ => false,
                };
                if checked {
                    self.check_integer_literal_range(span, raw.as_str(), &ty, false);
                }
                ty
            },
            Literal::Float(_) => match expected {
                Some(t) => match t {
                    Ty::Float32 => Ty::Float32,
                    Ty::Float64 => Ty::Float64,
                    Ty::CSpelling(n) => Ty::CSpelling(*n),
                    _ => Ty::Float64,
                },
                None => Ty::Float64,
            },
            Literal::Char(raw) => {
                self.check_char_literal_range(span, raw.as_str());
                Ty::Char
            },
            Literal::String(_) => match expected {
                Some(Ty::Slice { mutability: ViewMutability::ReadOnly, elem }) => match &**elem {
                    Ty::Char => Ty::Slice { mutability: ViewMutability::ReadOnly, elem: Box::new(Ty::Char) },
                    Ty::U8 => Ty::Slice { mutability: ViewMutability::ReadOnly, elem: Box::new(Ty::U8) },
                    _ => Ty::Slice { mutability: ViewMutability::ReadOnly, elem: Box::new(Ty::Char) },
                },
                _ => Ty::Slice { mutability: ViewMutability::ReadOnly, elem: Box::new(Ty::Char) },
            },
            Literal::Bool(_) => Ty::Bool,
            Literal::Null => match expected {
                Some(Ty::Pointer { inner, mutability, .. }) => Ty::Pointer {
                    nullable: true,
                    mutability: *mutability,
                    inner: Box::new(copy_ty(inner)),
                },
                _ => {
                    self.report(span, DiagKind::NullWithoutPointer);
                    Ty::Unknown
                },
            },
        };
        proof {
            let e = match expected {
                Some(t) => Some(*t),
                None => None,
            };
            assert(self.diagnostics@ =~= start + literal_diags(span, *literal, e));
        }
        Some(TExpr { span, ty, kind: TExprKind::Literal(copy_literal(literal)) })
    }
}

} // verus!
