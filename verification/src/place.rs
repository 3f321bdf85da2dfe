//! Checking a place expression: what it denotes, its type, and whether it
//! may be written.
use vstd::prelude::*;
use crate::affine::affine;
use crate::asyncty::{project_state, select_state};
use crate::capability::{cache_valid, lemma_affine_context_pub, lemma_cache_valid_context};
use crate::boundary::bindings_of;
use crate::capability_checks::lemma_all_constraint_failures_context;
use crate::checker::generic_names;
use crate::lookup::template_of;
use crate::checker::{diag, TypeChecker};
use crate::diag::{DiagKind, Diagnostic, Span};
use crate::field::{field_lookup, named_field_lookup};
use crate::lvalue::{access_from_view, access_of_view, CheckedLvalue, ReadOnlyReason};
use crate::props::is_integer_ty;
use crate::texpr::{binding_index, InitState, LocalScopes, LvalueAccess, TExpr, TExprKind, UnaryOp};
use crate::ty::{copy_ty, StateKey, Ty, ViewMutability};

verus! {

/// A place expression as written, in the forms a place can take.  The
/// operands that are ordinary expressions (the pointer of `->`, the
/// indexed value and the index, the operand of `*`) come checked, `None`
/// where checking them failed.
#[derive(Debug, PartialEq)]
pub enum PlaceKind {
    /// a name: the local it resolved to, if any, and the name as written
    Name { local: Option<u64>, display: u64 },
    /// `base.field`
    Field { base: Box<Place>, field: u64, field_span: Span },
    /// `pointer->field`
    Arrow { pointer: Option<TExpr>, field: u64, field_span: Span },
    /// `base[index]`: the base as a place, and checked as a value
    Index { base: Box<Place>, base_value: Option<TExpr>, index: Option<TExpr> },
    /// `*operand`
    Deref { operand: Option<TExpr> },
    /// any other expression
    Other,
}

#[derive(Debug, PartialEq)]
pub struct Place {
    pub span: Span,
    pub kind: PlaceKind,
}

/// A place reached through a view of mutability `m`: writable through a
/// mutable view, else read-only for `reason`.
pub open spec fn through_view(e: TExpr, m: ViewMutability, reason: ReadOnlyReason) -> CheckedLvalue {
    CheckedLvalue {
        expr: e,
        access: access_of_view(m),
        read_only_reason: if m == ViewMutability::Mutable {
            None
        } else {
            Some(reason)
        },
    }
}

/// A place within a checked place `b`, with its access.
pub open spec fn within(b: CheckedLvalue, e: TExpr) -> CheckedLvalue {
    CheckedLvalue { expr: e, access: b.access, read_only_reason: b.read_only_reason }
}

/// The type an element of an opaque value has, with the state recorded
/// for its elements projected onto it.
pub open spec fn opaque_element(tc: TypeChecker, elem: Ty, state: crate::ty::StateList) -> Ty {
    project_state(tc.program.std, elem, select_state(state, StateKey::Unnamed, true))
}

/// Checks place `pl` (with `require_assigned`: a name must denote a
/// definitely assigned local): the checked place, if any, and what is
/// reported.  A name denotes its local (with the type flowing in it) and
/// is writable when the local is mutable and not captured; a field of a
/// place shares its access; `->` needs a non-null pointer and `*` a
/// pointer (a nullable one is reported, and the place then has the unknown
/// type) and give the pointer's access; an index must be an integer, and
/// an element of a slice has the slice's access, an element of an array
/// the array place's; other expressions are not places.
pub open spec fn place_check(tc: TypeChecker, scopes: LocalScopes, pl: Place, require_assigned: bool) -> (
    Option<CheckedLvalue>,
    Seq<Diagnostic>,
)
    decreases pl, 1int,
{
    match pl.kind {
        PlaceKind::Name { .. } => place_name(tc, scopes, pl, require_assigned),
        PlaceKind::Field { .. } => place_field(tc, scopes, pl, require_assigned),
        PlaceKind::Arrow { .. } => place_arrow(tc, scopes, pl, require_assigned),
        PlaceKind::Index { .. } => place_index(tc, scopes, pl, require_assigned),
        PlaceKind::Deref { .. } => place_deref(tc, scopes, pl, require_assigned),
        PlaceKind::Other => (None, seq![diag(pl.span, DiagKind::NotAssignable)]),
    }
}

/// A name (see [`place_check`]).
pub open spec fn place_name(tc: TypeChecker, scopes: LocalScopes, pl: Place, require_assigned: bool) -> (
    Option<CheckedLvalue>,
    Seq<Diagnostic>,
)
{
    let span = pl.span;
    match pl.kind {
        PlaceKind::Name { local, display } => match local {
            None => (None, seq![diag(span, DiagKind::UnresolvedLocal { name: display })]),
            Some(id) => match binding_index(scopes, id) {
                None => (None, seq![diag(span, DiagKind::UnresolvedLocal { name: display })]),
                Some(i) => {
                    let b = scopes.bindings@[i];
                    let bty = match b.flow_ty {
                        Some(t) => t,
                        None => b.ty,
                    };
                    let ds = if !require_assigned || b.init_state == InitState::Assigned {
                        seq![]
                    } else if (b.init_state == InitState::Moved || b.init_state == InitState::MaybeMoved) && affine(
                        tc,
                        bty,
                    ) {
                        seq![diag(span, DiagKind::UseOfMovedResource { name: b.name })]
                    } else {
                        seq![diag(span, DiagKind::NotDefinitelyAssigned { name: b.name })]
                    };
                    let e = TExpr { span, ty: bty, kind: TExprKind::Local(id) };
                    (
                        Some(
                            if b.captured {
                                CheckedLvalue {
                                    expr: e,
                                    access: LvalueAccess::ReadOnly,
                                    read_only_reason: Some(ReadOnlyReason::CapturedBinding(b.name)),
                                }
                            } else if b.mutable {
                                CheckedLvalue { expr: e, access: LvalueAccess::Writable, read_only_reason: None }
                            } else {
                                CheckedLvalue {
                                    expr: e,
                                    access: LvalueAccess::ReadOnly,
                                    read_only_reason: Some(ReadOnlyReason::ImmutableBinding(b.name)),
                                }
                            },
                        ),
                        ds,
                    )
                },
            },
        },
        _ => (None, seq![]),
    }
}

/// A field of a place.
pub open spec fn place_field(tc: TypeChecker, scopes: LocalScopes, pl: Place, require_assigned: bool) -> (
    Option<CheckedLvalue>,
    Seq<Diagnostic>,
)
    decreases pl, 0int,
{
    let span = pl.span;
    match pl.kind {
        PlaceKind::Field { base, field, field_span } => {
            let b = place_check(tc, scopes, *base, true);
            match b.0 {
                None => (None, b.1),
                Some(bl) => {
                    let f = field_lookup(tc, bl.expr.ty, field, field_span);
                    match f.0 {
                        None => (None, b.1 + f.1),
                        Some(t) => (
                            Some(within(bl, TExpr { span, ty: t, kind: TExprKind::Field { base: Box::new(bl.expr), field } })),
                            b.1 + f.1,
                        ),
                    }
                },
            }
        },
        _ => (None, seq![]),
    }
}

/// A field through a pointer.
pub open spec fn place_arrow(tc: TypeChecker, scopes: LocalScopes, pl: Place, require_assigned: bool) -> (
    Option<CheckedLvalue>,
    Seq<Diagnostic>,
)
{
    let span = pl.span;
    match pl.kind {
        PlaceKind::Arrow { pointer, field, field_span } => match pointer {
            None => (None, seq![]),
            Some(pe) => match pe.ty {
                Ty::Pointer { nullable: false, mutability, inner } => {
                    let f = field_lookup(tc, *inner, field, field_span);
                    match f.0 {
                        None => (None, f.1),
                        Some(t) => (
                            Some(
                                through_view(
                                    TExpr { span, ty: t, kind: TExprKind::Arrow { base: Box::new(pe), field } },
                                    mutability,
                                    ReadOnlyReason::ReadOnlyPointer,
                                ),
                            ),
                            f.1,
                        ),
                    }
                },
                _ => (None, seq![diag(pe.span, DiagKind::ArrowNeedsNonNullPointer { ty: pe.ty })]),
            },
        },
        _ => (None, seq![]),
    }
}

/// An element of an indexed value.
pub open spec fn place_index(tc: TypeChecker, scopes: LocalScopes, pl: Place, require_assigned: bool) -> (
    Option<CheckedLvalue>,
    Seq<Diagnostic>,
)
    decreases pl, 0int,
{
    let span = pl.span;
    match pl.kind {
        PlaceKind::Index { base, base_value, index } => match base_value {
            None => (None, seq![]),
            Some(bv) => match index {
                None => (None, seq![]),
                Some(ix) => {
                    let d0: Seq<Diagnostic> = if is_integer_ty(ix.ty) {
                        seq![]
                    } else {
                        seq![diag(ix.span, DiagKind::IndexMustBeInteger)]
                    };
                    let (elem_of_array, elem_of_slice, view) = match bv.ty {
                        Ty::OpaqueState { base: ob, state } => match *ob {
                            Ty::Slice { mutability, elem } => (
                                None,
                                Some(opaque_element(tc, *elem, state)),
                                mutability,
                            ),
                            Ty::Array { elem, .. } => (Some(opaque_element(tc, *elem, state)), None, ViewMutability::Mutable),
                            _ => (None, None, ViewMutability::Mutable),
                        },
                        Ty::Slice { mutability, elem } => (None, Some(*elem), mutability),
                        Ty::Array { elem, .. } => (Some(*elem), None, ViewMutability::Mutable),
                        _ => (None, None, ViewMutability::Mutable),
                    };
                    match elem_of_slice {
                        Some(t) => (
                            Some(
                                through_view(
                                    TExpr { span, ty: t, kind: TExprKind::Index { base: Box::new(bv), index: Box::new(ix) } },
                                    view,
                                    ReadOnlyReason::ReadOnlySlice,
                                ),
                            ),
                            d0,
                        ),
                        None => match elem_of_array {
                            Some(t) => {
                                let b = place_check(tc, scopes, *base, true);
                                match b.0 {
                                    None => (None, d0 + b.1),
                                    Some(bl) => (
                                        Some(
                                            within(
                                                bl,
                                                TExpr {
                                                    span,
                                                    ty: t,
                                                    kind: TExprKind::Index { base: Box::new(bl.expr), index: Box::new(ix) },
                                                },
                                            ),
                                        ),
                                        d0 + b.1,
                                    ),
                                }
                            },
                            None => (None, d0.push(diag(bv.span, DiagKind::CannotIndex { ty: indexed_ty(bv.ty) }))),
                        },
                    }
                },
            },
        },
        _ => (None, seq![]),
    }
}

/// The target of a pointer.
pub open spec fn place_deref(tc: TypeChecker, scopes: LocalScopes, pl: Place, require_assigned: bool) -> (
    Option<CheckedLvalue>,
    Seq<Diagnostic>,
)
{
    let span = pl.span;
    match pl.kind {
        PlaceKind::Deref { operand } => match operand {
            None => (None, seq![]),
            Some(inner) => {
                let (t, m, ds): (Ty, ViewMutability, Seq<Diagnostic>) = match inner.ty {
                    Ty::Pointer { nullable: false, mutability, inner: it } => (*it, mutability, seq![]),
                    Ty::Pointer { nullable: true, .. } => (
                        Ty::Unknown,
                        ViewMutability::ReadOnly,
                        seq![diag(inner.span, DiagKind::DerefNeedsNonNullPointer { ty: inner.ty })],
                    ),
                    _ => (
                        Ty::Unknown,
                        ViewMutability::ReadOnly,
                        seq![diag(inner.span, DiagKind::CannotDereference { ty: inner.ty })],
                    ),
                };
                (
                    Some(
                        through_view(
                            TExpr { span, ty: t, kind: TExprKind::Unary { op: UnaryOp::Deref, expr: Box::new(inner) } },
                            m,
                            ReadOnlyReason::ReadOnlyPointer,
                        ),
                    ),
                    ds,
                )
            },
        },
        _ => (None, seq![]),
    }
}

/// The type named in a `cannot index` report: the base of a value with
/// hidden state, else the value's type.
pub open spec fn indexed_ty(t: Ty) -> Ty {
    match t {
        Ty::OpaqueState { base, .. } => *base,
        _ => t,
    }
}


proof fn lemma_field_lookup_context(a: TypeChecker, b: TypeChecker, view: Ty, field: u64, span: Span)
    requires
        a.program == b.program,
        a.state == b.state,
    ensures
        field_lookup(a, view, field, span) == field_lookup(b, view, field, span),
    decreases view,
{
    match view {
        Ty::OpaqueState { base, .. } => lemma_field_lookup_context(a, b, *base, field, span),
        Ty::Named { name, args } => {
            match template_of(a.program, name) {
                Some(tpl) => {
                    lemma_all_constraint_failures_context(
                        a,
                        b,
                        tpl.generics@,
                        bindings_of(generic_names(tpl.generics@), args),
                        span,
                    );
                },
                None => {},
            }
            assert(named_field_lookup(a, view, name, args, field, span) == named_field_lookup(
                b,
                view,
                name,
                args,
                field,
                span,
            ));
        },
        _ => {},
    }
}

/// What checking a place gives depends only on the program and the
/// checking state.
pub proof fn lemma_place_check_context(a: TypeChecker, b: TypeChecker, scopes: LocalScopes, pl: Place, ra: bool)
    requires
        a.program == b.program,
        a.state == b.state,
    ensures
        place_check(a, scopes, pl, ra) == place_check(b, scopes, pl, ra),
    decreases pl,
{
    match pl.kind {
        PlaceKind::Name { local, .. } => {
            if let Some(id) = local {
                if let Some(i) = binding_index(scopes, id) {
                    let bd = scopes.bindings@[i];
                    let bty = match bd.flow_ty {
                        Some(t) => t,
                        None => bd.ty,
                    };
                    lemma_affine_context_pub(a, b, bty);
                }
            }
        },
        PlaceKind::Field { base, field, field_span } => {
            lemma_place_check_context(a, b, scopes, *base, true);
            let bb = place_check(a, scopes, *base, true);
            if let Some(bl) = bb.0 {
                lemma_field_lookup_context(a, b, bl.expr.ty, field, field_span);
            }
        },
        PlaceKind::Arrow { pointer, field, field_span } => {
            if let Some(pe) = pointer {
                if let Ty::Pointer { inner, .. } = pe.ty {
                    lemma_field_lookup_context(a, b, *inner, field, field_span);
                }
            }
        },
        PlaceKind::Index { base, .. } => {
            lemma_place_check_context(a, b, scopes, *base, true);
        },
        _ => {},
    }
}

fn view_reason(m: ViewMutability, reason: ReadOnlyReason) -> (r: Option<ReadOnlyReason>)
    ensures
        r == (if m == ViewMutability::Mutable {
            None
        } else {
            Some(reason)
        }),
{
    match m {
        ViewMutability::Mutable => None,
        ViewMutability::ReadOnly => Some(reason),
    }
}

impl TypeChecker {
    /// Checks a place expression (see [`place_check`]): the checked place,
    /// or `None` after reporting why it is not one.
    pub fn check_lvalue(&mut self, scopes: &LocalScopes, place: Place, require_assigned: bool) -> (r: Option<
        CheckedLvalue,
    >)
        requires
            cache_valid(*old(self)),
        ensures
            r == place_check(*old(self), *scopes, place, require_assigned).0,
            final(self).diagnostics@ == old(self).diagnostics@ + place_check(
                *old(self),
                *scopes,
                place,
                require_assigned,
            ).1,
            final(self).same_program_and_state(*old(self)),
            cache_valid(*final(self)),
        decreases place, 1int,
    {
        let ghost tc0 = *self;
        match place.kind {
            PlaceKind::Name { .. } => self.check_place_name(scopes, place, require_assigned),
            PlaceKind::Field { .. } => self.check_place_field(scopes, place, require_assigned),
            PlaceKind::Arrow { .. } => self.check_place_arrow(scopes, place, require_assigned),
            PlaceKind::Index { .. } => self.check_place_index(scopes, place, require_assigned),
            PlaceKind::Deref { .. } => self.check_place_deref(scopes, place, require_assigned),
            PlaceKind::Other => {
                self.report(place.span, DiagKind::NotAssignable);
                proof {
                    lemma_cache_valid_context(tc0, *self);
                }
                assert(self.diagnostics@ =~= tc0.diagnostics@ + seq![diag(place.span, DiagKind::NotAssignable)]);
                None
            },
        }
    }

    fn check_place_name(&mut self, scopes: &LocalScopes, place: Place, require_assigned: bool) -> (r: Option<CheckedLvalue>)
        requires
            cache_valid(*old(self)),
            place.kind is Name,
        ensures
            r == place_name(*old(self), *scopes, place, require_assigned).0,
            final(self).diagnostics@ == old(self).diagnostics@ + place_name(*old(self), *scopes, place, require_assigned).1,
            final(self).same_program_and_state(*old(self)),
            cache_valid(*final(self)),
    {
        let ghost tc0 = *self;
        let ghost pl = place;
        let ghost out = place_name(tc0, *scopes, pl, require_assigned);
        let span = place.span;
        match place.kind {
            PlaceKind::Name { local, display } => {
                let found = match local {
                    Some(id) => match scopes.position(id) {
                        Some(i) => Some((id, i)),
                        None => None,
                    },
                    None => None,
                };
                match found {
                    None => {
                        self.report(span, DiagKind::UnresolvedLocal { name: display });
                        proof {
                            lemma_cache_valid_context(tc0, *self);
                        }
                        assert(self.diagnostics@ =~= tc0.diagnostics@ + out.1);
                        None
                    },
                    Some((id, i)) => {
                        let b = &scopes.bindings[i];
                        let bty = match &b.flow_ty {
                            Some(t) => copy_ty(t),
                            None => copy_ty(&b.ty),
                        };
                        if require_assigned && b.init_state != InitState::Assigned {
                            let moved = b.init_state == InitState::Moved || b.init_state == InitState::MaybeMoved;
                            if moved && self.type_is_affine(&bty) {
                                self.report(span, DiagKind::UseOfMovedResource { name: b.name });
                            } else {
                                self.report(span, DiagKind::NotDefinitelyAssigned { name: b.name });
                            }
                            proof {
                                lemma_cache_valid_context(tc0, *self);
                            }
                        }
                        assert(self.diagnostics@ =~= tc0.diagnostics@ + out.1);
                        let e = TExpr { span, ty: bty, kind: TExprKind::Local(id) };
                        if b.captured {
                            Some(
                                CheckedLvalue {
                                    expr: e,
                                    access: LvalueAccess::ReadOnly,
                                    read_only_reason: Some(ReadOnlyReason::CapturedBinding(b.name)),
                                },
                            )
                        } else if b.mutable {
                            Some(CheckedLvalue { expr: e, access: LvalueAccess::Writable, read_only_reason: None })
                        } else {
                            Some(
                                CheckedLvalue {
                                    expr: e,
                                    access: LvalueAccess::ReadOnly,
                                    read_only_reason: Some(ReadOnlyReason::ImmutableBinding(b.name)),
                                },
                            )
                        }
                    },
                }
            },
            _ => None,
        }
    }

    fn check_place_field(&mut self, scopes: &LocalScopes, place: Place, require_assigned: bool) -> (r: Option<CheckedLvalue>)
        requires
            cache_valid(*old(self)),
            place.kind is Field,
        ensures
            r == place_field(*old(self), *scopes, place, require_assigned).0,
            final(self).diagnostics@ == old(self).diagnostics@ + place_field(*old(self), *scopes, place, require_assigned).1,
            final(self).same_program_and_state(*old(self)),
            cache_valid(*final(self)),
        decreases place, 0int,
    {
        let ghost tc0 = *self;
        let ghost pl = place;
        let ghost out = place_field(tc0, *scopes, pl, require_assigned);
        let span = place.span;
        match place.kind {
            PlaceKind::Field { base, field, field_span } => {
                let b = self.check_lvalue(scopes, *base, true);
                match b {
                    None => None,
                    Some(bl) => {
                        let ghost mid = *self;
                        let ft = self.field_ty(&bl.expr.ty, field, field_span);
                        proof {
                            lemma_field_lookup_context(tc0, mid, bl.expr.ty, field, field_span);
                        }
                        assert(self.diagnostics@ =~= tc0.diagnostics@ + out.1);
                        match ft {
                            None => None,
                            Some(t) => Some(
                                CheckedLvalue {
                                    expr: TExpr { span, ty: t, kind: TExprKind::Field { base: Box::new(bl.expr), field } },
                                    access: bl.access,
                                    read_only_reason: bl.read_only_reason,
                                },
                            ),
                        }
                    },
                }
            },
            _ => None,
        }
    }

    fn check_place_arrow(&mut self, scopes: &LocalScopes, place: Place, require_assigned: bool) -> (r: Option<CheckedLvalue>)
        requires
            cache_valid(*old(self)),
            place.kind is Arrow,
        ensures
            r == place_arrow(*old(self), *scopes, place, require_assigned).0,
            final(self).diagnostics@ == old(self).diagnostics@ + place_arrow(*old(self), *scopes, place, require_assigned).1,
            final(self).same_program_and_state(*old(self)),
            cache_valid(*final(self)),
    {
        let ghost tc0 = *self;
        let ghost pl = place;
        let ghost out = place_arrow(tc0, *scopes, pl, require_assigned);
        let span = place.span;
        match place.kind {
            PlaceKind::Arrow { pointer, field, field_span } => match pointer {
                None => {
                    assert(self.diagnostics@ =~= tc0.diagnostics@ + out.1);
                    None
                },
                Some(pe) => {
                    let pty = copy_ty(&pe.ty);
                    match pty {
                        Ty::Pointer { nullable: false, mutability, inner } => {
                            let ft = self.field_ty(&inner, field, field_span);
                            assert(self.diagnostics@ =~= tc0.diagnostics@ + out.1);
                            match ft {
                                None => None,
                                Some(t) => Some(
                                    CheckedLvalue {
                                        expr: TExpr { span, ty: t, kind: TExprKind::Arrow { base: Box::new(pe), field } },
                                        access: access_from_view(mutability),
                                        read_only_reason: view_reason(mutability, ReadOnlyReason::ReadOnlyPointer),
                                    },
                                ),
                            }
                        },
                        other => {
                            self.report(pe.span, DiagKind::ArrowNeedsNonNullPointer { ty: other });
                            proof {
                                lemma_cache_valid_context(tc0, *self);
                            }
                            assert(self.diagnostics@ =~= tc0.diagnostics@ + out.1);
                            None
                        },
                    }
                },
            },
            _ => None,
        }
    }

    fn check_place_index(&mut self, scopes: &LocalScopes, place: Place, require_assigned: bool) -> (r: Option<CheckedLvalue>)
        requires
            cache_valid(*old(self)),
            place.kind is Index,
        ensures
            r == place_index(*old(self), *scopes, place, require_assigned).0,
            final(self).diagnostics@ == old(self).diagnostics@ + place_index(*old(self), *scopes, place, require_assigned).1,
            final(self).same_program_and_state(*old(self)),
            cache_valid(*final(self)),
        decreases place, 0int,
    {
        let ghost tc0 = *self;
        let ghost pl = place;
        let ghost out = place_index(tc0, *scopes, pl, require_assigned);
        let span = place.span;
        match place.kind {
            PlaceKind::Index { base, base_value, index } => {
                let bv = match base_value {
                    None => {
                        assert(self.diagnostics@ =~= tc0.diagnostics@ + out.1);
                        return None;
                    },
                    Some(bv) => bv,
                };
                let ix = match index {
                    None => {
                        assert(self.diagnostics@ =~= tc0.diagnostics@ + out.1);
                        return None;
                    },
                    Some(ix) => ix,
                };
                if !ix.ty.is_integer() {
                    self.report(ix.span, DiagKind::IndexMustBeInteger);
                    proof {
                        lemma_cache_valid_context(tc0, *self);
                    }
                }
                let ghost mid = *self;
                let ghost d0: Seq<Diagnostic> = if is_integer_ty(ix.ty) {
                    seq![]
                } else {
                    seq![diag(ix.span, DiagKind::IndexMustBeInteger)]
                };
                assert(mid.diagnostics@ =~= tc0.diagnostics@ + d0);
                let bty = copy_ty(&bv.ty);
                let (array_elem, slice_elem, view): (Option<Ty>, Option<Ty>, ViewMutability) = match bty {
                    Ty::OpaqueState { base: ob, state } => match *ob {
                        Ty::Slice { mutability, elem } => (
                            None,
                            Some(self.project_opaque_index_ty(*elem, &state)),
                            mutability,
                        ),
                        Ty::Array { elem, .. } => (
                            Some(self.project_opaque_index_ty(*elem, &state)),
                            None,
                            ViewMutability::Mutable,
                        ),
                        _ => (None, None, ViewMutability::Mutable),
                    },
                    Ty::Slice { mutability, elem } => (None, Some(*elem), mutability),
                    Ty::Array { elem, .. } => (Some(*elem), None, ViewMutability::Mutable),
                    _ => (None, None, ViewMutability::Mutable),
                };
                match slice_elem {
                    Some(t) => {
                        assert(self.diagnostics@ =~= tc0.diagnostics@ + out.1);
                        Some(
                            CheckedLvalue {
                                expr: TExpr {
                                    span,
                                    ty: t,
                                    kind: TExprKind::Index { base: Box::new(bv), index: Box::new(ix) },
                                },
                                access: access_from_view(view),
                                read_only_reason: view_reason(view, ReadOnlyReason::ReadOnlySlice),
                            },
                        )
                    },
                    None => match array_elem {
                        Some(t) => {
                            proof {
                                lemma_place_check_context(tc0, mid, *scopes, *base, true);
                            }
                            let b = self.check_lvalue(scopes, *base, true);
                            assert(self.diagnostics@ =~= tc0.diagnostics@ + out.1);
                            match b {
                                None => None,
                                Some(bl) => Some(
                                    CheckedLvalue {
                                        expr: TExpr {
                                            span,
                                            ty: t,
                                            kind: TExprKind::Index { base: Box::new(bl.expr), index: Box::new(ix) },
                                        },
                                        access: bl.access,
                                        read_only_reason: bl.read_only_reason,
                                    },
                                ),
                            }
                        },
                        None => {
                            let shown = match &bv.ty {
                                Ty::OpaqueState { base: ob, .. } => copy_ty(ob),
                                other => copy_ty(other),
                            };
                            self.report(bv.span, DiagKind::CannotIndex { ty: shown });
                            proof {
                                lemma_cache_valid_context(tc0, *self);
                            }
                            assert(self.diagnostics@ =~= tc0.diagnostics@ + out.1);
                            None
                        },
                    },
                }
            },
            _ => None,
        }
    }

    fn check_place_deref(&mut self, scopes: &LocalScopes, place: Place, require_assigned: bool) -> (r: Option<CheckedLvalue>)
        requires
            cache_valid(*old(self)),
            place.kind is Deref,
        ensures
            r == place_deref(*old(self), *scopes, place, require_assigned).0,
            final(self).diagnostics@ == old(self).diagnostics@ + place_deref(*old(self), *scopes, place, require_assigned).1,
            final(self).same_program_and_state(*old(self)),
            cache_valid(*final(self)),
    {
        let ghost tc0 = *self;
        let ghost pl = place;
        let ghost out = place_deref(tc0, *scopes, pl, require_assigned);
        let span = place.span;
        match place.kind {
            PlaceKind::Deref { operand } => match operand {
                None => {
                    assert(self.diagnostics@ =~= tc0.diagnostics@ + out.1);
                    None
                },
                Some(inner) => {
                    let ity = copy_ty(&inner.ty);
                    let (t, m): (Ty, ViewMutability) = match ity {
                        Ty::Pointer { nullable: false, mutability, inner: it } => (*it, mutability),
                        Ty::Pointer { nullable: true, .. } => {
                            self.report(inner.span, DiagKind::DerefNeedsNonNullPointer { ty: copy_ty(&inner.ty) });
                            (Ty::Unknown, ViewMutability::ReadOnly)
                        },
                        _ => {
                            self.report(inner.span, DiagKind::CannotDereference { ty: copy_ty(&inner.ty) });
                            (Ty::Unknown, ViewMutability::ReadOnly)
                        },
                    };
                    proof {
                        lemma_cache_valid_context(tc0, *self);
                    }
                    assert(self.diagnostics@ =~= tc0.diagnostics@ + out.1);
                    Some(
                        CheckedLvalue {
                            expr: TExpr { span, ty: t, kind: TExprKind::Unary { op: UnaryOp::Deref, expr: Box::new(inner) } },
                            access: access_from_view(m),
                            read_only_reason: view_reason(m, ReadOnlyReason::ReadOnlyPointer),
                        },
                    )
                },
            },
            _ => None,
        }
    }

}

} // verus!
