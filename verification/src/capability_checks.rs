//! Capability requirements: capability references, bounds of closures and
//! opaque returns, generic constraints, and the standard marker interfaces.
use vstd::prelude::*;
use crate::affine::affine;
use crate::capability::{
    cache_valid, cons, exact_impl, generic_impl, has_exact_impl, has_generic_impl, has_impl,
    implements, is_def, strip_opaque_state, ImplSearch,
};
use crate::checker::{diag, GenericInfo, ImplSig, TypeChecker};
use crate::props::{contains_generic, has_generic, receiver_of, receiver_ty_from_value_ty};
use crate::diag::{id_list, DiagKind, Diagnostic, IdList, Span};
use crate::generic::{match_list, subst_list, substitute_list, unify_list, Binding, lookup, lookup_binding};
use crate::ty::{copy_ty, copy_tys, Bounds, CapList, Ty, TyList};

verus! {

/// A reference to a capability: an interface and its non-receiver arguments.
#[derive(Debug, PartialEq)]
pub struct ConstraintRef {
    pub def_id: u64,
    pub args: TyList,
}

/// How a failed capability requirement is reported.
#[derive(Debug, Clone, Copy, PartialEq, Eq, Structural)]
pub enum BoundsSite {
    ClosureConversion,
    OpaqueReturn,
}

pub open spec fn required_kind(site: BoundsSite, source: Ty, def_id: u64, args: TyList) -> DiagKind {
    match site {
        BoundsSite::ClosureConversion => DiagKind::ClosureConversionRequires { source, def_id, args },
        BoundsSite::OpaqueReturn => DiagKind::OpaqueReturnRequires { concrete: source, def_id, args },
    }
}

pub open spec fn forbidden_kind(site: BoundsSite, source: Ty, def_id: u64, args: TyList) -> DiagKind {
    match site {
        BoundsSite::ClosureConversion => DiagKind::ClosureConversionForbids { source, def_id, args },
        BoundsSite::OpaqueReturn => DiagKind::OpaqueReturnForbids { concrete: source, def_id, args },
    }
}

/// The diagnostics for the required capabilities in `l` that `source` lacks
/// (`positive`), or for the forbidden ones it has.
pub open spec fn bound_failures(
    tc: TypeChecker,
    l: CapList,
    source: Ty,
    positive: bool,
    site: BoundsSite,
    span: Span,
) -> Seq<Diagnostic>
    decreases l,
{
    match l {
        CapList::Nil => Seq::empty(),
        CapList::Cons(d, a, t) => (if implements(tc, d, *a, source) != positive {
            seq![
                diag(
                    span,
                    if positive {
                        required_kind(site, source, d, *a)
                    } else {
                        forbidden_kind(site, source, d, *a)
                    },
                ),
            ]
        } else {
            Seq::empty()
        }) + bound_failures(tc, *t, source, positive, site, span),
    }
}

pub open spec fn satisfies_bounds(tc: TypeChecker, b: Bounds, source: Ty) -> bool {
    bound_failures(tc, b.positive, source, true, BoundsSite::ClosureConversion, Span { start: 0, end: 0 }).len() == 0
        && bound_failures(tc, b.negative, source, false, BoundsSite::ClosureConversion, Span { start: 0, end: 0 }).len() == 0
}

pub proof fn lemma_failures_site_independent(
    tc: TypeChecker,
    l: CapList,
    source: Ty,
    positive: bool,
    site: BoundsSite,
    span: Span,
)
    ensures
        bound_failures(tc, l, source, positive, site, span).len() == bound_failures(
            tc,
            l,
            source,
            positive,
            BoundsSite::ClosureConversion,
            Span { start: 0, end: 0 },
        ).len(),
    decreases l,
{
    match l {
        CapList::Nil => {},
        CapList::Cons(_, _, t) => {
            lemma_failures_site_independent(tc, *t, source, positive, site, span);
        },
    }
}


pub open spec fn subst_caps(l: CapList, s: Seq<Binding>) -> CapList
    decreases l,
{
    match l {
        CapList::Nil => CapList::Nil,
        CapList::Cons(d, a, t) => CapList::Cons(d, Box::new(subst_list(*a, s)), Box::new(subst_caps(*t, s))),
    }
}

pub open spec fn constraint_failures(
    tc: TypeChecker,
    g: GenericInfo,
    s: Seq<Binding>,
    span: Span,
) -> Seq<Diagnostic> {
    match lookup(s, g.name) {
        None => Seq::empty(),
        Some(concrete) => (if g.is_resource && !affine(tc, concrete) {
            seq![diag(span, DiagKind::NotResource { ty: concrete })]
        } else {
            Seq::empty()
        }) + match g.bounds {
            None => Seq::empty(),
            Some(b) => generic_cap_failures(tc, subst_caps(b.positive, s), concrete, true, span)
                + generic_cap_failures(tc, subst_caps(b.negative, s), concrete, false, span),
        },
    }
}

pub open spec fn generic_cap_failures(
    tc: TypeChecker,
    l: CapList,
    concrete: Ty,
    positive: bool,
    span: Span,
) -> Seq<Diagnostic>
    decreases l,
{
    match l {
        CapList::Nil => Seq::empty(),
        CapList::Cons(d, a, t) => (if implements(tc, d, *a, concrete) != positive {
            seq![
                diag(
                    span,
                    if positive {
                        DiagKind::UnsatisfiedConstraint { ty: concrete, def_id: d }
                    } else {
                        DiagKind::ForbiddenConstraint { ty: concrete, def_id: d }
                    },
                ),
            ]
        } else {
            Seq::empty()
        }) + generic_cap_failures(tc, *t, concrete, positive, span),
    }
}

pub open spec fn all_constraint_failures(
    tc: TypeChecker,
    gs: Seq<GenericInfo>,
    s: Seq<Binding>,
    span: Span,
) -> Seq<Diagnostic>
    decreases gs.len(),
{
    if gs.len() == 0 {
        Seq::empty()
    } else {
        all_constraint_failures(tc, gs.drop_last(), s, span) + constraint_failures(
            tc,
            gs.last(),
            s,
            span,
        )
    }
}

/// The implementation chosen for full arguments: a concrete one if any,
/// otherwise the single matching generic one.
/// `i` is the first exact implementation of `iface` for `full`.
pub open spec fn first_exact(p: crate::checker::Program, iface: u64, full: TyList, i: int) -> bool {
    &&& 0 <= i < p.impls@.len()
    &&& exact_impl(p.impls@[i], iface, full)
    &&& forall|j: int| 0 <= j < i ==> !exact_impl(#[trigger] p.impls@[j], iface, full)
}

/// The outcome of looking up an implementation of `iface` for the full
/// arguments `full`, with the diagnostics `diags` afterwards: the first
/// exact implementation; else the only matching generic implementation
/// with its bindings; else nothing, reporting an ambiguity when several
/// generic implementations match.
pub open spec fn impl_search_outcome(
    tc: TypeChecker,
    iface: u64,
    full: TyList,
    span: Span,
    r: ImplSearch,
    diags: Seq<Diagnostic>,
) -> bool {
    if has_exact_impl(tc.program, iface, full) {
        r matches ImplSearch::Found(i, s) && first_exact(tc.program, iface, full, i as int) && s@.len() == 0
            && diags == tc.diagnostics@
    } else {
        let n = generic_match_count(tc, iface, full, span, tc.program.impls@.len() as int);
        &&& n == 0 ==> r is NotFound && diags == tc.diagnostics@
        &&& n == 1 ==> (r matches ImplSearch::Found(i, s) && i < tc.program.impls@.len() && generic_impl_applies(
            tc,
            tc.program.impls@[i as int],
            iface,
            full,
            span,
        ) && match_list(tc.program.impls@[i as int].args, full, Seq::empty()) == Some(s@) && diags
            == tc.diagnostics@)
        &&& n > 1 ==> r is NotFound && diags == tc.diagnostics@.push(
            diag(
                span,
                DiagKind::AmbiguousGenericImpls {
                    interface: iface,
                    candidates: id_list(first_three(generic_match_modules(tc, iface, full, span, tc.program.impls@.len() as int))),
                },
            ),
        )
    }
}

/// Every generic parameter is bound, to a type without generics.
pub open spec fn bindings_concrete(gs: Seq<GenericInfo>, b: Seq<Binding>) -> bool {
    forall|k: int|
        0 <= k < gs.len() ==> match lookup(b, (#[trigger] gs[k]).name) {
            Some(t) => !has_generic(t),
            None => false,
        }
}

/// A generic implementation that matches the full arguments, binds all its
/// generics to concrete types, and whose generic constraints those types
/// satisfy.
pub open spec fn generic_impl_applies(tc: TypeChecker, imp: ImplSig, iface: u64, full: TyList, span: Span) -> bool {
    &&& generic_impl(imp, iface, full)
    &&& bindings_concrete(imp.generics@, match_list(imp.args, full, Seq::empty())->0)
    &&& all_constraint_failures(tc, imp.generics@, match_list(imp.args, full, Seq::empty())->0, span).len() == 0
}

pub open spec fn generic_match_count(tc: TypeChecker, iface: u64, full: TyList, span: Span, n: int) -> nat
    decreases n,
{
    if n <= 0 {
        0
    } else {
        generic_match_count(tc, iface, full, span, n - 1) + (if generic_impl_applies(
            tc,
            tc.program.impls@[n - 1],
            iface,
            full,
            span,
        ) {
            1nat
        } else {
            0nat
        })
    }
}

/// The modules declaring the generic impls among the first `n` that apply,
/// in order.
pub open spec fn generic_match_modules(tc: TypeChecker, iface: u64, full: TyList, span: Span, n: int) -> Seq<u64>
    decreases n,
{
    if n <= 0 {
        seq![]
    } else {
        generic_match_modules(tc, iface, full, span, n - 1) + (if generic_impl_applies(
            tc,
            tc.program.impls@[n - 1],
            iface,
            full,
            span,
        ) {
            seq![tc.program.impls@[n - 1].module]
        } else {
            seq![]
        })
    }
}

/// At most the first three elements of `s`.
pub open spec fn first_three(s: Seq<u64>) -> Seq<u64> {
    if s.len() <= 3 {
        s
    } else {
        s.take(3)
    }
}

/// The identifiers `v[i..end]` as a list.
fn ids_between(v: &Vec<u64>, i: usize, end: usize) -> (r: IdList)
    requires
        i <= end <= v@.len(),
    ensures
        r == id_list(v@.subrange(i as int, end as int)),
    decreases end - i,
{
    if i == end {
        IdList::Nil
    } else {
        let rest = ids_between(v, i + 1, end);
        assert(v@.subrange(i as int, end as int).drop_first() =~= v@.subrange(i + 1, end as int));
        IdList::Cons(v[i], Box::new(rest))
    }
}

/// Whether every generic parameter is bound to a type without generics.
fn bindings_are_concrete(gs: &Vec<GenericInfo>, b: &Vec<Binding>) -> (r: bool)
    ensures
        r == bindings_concrete(gs@, b@),
{
    let mut k: usize = 0;
    while k < gs.len()
        invariant
            k <= gs.len(),
            forall|j: int|
                0 <= j < k ==> match lookup(b@, (#[trigger] gs@[j]).name) {
                    Some(t) => !has_generic(t),
                    None => false,
                },
        decreases gs.len() - k,
    {
        match lookup_binding(b, gs[k].name) {
            Some(t) => {
                if contains_generic(&t) {
                    assert(!bindings_concrete(gs@, b@)) by {
                        assert(lookup(b@, gs@[k as int].name) == Some(t));
                    }
                    return false;
                }
            },
            None => {
                assert(!bindings_concrete(gs@, b@)) by {
                    assert(lookup(b@, gs@[k as int].name) is None);
                }
                return false;
            },
        }
        k += 1;
    }
    true
}

impl TypeChecker {
    /// Whether the receiver implements the referenced capability.
    pub fn type_implements_capability_ref(&mut self, capability: &ConstraintRef, receiver_ty: &Ty) -> (r:
        bool)
        requires
            cache_valid(*old(self)),
        ensures
            r == implements(*old(self), capability.def_id, capability.args, *receiver_ty),
            final(self).same_program_and_state(*old(self)),
            final(self).diagnostics == old(self).diagnostics,
            cache_valid(*final(self)),
    {
        self.type_implements_capability_by_def(capability.def_id, &capability.args, receiver_ty)
    }

    fn check_bound_list(
        &mut self,
        l: &CapList,
        source: &Ty,
        positive: bool,
        site: BoundsSite,
        span: Span,
        emit: bool,
    ) -> (ok: bool)
        requires
            cache_valid(*old(self)),
        ensures
            ok == (bound_failures(*old(self), *l, *source, positive, site, span).len() == 0),
            final(self).diagnostics@ == old(self).diagnostics@ + (if emit {
                bound_failures(*old(self), *l, *source, positive, site, span)
            } else {
                Seq::empty()
            }),
            final(self).same_program_and_state(*old(self)),
            cache_valid(*final(self)),
        decreases l,
    {
        match l {
            CapList::Nil => {
                assert(old(self).diagnostics@ + Seq::<Diagnostic>::empty() =~= old(self).diagnostics@);
                true
            },
            CapList::Cons(d, a, t) => {
                let ghost start = *self;
                let holds = self.type_implements_capability_by_def(*d, a, source);
                let failed = holds != positive;
                if failed && emit {
                    let kind = match (positive, site) {
                        (true, BoundsSite::ClosureConversion) => DiagKind::ClosureConversionRequires {
                            source: copy_ty(source),
                            def_id: *d,
                            args: copy_tys(a),
                        },
                        (true, BoundsSite::OpaqueReturn) => DiagKind::OpaqueReturnRequires {
                            concrete: copy_ty(source),
                            def_id: *d,
                            args: copy_tys(a),
                        },
                        (false, BoundsSite::ClosureConversion) => DiagKind::ClosureConversionForbids {
                            source: copy_ty(source),
                            def_id: *d,
                            args: copy_tys(a),
                        },
                        (false, BoundsSite::OpaqueReturn) => DiagKind::OpaqueReturnForbids {
                            concrete: copy_ty(source),
                            def_id: *d,
                            args: copy_tys(a),
                        },
                    };
                    let ghost before_push = *self;
                    self.diagnostics.push(Diagnostic { span, kind });
                    proof {
                        crate::capability::lemma_cache_valid_context(before_push, *self);
                    }
                }
                let ghost mid = *self;
                proof {
                    crate::capability::implements_depends_on_context(start, mid, *d, **a, *source);
                    lemma_bound_failures_context(start, mid, **t, *source, positive, site, span);
                }
                let rest = self.check_bound_list(t, source, positive, site, span, emit);
                proof {
                    let head: Seq<Diagnostic> = if failed {
                        seq![
                            diag(
                                span,
                                if positive {
                                    required_kind(site, *source, *d, **a)
                                } else {
                                    forbidden_kind(site, *source, *d, **a)
                                },
                            ),
                        ]
                    } else {
                        Seq::empty()
                    };
                    let tail = bound_failures(start, **t, *source, positive, site, span);
                    assert(bound_failures(start, *l, *source, positive, site, span) =~= head + tail);
                    if emit {
                        assert(self.diagnostics@ =~= start.diagnostics@ + (head + tail));
                    } else {
                        assert(self.diagnostics@ =~= start.diagnostics@ + Seq::empty());
                    }
                }
                !failed && rest
            },
        }
    }

    /// Whether `source_ty` has every required and none of the forbidden
    /// capabilities of a closure type's constraints; reports each failure
    /// when `emit_diagnostics` is set.
    pub fn closure_constraints_satisfied_by_ty(
        &mut self,
        constraints: &Bounds,
        source_ty: &Ty,
        span: Span,
        emit_diagnostics: bool,
    ) -> (ok: bool)
        requires
            cache_valid(*old(self)),
        ensures
            ok == satisfies_bounds(*old(self), *constraints, *source_ty),
            final(self).diagnostics@ == old(self).diagnostics@ + (if emit_diagnostics {
                bound_failures(
                    *old(self),
                    constraints.positive,
                    *source_ty,
                    true,
                    BoundsSite::ClosureConversion,
                    span,
                ) + bound_failures(
                    *old(self),
                    constraints.negative,
                    *source_ty,
                    false,
                    BoundsSite::ClosureConversion,
                    span,
                )
            } else {
                Seq::empty()
            }),
            final(self).same_program_and_state(*old(self)),
            cache_valid(*final(self)),
    {
        self.check_bounds(constraints, source_ty, BoundsSite::ClosureConversion, span, emit_diagnostics)
    }

    fn check_bounds(
        &mut self,
        constraints: &Bounds,
        source_ty: &Ty,
        site: BoundsSite,
        span: Span,
        emit: bool,
    ) -> (ok: bool)
        requires
            cache_valid(*old(self)),
        ensures
            ok == satisfies_bounds(*old(self), *constraints, *source_ty),
            final(self).diagnostics@ == old(self).diagnostics@ + (if emit {
                bound_failures(*old(self), constraints.positive, *source_ty, true, site, span)
                    + bound_failures(*old(self), constraints.negative, *source_ty, false, site, span)
            } else {
                Seq::empty()
            }),
            final(self).same_program_and_state(*old(self)),
            cache_valid(*final(self)),
    {
        let ghost start = *self;
        let ok_pos = self.check_bound_list(&constraints.positive, source_ty, true, site, span, emit);
        let ghost mid = *self;
        proof {
            lemma_bound_failures_context(start, mid, constraints.negative, *source_ty, false, site, span);
        }
        let ok_neg = self.check_bound_list(&constraints.negative, source_ty, false, site, span, emit);
        proof {
            lemma_failures_site_independent(start, constraints.positive, *source_ty, true, site, span);
            lemma_failures_site_independent(start, constraints.negative, *source_ty, false, site, span);
            if emit {
                assert(self.diagnostics@ =~= start.diagnostics@ + (bound_failures(
                    start,
                    constraints.positive,
                    *source_ty,
                    true,
                    site,
                    span,
                ) + bound_failures(start, constraints.negative, *source_ty, false, site, span)));
            } else {
                assert(self.diagnostics@ =~= start.diagnostics@ + Seq::empty());
            }
        }
        ok_pos && ok_neg
    }

    /// Reports each required capability of an opaque return type that the
    /// concrete return type lacks and each forbidden one it has.
    pub fn check_opaque_return_bounds(&mut self, opaque_ty: &Ty, concrete_ty: &Ty, span: Span)
        requires
            cache_valid(*old(self)),
        ensures
            final(self).diagnostics@ == old(self).diagnostics@ + match *opaque_ty {
                Ty::OpaqueReturn { bounds, .. } => bound_failures(
                    *old(self),
                    bounds.positive,
                    *concrete_ty,
                    true,
                    BoundsSite::OpaqueReturn,
                    span,
                ) + bound_failures(
                    *old(self),
                    bounds.negative,
                    *concrete_ty,
                    false,
                    BoundsSite::OpaqueReturn,
                    span,
                ),
                _ => Seq::empty(),
            },
            final(self).same_program_and_state(*old(self)),
            cache_valid(*final(self)),
    {
        match opaque_ty {
            Ty::OpaqueReturn { bounds, .. } => {
                self.check_bounds(bounds, concrete_ty, BoundsSite::OpaqueReturn, span, true);
            },
            _ => {
                assert(old(self).diagnostics@ + Seq::<Diagnostic>::empty() =~= old(self).diagnostics@);
            },
        }
    }

    /// Whether values of `ty` may be sent between tasks: not resources, and
    /// implementing the standard message-clone interface.
    pub fn type_implements_message(&mut self, ty: &Ty) -> (r: bool)
        requires
            cache_valid(*old(self)),
        ensures
            r == (!affine(*old(self), *ty) && match old(self).program.std.message_clone {
                Some(d) => implements(*old(self), d, TyList::Nil, *ty),
                None => false,
            }),
            final(self).same_program_and_state(*old(self)),
            final(self).diagnostics == old(self).diagnostics,
            cache_valid(*final(self)),
    {
        if self.type_is_affine(ty) {
            return false;
        }
        match self.program.std.message_clone {
            Some(d) => self.type_implements_capability_by_def(d, &TyList::Nil, ty),
            None => false,
        }
    }

    /// Whether `ty` is a shareable handle: not a resource, with an
    /// implementation of the standard share-handle marker.
    pub fn type_implements_share_handle(&self, ty: &Ty) -> (r: bool)
        ensures
            r == match self.program.std.share_handle {
                Some(d) => !affine(*self, *ty) && has_impl(self.program, d, cons(*ty, TyList::Nil)),
                None => false,
            },
    {
        match self.program.std.share_handle {
            Some(d) => {
                if self.type_is_affine(ty) {
                    return false;
                }
                let full = TyList::Cons(Box::new(copy_ty(ty)), Box::new(TyList::Nil));
                self.has_impl_for(d, &full)
            },
            None => false,
        }
    }

    /// Whether `ty` has an implementation of the standard thread-local marker.
    pub fn type_implements_thread_local(&self, ty: &Ty) -> (r: bool)
        ensures
            r == match self.program.std.thread_local {
                Some(d) => has_impl(self.program, d, cons(*ty, TyList::Nil)),
                None => false,
            },
    {
        match self.program.std.thread_local {
            Some(d) => {
                let full = TyList::Cons(Box::new(copy_ty(ty)), Box::new(TyList::Nil));
                self.has_impl_for(d, &full)
            },
            None => false,
        }
    }

    /// Whether `ty` opts in to being kept in async frames.
    pub fn type_implements_async_frame_opt_in(&mut self, ty: &Ty) -> (r: bool)
        requires
            cache_valid(*old(self)),
        ensures
            r == match old(self).program.std.async_frame_opt_in {
                Some(d) => implements(*old(self), d, TyList::Nil, *ty),
                None => false,
            },
            final(self).same_program_and_state(*old(self)),
            final(self).diagnostics == old(self).diagnostics,
            cache_valid(*final(self)),
    {
        match self.program.std.async_frame_opt_in {
            Some(d) => self.type_implements_capability_by_def(d, &TyList::Nil, ty),
            None => false,
        }
    }

    /// Types that meta representations keep as they are: shareable handles,
    /// thread-local values and resources.
    pub fn type_implements_meta_policy_marker(&self, ty: &Ty) -> (r: bool)
        ensures
            r == ((match self.program.std.share_handle {
                Some(d) => !affine(*self, *ty) && has_impl(self.program, d, cons(*ty, TyList::Nil)),
                None => false,
            }) || (match self.program.std.thread_local {
                Some(d) => has_impl(self.program, d, cons(*ty, TyList::Nil)),
                None => false,
            }) || affine(*self, *ty)),
    {
        self.type_implements_share_handle(ty) || self.type_implements_thread_local(ty)
            || self.type_is_affine(ty)
    }

    fn implements_std(&mut self, iface: Option<u64>, ty: &Ty) -> (r: bool)
        requires
            cache_valid(*old(self)),
        ensures
            r == match iface {
                Some(d) => implements(*old(self), d, TyList::Nil, *ty),
                None => false,
            },
            final(self).same_program_and_state(*old(self)),
            final(self).diagnostics == old(self).diagnostics,
            cache_valid(*final(self)),
    {
        match iface {
            Some(d) => self.type_implements_capability_by_def(d, &TyList::Nil, ty),
            None => false,
        }
    }

    /// Whether `ty` is a future that may be spawned as a task.
    pub fn is_spawnable_future_ty(&mut self, ty: &Ty) -> (r: bool)
        requires
            cache_valid(*old(self)),
        ensures
            r == match old(self).program.std.spawnable_future {
                Some(d) => implements(*old(self), d, TyList::Nil, *ty),
                None => false,
            },
            final(self).same_program_and_state(*old(self)),
            final(self).diagnostics == old(self).diagnostics,
            cache_valid(*final(self)),
    {
        let iface = self.program.std.spawnable_future;
        self.implements_std(iface, ty)
    }

    /// Whether a future of type `ty` may be aborted.
    pub fn is_abortable_ty(&mut self, ty: &Ty) -> (r: bool)
        requires
            cache_valid(*old(self)),
        ensures
            r == match old(self).program.std.abort_future {
                Some(d) => implements(*old(self), d, TyList::Nil, *ty),
                None => false,
            },
            final(self).same_program_and_state(*old(self)),
            final(self).diagnostics == old(self).diagnostics,
            cache_valid(*final(self)),
    {
        let iface = self.program.std.abort_future;
        self.implements_std(iface, ty)
    }

    /// Whether a future of type `ty` may be dropped before completion.
    pub fn is_cancel_safe_ty(&mut self, ty: &Ty) -> (r: bool)
        requires
            cache_valid(*old(self)),
        ensures
            r == match old(self).program.std.cancel_safe_future {
                Some(d) => implements(*old(self), d, TyList::Nil, *ty),
                None => false,
            },
            final(self).same_program_and_state(*old(self)),
            final(self).diagnostics == old(self).diagnostics,
            cache_valid(*final(self)),
    {
        let iface = self.program.std.cancel_safe_future;
        self.implements_std(iface, ty)
    }

    /// Whether a dynamic interface value is the standard dynamic error.
    pub fn dynamic_type_implements_std_error_trait(&self, ty: &Ty) -> (r: bool)
        ensures
            r == match *ty {
                Ty::DynamicInterface { def_id, args } => self.program.std.error_trait == Some(def_id) && args is Nil,
                _ => false,
            },
    {
        match ty {
            Ty::DynamicInterface { def_id, args } => match self.program.std.error_trait {
                Some(e) => e == *def_id && matches!(args, TyList::Nil),
                None => false,
            },
            _ => false,
        }
    }

    /// Whether `ty` is an error type: the standard dynamic error, or a value
    /// whose receiver form (the pointee of a pointer) implements the
    /// standard error interface.
    pub fn type_implements_std_error_trait(&mut self, ty: &Ty) -> (r: bool)
        requires
            cache_valid(*old(self)),
        ensures
            r == ((match *ty {
                Ty::DynamicInterface { def_id, args } => old(self).program.std.error_trait == Some(def_id) && args is Nil,
                _ => false,
            }) || match old(self).program.std.error_trait {
                Some(d) => implements(*old(self), d, TyList::Nil, receiver_of(*ty)),
                None => false,
            }),
            final(self).same_program_and_state(*old(self)),
            final(self).diagnostics == old(self).diagnostics,
            cache_valid(*final(self)),
    {
        if self.dynamic_type_implements_std_error_trait(ty) {
            return true;
        }
        let iface = self.program.std.error_trait;
        let receiver = receiver_ty_from_value_ty(ty);
        self.implements_std(iface, &receiver)
    }

    /// The implementation for the full arguments: the first concrete one,
    /// else the only generic one that matches, binds its generics to
    /// concrete types and whose constraints they satisfy (with its
    /// bindings).  Several such generic implementations are ambiguous and
    /// reported.
    pub fn instantiate_generic_impl(&mut self, interface_def: u64, interface_args: &TyList, span: Span) -> (r:
        ImplSearch)
        requires
            cache_valid(*old(self)),
        ensures
            final(self).same_program_and_state(*old(self)),
            cache_valid(*final(self)),
            impl_search_outcome(*old(self), interface_def, *interface_args, span, r, final(self).diagnostics@),
    {
        let ghost tc0 = *self;
        if let Some(i) = self.find_impl_by_full_args(interface_def, interface_args) {
            return ImplSearch::Found(i, Vec::new());
        }
        let mut count: u64 = 0;
        let mut modules: Vec<u64> = Vec::new();
        let mut found: Option<(usize, Vec<Binding>)> = None;
        let mut i: usize = 0;
        while i < self.program.impls.len()
            invariant
                i <= self.program.impls@.len(),
                modules@ == generic_match_modules(tc0, interface_def, *interface_args, span, i as int),
                self.program == tc0.program,
                self.state == tc0.state,
                self.diagnostics@ == tc0.diagnostics@,
                cache_valid(*self),
                count == generic_match_count(tc0, interface_def, *interface_args, span, i as int),
                count <= i,
                count == 0 <==> found is None,
                found matches Some((k, s)) ==> k < i && generic_impl_applies(
                    tc0,
                    tc0.program.impls@[k as int],
                    interface_def,
                    *interface_args,
                    span,
                ) && match_list(tc0.program.impls@[k as int].args, *interface_args, Seq::empty()) == Some(s@),
            decreases self.program.impls@.len() - i,
        {
            let mut applies = false;
            let mut s: Vec<Binding> = Vec::new();
            if self.program.impls[i].interface == interface_def && self.program.impls[i].generics.len() > 0 {
                if unify_list(&self.program.impls[i].args, interface_args, &mut s) {
                    if bindings_are_concrete(&self.program.impls[i].generics, &s) {
                        let gens = crate::field::copy_generics(&self.program.impls[i].generics);
                        let n = self.diagnostics.len();
                        let ghost before = *self;
                        self.check_generic_constraints(&gens, &s, span);
                        let ghost after = *self;
                        let failed = self.diagnostics.len() != n;
                        self.diagnostics.truncate(n);
                        proof {
                            lemma_all_constraint_failures_context(tc0, before, gens@, s@, span);
                            crate::capability::lemma_cache_valid_context(after, *self);
                            assert(self.diagnostics@ =~= tc0.diagnostics@);
                        }
                        applies = !failed;
                    }
                }
            }
            if applies {
                if found.is_none() {
                    found = Some((i, s));
                }
                count = count + 1;
                modules.push(self.program.impls[i].module);
            }
            i += 1;
        }
        if count > 1 {
            let ghost before = *self;
            let end = if modules.len() <= 3 {
                modules.len()
            } else {
                3
            };
            let candidates = ids_between(&modules, 0, end);
            assert(modules@.subrange(0, end as int) =~= first_three(modules@));
            self.report(span, DiagKind::AmbiguousGenericImpls { interface: interface_def, candidates });
            proof {
                crate::capability::lemma_cache_valid_context(before, *self);
            }
            return ImplSearch::NotFound;
        }
        match found {
            Some((k, s)) => ImplSearch::Found(k, s),
            None => ImplSearch::NotFound,
        }
    }

    /// [`TypeChecker::instantiate_generic_impl`] for a receiver and its
    /// non-receiver arguments.
    pub fn instantiate_generic_impl_for_receiver(
        &mut self,
        interface_def: u64,
        non_receiver_args: &TyList,
        receiver_ty: &Ty,
        span: Span,
    ) -> (r: ImplSearch)
        requires
            cache_valid(*old(self)),
        ensures
            final(self).same_program_and_state(*old(self)),
            cache_valid(*final(self)),
            impl_search_outcome(
                *old(self),
                interface_def,
                cons(*receiver_ty, *non_receiver_args),
                span,
                r,
                final(self).diagnostics@,
            ),
    {
        let full = TyList::Cons(Box::new(copy_ty(receiver_ty)), Box::new(copy_tys(non_receiver_args)));
        self.instantiate_generic_impl(interface_def, &full, span)
    }

    pub(crate) fn substitute_caps(l: &CapList, s: &Vec<Binding>) -> (r: CapList)
        ensures
            r == subst_caps(*l, s@),
        decreases l,
    {
        match l {
            CapList::Nil => CapList::Nil,
            CapList::Cons(d, a, t) => CapList::Cons(
                *d,
                Box::new(substitute_list(a, s)),
                Box::new(Self::substitute_caps(t, s)),
            ),
        }
    }

    fn check_generic_cap_list(&mut self, l: &CapList, concrete: &Ty, positive: bool, span: Span)
        requires
            cache_valid(*old(self)),
        ensures
            final(self).diagnostics@ == old(self).diagnostics@ + generic_cap_failures(
                *old(self),
                *l,
                *concrete,
                positive,
                span,
            ),
            final(self).same_program_and_state(*old(self)),
            cache_valid(*final(self)),
        decreases l,
    {
        match l {
            CapList::Nil => {
                assert(old(self).diagnostics@ + Seq::<Diagnostic>::empty() =~= old(self).diagnostics@);
            },
            CapList::Cons(d, a, t) => {
                let ghost start = *self;
                let holds = self.type_implements_capability_by_def(*d, a, concrete);
                let failed = holds != positive;
                if failed {
                    let kind = if positive {
                        DiagKind::UnsatisfiedConstraint { ty: copy_ty(concrete), def_id: *d }
                    } else {
                        DiagKind::ForbiddenConstraint { ty: copy_ty(concrete), def_id: *d }
                    };
                    let ghost before_push = *self;
                    self.diagnostics.push(Diagnostic { span, kind });
                    proof {
                        crate::capability::lemma_cache_valid_context(before_push, *self);
                    }
                }
                let ghost mid = *self;
                proof {
                    lemma_generic_failures_context(start, mid, **t, *concrete, positive, span);
                }
                self.check_generic_cap_list(t, concrete, positive, span);
                proof {
                    let head: Seq<Diagnostic> = if failed {
                        seq![
                            diag(
                                span,
                                if positive {
                                    DiagKind::UnsatisfiedConstraint { ty: *concrete, def_id: *d }
                                } else {
                                    DiagKind::ForbiddenConstraint { ty: *concrete, def_id: *d }
                                },
                            ),
                        ]
                    } else {
                        Seq::empty()
                    };
                    assert(generic_cap_failures(start, *l, *concrete, positive, span) =~= head
                        + generic_cap_failures(start, **t, *concrete, positive, span));
                    assert(self.diagnostics@ =~= start.diagnostics@ + generic_cap_failures(
                        start,
                        *l,
                        *concrete,
                        positive,
                        span,
                    ));
                }
            },
        }
    }

    fn check_one_generic_constraint(&mut self, g: &GenericInfo, subst: &Vec<Binding>, span: Span)
        requires
            cache_valid(*old(self)),
        ensures
            final(self).diagnostics@ == old(self).diagnostics@ + constraint_failures(
                *old(self),
                *g,
                subst@,
                span,
            ),
            final(self).same_program_and_state(*old(self)),
            cache_valid(*final(self)),
    {
        let ghost start = *self;
        let concrete = match lookup_binding(subst, g.name) {
            Some(c) => c,
            None => {
                assert(old(self).diagnostics@ + Seq::<Diagnostic>::empty() =~= old(self).diagnostics@);
                return ;
            },
        };
        if g.is_resource && !self.type_is_affine(&concrete) {
            self.report(span, DiagKind::NotResource { ty: copy_ty(&concrete) });
            proof {
                crate::capability::lemma_cache_valid_context(start, *self);
            }
        }
        let ghost d1 = self.diagnostics@;
        match &g.bounds {
            None => {},
            Some(b) => {
                let pos = Self::substitute_caps(&b.positive, subst);
                let neg = Self::substitute_caps(&b.negative, subst);
                let ghost m0 = *self;
                proof {
                    lemma_generic_failures_context(start, m0, pos, concrete, true, span);
                    lemma_generic_failures_context(start, m0, neg, concrete, false, span);
                }
                self.check_generic_cap_list(&pos, &concrete, true, span);
                let ghost m1 = *self;
                proof {
                    lemma_generic_failures_context(start, m1, neg, concrete, false, span);
                }
                self.check_generic_cap_list(&neg, &concrete, false, span);
            },
        }
        assert(self.diagnostics@ =~= start.diagnostics@ + constraint_failures(start, *g, subst@, span));
    }

    /// Reports each generic argument (bound in `subst`) that is not a
    /// resource although its parameter requires one, lacks a required
    /// capability, or has a forbidden one.
    pub fn check_generic_constraints_impl(&mut self, generics: &Vec<GenericInfo>, subst: &Vec<Binding>, span: Span)
        requires
            cache_valid(*old(self)),
        ensures
            final(self).diagnostics@ == old(self).diagnostics@ + all_constraint_failures(
                *old(self),
                generics@,
                subst@,
                span,
            ),
            final(self).same_program_and_state(*old(self)),
            cache_valid(*final(self)),
    {
        let ghost start = *self;
        let mut i: usize = 0;
        assert(generics@.take(0) =~= Seq::<GenericInfo>::empty());
        assert(start.diagnostics@ + Seq::<Diagnostic>::empty() =~= start.diagnostics@);
        while i < generics.len()
            invariant
                i <= generics@.len(),
                cache_valid(*self),
                self.same_program_and_state(start),
                self.diagnostics@ == start.diagnostics@ + all_constraint_failures(start, generics@.take(i as int), subst@, span),
            decreases generics@.len() - i,
        {
            let ghost before = *self;
            self.check_one_generic_constraint(&generics[i], subst, span);
            proof {
                lemma_constraint_failures_context(start, before, generics@[i as int], subst@, span);
                assert(generics@.take(i + 1).drop_last() =~= generics@.take(i as int));
                assert(generics@.take(i + 1).last() == generics@[i as int]);
                assert(self.diagnostics@ =~= start.diagnostics@ + all_constraint_failures(
                    start,
                    generics@.take(i + 1),
                    subst@,
                    span,
                ));
            }
            i += 1;
        }
        assert(generics@.take(generics@.len() as int) =~= generics@);
    }

    /// [`TypeChecker::check_generic_constraints_impl`].
    pub fn check_generic_constraints(&mut self, generics: &Vec<GenericInfo>, subst: &Vec<Binding>, span: Span)
        requires
            cache_valid(*old(self)),
        ensures
            final(self).diagnostics@ == old(self).diagnostics@ + all_constraint_failures(
                *old(self),
                generics@,
                subst@,
                span,
            ),
            final(self).same_program_and_state(*old(self)),
            cache_valid(*final(self)),
    {
        self.check_generic_constraints_impl(generics, subst, span)
    }

    /// The implementation for the full arguments, looked up with the hidden
    /// state of opaque-state arguments removed: the first concrete one, else
    /// the only matching generic one.  A receiver of opaque return type has
    /// no implementation its bounds do not prove.
    pub fn find_or_instantiate_impl_by_full_args_optional_span(
        &mut self,
        interface_def: u64,
        interface_args: &TyList,
        span: Span,
    ) -> (r: ImplSearch)
        requires
            cache_valid(*old(self)),
        ensures
            final(self).same_program_and_state(*old(self)),
            cache_valid(*final(self)),
            ({
                let stripped = strip_state_list(*interface_args);
                match stripped {
                    TyList::Cons(recv, rest) if *recv is OpaqueReturn && !crate::capability::bounds_prove(
                        *recv,
                        interface_def,
                        *rest,
                    ) => r is NotFound && final(self).diagnostics == old(self).diagnostics,
                    _ => impl_search_outcome(*old(self), interface_def, stripped, span, r, final(self).diagnostics@),
                }
            }),
    {
        let stripped = strip_state_list_exec(interface_args);
        if let TyList::Cons(recv, rest) = &stripped {
            if let Ty::OpaqueReturn { .. } = &**recv {
                if !self.opaque_return_bounds_prove(recv, interface_def, rest) {
                    return ImplSearch::NotFound;
                }
            }
        }
        self.instantiate_generic_impl(interface_def, &stripped, span)
    }

    /// [`TypeChecker::find_or_instantiate_impl_by_full_args_optional_span`].
    pub fn find_or_instantiate_impl_by_full_args(
        &mut self,
        interface_def: u64,
        interface_args: &TyList,
        span: Span,
    ) -> (r: ImplSearch)
        requires
            cache_valid(*old(self)),
        ensures
            final(self).same_program_and_state(*old(self)),
            cache_valid(*final(self)),
            ({
                let stripped = strip_state_list(*interface_args);
                match stripped {
                    TyList::Cons(recv, rest) if *recv is OpaqueReturn && !crate::capability::bounds_prove(
                        *recv,
                        interface_def,
                        *rest,
                    ) => r is NotFound && final(self).diagnostics == old(self).diagnostics,
                    _ => impl_search_outcome(*old(self), interface_def, stripped, span, r, final(self).diagnostics@),
                }
            }),
    {
        self.find_or_instantiate_impl_by_full_args_optional_span(interface_def, interface_args, span)
    }
}

/// Each type of the list without opaque-state wrappers.
pub open spec fn strip_state_list(l: TyList) -> TyList
    decreases l,
{
    match l {
        TyList::Nil => TyList::Nil,
        TyList::Cons(h, t) => TyList::Cons(Box::new(strip_opaque_state(*h)), Box::new(strip_state_list(*t))),
    }
}

pub fn strip_state_list_exec(l: &TyList) -> (r: TyList)
    ensures
        r == strip_state_list(*l),
    decreases l,
{
    match l {
        TyList::Nil => TyList::Nil,
        TyList::Cons(h, t) => TyList::Cons(
            Box::new(crate::capability::strip_opaque_state_for_lookup(h)),
            Box::new(strip_state_list_exec(t)),
        ),
    }
}

proof fn lemma_generic_failures_context(a: TypeChecker, b: TypeChecker, l: CapList, concrete: Ty, positive: bool, span: Span)
    requires
        a.program == b.program,
        a.state.resource_generic_stack == b.state.resource_generic_stack,
    ensures
        generic_cap_failures(a, l, concrete, positive, span) == generic_cap_failures(b, l, concrete, positive, span),
    decreases l,
{
    match l {
        CapList::Nil => {},
        CapList::Cons(d, args, t) => {
            crate::capability::implements_depends_on_context(a, b, d, *args, concrete);
            lemma_generic_failures_context(a, b, *t, concrete, positive, span);
        },
    }
}

pub(crate) proof fn lemma_all_constraint_failures_context(a: TypeChecker, b: TypeChecker, gs: Seq<GenericInfo>, s: Seq<Binding>, span: Span)
    requires
        a.program == b.program,
        a.state.resource_generic_stack == b.state.resource_generic_stack,
    ensures
        all_constraint_failures(a, gs, s, span) == all_constraint_failures(b, gs, s, span),
    decreases gs.len(),
{
    if gs.len() > 0 {
        lemma_all_constraint_failures_context(a, b, gs.drop_last(), s, span);
        lemma_constraint_failures_context(a, b, gs.last(), s, span);
    }
}

proof fn lemma_constraint_failures_context(a: TypeChecker, b: TypeChecker, g: GenericInfo, s: Seq<Binding>, span: Span)
    requires
        a.program == b.program,
        a.state.resource_generic_stack == b.state.resource_generic_stack,
    ensures
        constraint_failures(a, g, s, span) == constraint_failures(b, g, s, span),
{
    if let Some(concrete) = lookup(s, g.name) {
        crate::capability::lemma_affine_context_pub(a, b, concrete);
        if let Some(bnd) = g.bounds {
            lemma_generic_failures_context(a, b, subst_caps(bnd.positive, s), concrete, true, span);
            lemma_generic_failures_context(a, b, subst_caps(bnd.negative, s), concrete, false, span);
        }
    }
}

proof fn lemma_bound_failures_context(
    a: TypeChecker,
    b: TypeChecker,
    l: CapList,
    source: Ty,
    positive: bool,
    site: BoundsSite,
    span: Span,
)
    requires
        a.program == b.program,
        a.state.resource_generic_stack == b.state.resource_generic_stack,
    ensures
        bound_failures(a, l, source, positive, site, span) == bound_failures(b, l, source, positive, site, span),
    decreases l,
{
    match l {
        CapList::Nil => {},
        CapList::Cons(d, args, t) => {
            crate::capability::implements_depends_on_context(a, b, d, *args, source);
            lemma_bound_failures_context(a, b, *t, source, positive, site, span);
        },
    }
}

} // verus!
