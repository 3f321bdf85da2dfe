//! Properties that hold across the checker's operations.
use vstd::prelude::*;
use crate::affine::affine;
use crate::asyncty::{is_message, project_state};
use crate::boundary::{boundary_violation, is_future_state_marker, is_std_error_ty, thread_local, BoundaryReason, PathStep};
use crate::checker::{HoleBinding, Program, ReceiverSelectorSig, StdDefs, TypeChecker};
use crate::assign::{can_assign, checker_can_assign};
use crate::binary::binary_result;
use crate::capability::implements;
use crate::checker::diag;
use crate::checks::{after_cast_check, cast_check, CastCheck};
use crate::diag::{DiagKind, Diagnostic, Span};
use crate::literal::abs_limits;
use crate::props::bit_width;
use crate::texpr::BinaryOp;
use vstd::arithmetic::power2::{lemma2_to64, lemma2_to64_rest, pow2};
use crate::flow::with_state;
use crate::generic::{lookup, match_list, match_ty, subst_list, subst_ty, Binding};
use crate::infer::{hole_solution, resolved, solutions_extend};
use crate::lvalue::{assigned_binding, lvalue_access};
use crate::meta::{lemma_equiv_symmetric, storage_equivalent, META_EXPANSION_LIMIT};
use crate::props::is_erased_ty;
use crate::scope::{
    alias_targets, alias_walk_from_imports, dedup_ids, direct_alias_targets, imports_of, lemma_dedup_ids,
    lemma_dedup_selectors_named, lemma_selectors_of_named, lemma_walk_from_imports_named,
    lemma_walk_from_targets_named, selector_walk_from_imports, selector_walk_from_targets,
    selectors_of, visible_candidates,
};
use crate::selector::{patterns_overlap, Ident};
use crate::texpr::{binding_index, LocalScopes, TExpr, TExprKind};
use crate::ty::{FutureOrigin, StateList, Ty, TyList, ViewMutability};

verus! {

/// Every binding of `s` is kept, unchanged, in `s2`.
pub open spec fn keeps(s: Seq<Binding>, s2: Seq<Binding>) -> bool {
    forall|n: u64| #[trigger] lookup(s, n) is Some ==> lookup(s2, n) == lookup(s, n)
}

/// Every generic parameter that substitution would replace in `t` is bound
/// in `s`.
pub open spec fn all_bound(t: Ty, s: Seq<Binding>) -> bool
    decreases t,
{
    match t {
        Ty::Generic(n) => lookup(s, n) is Some,
        Ty::Pointer { inner, .. } => all_bound(*inner, s),
        Ty::Array { elem, .. } => all_bound(*elem, s),
        Ty::Slice { elem, .. } => all_bound(*elem, s),
        Ty::Named { args, .. } => all_bound_list(args, s),
        Ty::DynamicInterface { args, .. } => all_bound_list(args, s),
        Ty::Function { ret, params, .. } => all_bound(*ret, s) && all_bound_list(params, s),
        Ty::Closure { ret, params, .. } => all_bound(*ret, s) && all_bound_list(params, s),
        _ => true,
    }
}

pub open spec fn all_bound_list(l: TyList, s: Seq<Binding>) -> bool
    decreases l,
{
    match l {
        TyList::Nil => true,
        TyList::Cons(h, t) => all_bound(*h, s) && all_bound_list(*t, s),
    }
}

proof fn lemma_lookup_push(s: Seq<Binding>, b: Binding, n: u64)
    ensures
        lookup(s.push(b), n) == (if lookup(s, n) is Some {
            lookup(s, n)
        } else if b.name == n {
            Some(b.ty)
        } else {
            None
        }),
    decreases s.len(),
{
    if s.len() > 0 {
        assert(s.push(b)[0] == s[0]);
        assert(s.push(b).drop_first() =~= s.drop_first().push(b));
        lemma_lookup_push(s.drop_first(), b, n);
        assert(lookup(s.push(b), n) == if s[0].name == n {
            Some(s[0].ty)
        } else {
            lookup(s.drop_first().push(b), n)
        });
    } else {
        assert(s.push(b)[0] == b);
        assert(s.push(b).drop_first() =~= Seq::<Binding>::empty());
        assert(lookup(Seq::<Binding>::empty(), n) is None);
    }
}

proof fn lemma_keeps_trans(a: Seq<Binding>, b: Seq<Binding>, c: Seq<Binding>)
    requires
        keeps(a, b),
        keeps(b, c),
    ensures
        keeps(a, c),
{
    assert forall|n: u64| #[trigger] lookup(a, n) is Some implies lookup(c, n) == lookup(a, n) by {
        assert(lookup(b, n) == lookup(a, n));
    }
}

/// Matching only adds bindings.
proof fn lemma_match_keeps(p: Ty, a: Ty, s: Seq<Binding>)
    requires
        match_ty(p, a, s) is Some,
    ensures
        keeps(s, match_ty(p, a, s)->0),
    decreases p,
{
    match (p, a) {
        (Ty::Generic(n), _) => {
            if lookup(s, n) is None {
                let b = Binding { name: n, ty: a };
                assert forall|m: u64| #[trigger] lookup(s, m) is Some implies lookup(s.push(b), m) == lookup(s, m) by {
                    lemma_lookup_push(s, b, m);
                }
            }
        },
        (Ty::Pointer { inner: i1, .. }, Ty::Pointer { inner: i2, .. }) => lemma_match_keeps(*i1, *i2, s),
        (Ty::Array { elem: e1, .. }, Ty::Array { elem: e2, .. }) => lemma_match_keeps(*e1, *e2, s),
        (Ty::Slice { elem: e1, .. }, Ty::Slice { elem: e2, .. }) => lemma_match_keeps(*e1, *e2, s),
        (Ty::Named { args: a1, .. }, Ty::Named { args: a2, .. }) => lemma_match_list_keeps(a1, a2, s),
        (Ty::DynamicInterface { args: a1, .. }, Ty::DynamicInterface { args: a2, .. }) => lemma_match_list_keeps(
            a1,
            a2,
            s,
        ),
        (Ty::Function { ret: r1, params: p1, .. }, Ty::Function { ret: r2, params: p2, .. }) => {
            lemma_match_keeps(*r1, *r2, s);
            let s1 = match_ty(*r1, *r2, s)->0;
            lemma_match_list_keeps(p1, p2, s1);
            lemma_keeps_trans(s, s1, match_list(p1, p2, s1)->0);
        },
        (Ty::Closure { ret: r1, params: p1, .. }, Ty::Closure { ret: r2, params: p2, .. }) => {
            lemma_match_keeps(*r1, *r2, s);
            let s1 = match_ty(*r1, *r2, s)->0;
            lemma_match_list_keeps(p1, p2, s1);
            lemma_keeps_trans(s, s1, match_list(p1, p2, s1)->0);
        },
        _ => {},
    }
}

proof fn lemma_match_list_keeps(p: TyList, a: TyList, s: Seq<Binding>)
    requires
        match_list(p, a, s) is Some,
    ensures
        keeps(s, match_list(p, a, s)->0),
    decreases p,
{
    match (p, a) {
        (TyList::Cons(ph, pt), TyList::Cons(ah, at)) => {
            lemma_match_keeps(*ph, *ah, s);
            let s1 = match_ty(*ph, *ah, s)->0;
            lemma_match_list_keeps(*pt, *at, s1);
            lemma_keeps_trans(s, s1, match_list(*pt, *at, s1)->0);
        },
        _ => {},
    }
}

/// Bound parameters stay bound when bindings are only added.
proof fn lemma_bound_kept(t: Ty, s: Seq<Binding>, s2: Seq<Binding>)
    requires
        all_bound(t, s),
        keeps(s, s2),
    ensures
        all_bound(t, s2),
        subst_ty(t, s2) == subst_ty(t, s),
    decreases t,
{
    match t {
        Ty::Generic(n) => {
            assert(lookup(s, n) is Some);
        },
        Ty::Pointer { inner, .. } => lemma_bound_kept(*inner, s, s2),
        Ty::Array { elem, .. } => lemma_bound_kept(*elem, s, s2),
        Ty::Slice { elem, .. } => lemma_bound_kept(*elem, s, s2),
        Ty::Named { args, .. } => lemma_bound_list_kept(args, s, s2),
        Ty::DynamicInterface { args, .. } => lemma_bound_list_kept(args, s, s2),
        Ty::Function { ret, params, .. } => {
            lemma_bound_kept(*ret, s, s2);
            lemma_bound_list_kept(params, s, s2);
        },
        Ty::Closure { ret, params, .. } => {
            lemma_bound_kept(*ret, s, s2);
            lemma_bound_list_kept(params, s, s2);
        },
        _ => {},
    }
}

proof fn lemma_bound_list_kept(l: TyList, s: Seq<Binding>, s2: Seq<Binding>)
    requires
        all_bound_list(l, s),
        keeps(s, s2),
    ensures
        all_bound_list(l, s2),
        subst_list(l, s2) == subst_list(l, s),
    decreases l,
{
    match l {
        TyList::Nil => {},
        TyList::Cons(h, t) => {
            lemma_bound_kept(*h, s, s2);
            lemma_bound_list_kept(*t, s, s2);
        },
    }
}

/// A successful match binds every parameter of the pattern, so that
/// substituting the bindings into the pattern gives the matched type.
proof fn lemma_match_sound(p: Ty, a: Ty, s: Seq<Binding>)
    requires
        match_ty(p, a, s) is Some,
    ensures
        all_bound(p, match_ty(p, a, s)->0),
        subst_ty(p, match_ty(p, a, s)->0) == a,
    decreases p,
{
    match (p, a) {
        (Ty::Generic(n), _) => {
            if lookup(s, n) is None {
                lemma_lookup_push(s, Binding { name: n, ty: a }, n);
            }
        },
        (Ty::Pointer { inner: i1, .. }, Ty::Pointer { inner: i2, .. }) => lemma_match_sound(*i1, *i2, s),
        (Ty::Array { elem: e1, .. }, Ty::Array { elem: e2, .. }) => lemma_match_sound(*e1, *e2, s),
        (Ty::Slice { elem: e1, .. }, Ty::Slice { elem: e2, .. }) => lemma_match_sound(*e1, *e2, s),
        (Ty::Named { args: a1, .. }, Ty::Named { args: a2, .. }) => lemma_match_list_sound(a1, a2, s),
        (Ty::DynamicInterface { args: a1, .. }, Ty::DynamicInterface { args: a2, .. }) => lemma_match_list_sound(
            a1,
            a2,
            s,
        ),
        (Ty::Function { ret: r1, params: p1, .. }, Ty::Function { ret: r2, params: p2, .. }) => {
            lemma_match_sound(*r1, *r2, s);
            let s1 = match_ty(*r1, *r2, s)->0;
            lemma_match_list_sound(p1, p2, s1);
            lemma_match_list_keeps(p1, p2, s1);
            lemma_bound_kept(*r1, s1, match_list(p1, p2, s1)->0);
        },
        (Ty::Closure { ret: r1, params: p1, .. }, Ty::Closure { ret: r2, params: p2, .. }) => {
            lemma_match_sound(*r1, *r2, s);
            let s1 = match_ty(*r1, *r2, s)->0;
            lemma_match_list_sound(p1, p2, s1);
            lemma_match_list_keeps(p1, p2, s1);
            lemma_bound_kept(*r1, s1, match_list(p1, p2, s1)->0);
        },
        _ => {},
    }
}

proof fn lemma_match_list_sound(p: TyList, a: TyList, s: Seq<Binding>)
    requires
        match_list(p, a, s) is Some,
    ensures
        all_bound_list(p, match_list(p, a, s)->0),
        subst_list(p, match_list(p, a, s)->0) == a,
    decreases p,
{
    match (p, a) {
        (TyList::Cons(ph, pt), TyList::Cons(ah, at)) => {
            lemma_match_sound(*ph, *ah, s);
            let s1 = match_ty(*ph, *ah, s)->0;
            lemma_match_list_sound(*pt, *at, s1);
            lemma_match_list_keeps(*pt, *at, s1);
            lemma_bound_kept(*ph, s1, match_list(*pt, *at, s1)->0);
        },
        _ => {},
    }
}

/// When a pattern type unifies with a type (`unify_ty` succeeds), the
/// resulting bindings keep every earlier binding, and substituting them
/// into the pattern (`substitute_ty`) gives back the type.
pub proof fn law_unify_then_substitute(p: Ty, a: Ty, s: Seq<Binding>)
    requires
        match_ty(p, a, s) is Some,
    ensures
        keeps(s, match_ty(p, a, s)->0),
        subst_ty(p, match_ty(p, a, s)->0) == a,
{
    lemma_match_keeps(p, a, s);
    lemma_match_sound(p, a, s);
}

/// Substituting no bindings leaves a type unchanged.
pub proof fn law_substitute_nothing(t: Ty)
    ensures
        subst_ty(t, Seq::empty()) == t,
    decreases t,
{
    match t {
        Ty::Pointer { inner, .. } => law_substitute_nothing(*inner),
        Ty::Array { elem, .. } => law_substitute_nothing(*elem),
        Ty::Slice { elem, .. } => law_substitute_nothing(*elem),
        Ty::Named { args, .. } => lemma_substitute_nothing_list(args),
        Ty::DynamicInterface { args, .. } => lemma_substitute_nothing_list(args),
        Ty::Function { ret, params, .. } => {
            law_substitute_nothing(*ret);
            lemma_substitute_nothing_list(params);
        },
        Ty::Closure { ret, params, .. } => {
            law_substitute_nothing(*ret);
            lemma_substitute_nothing_list(params);
        },
        _ => {},
    }
}

proof fn lemma_substitute_nothing_list(l: TyList)
    ensures
        subst_list(l, Seq::empty()) == l,
    decreases l,
{
    match l {
        TyList::Nil => {},
        TyList::Cons(h, t) => {
            law_substitute_nothing(*h);
            lemma_substitute_nothing_list(*t);
        },
    }
}

/// A solved inference hole keeps its solution: solutions are only added.
pub proof fn law_hole_solution_stable(s: Seq<HoleBinding>, t: Seq<HoleBinding>, id: u64)
    requires
        solutions_extend(s, t),
        hole_solution(s, id) is Some,
    ensures
        hole_solution(t, id) == hole_solution(s, id),
{
    crate::infer::lemma_hole_solution_prefix(s, t, id);
}

/// Whether two receiver selectors overlap does not depend on their order.
pub proof fn law_selector_overlap_symmetric(p: Program, l: ReceiverSelectorSig, r: ReceiverSelectorSig)
    ensures
        patterns_overlap(p, l, r) == patterns_overlap(p, r, l),
{
}

/// A cast to the type the value already has is always allowed.
pub proof fn law_cast_to_same_type(t: Ty)
    ensures
        cast_check(t, t) == CastCheck::Allowed,
{
}

/// Resources are never messages.
pub proof fn law_resources_are_not_messages(tc: TypeChecker, t: Ty)
    requires
        affine(tc, t),
    ensures
        !is_message(tc, t),
{
}

/// A message crosses any task boundary, unless it carries hidden state.
pub proof fn law_messages_cross_boundaries(
    tc: TypeChecker,
    t: Ty,
    path: Seq<PathStep>,
    visiting: Seq<Ty>,
    allow_affine_move: bool,
    fuel: nat,
)
    requires
        is_message(tc, t),
        !(t is OpaqueState),
        !is_future_state_marker(tc.program.std, t),
    ensures
        boundary_violation(tc, t, path, visiting, allow_affine_move, fuel) is None,
{
}

/// Without permission to move resources, a resource that is not erased,
/// an error value, thread-local, opaque or carrying hidden state is
/// rejected for having no `Message` policy.
pub proof fn law_resources_need_message_policy(
    tc: TypeChecker,
    t: Ty,
    path: Seq<PathStep>,
    visiting: Seq<Ty>,
    fuel: nat,
)
    requires
        affine(tc, t),
        !is_erased_ty(t),
        !is_future_state_marker(tc.program.std, t),
        !(t is OpaqueState),
        !(t is OpaqueReturn),
        !is_std_error_ty(tc.program.std, t),
        !thread_local(tc.program, t),
    ensures
        boundary_violation(tc, t, path, visiting, false, fuel) == Some(
            (path, BoundaryReason::AffineWithoutMessagePolicy { ty: t }),
        ),
{
}

/// Attaching no future state leaves a type unchanged.
pub proof fn law_no_state_attached(tc: TypeChecker, t: Ty, visiting: Seq<Ty>, fuel: nat)
    ensures
        with_state(tc, t, StateList::Nil, visiting, fuel) == t,
{
}

/// Projecting a part of an opaque value without hidden state for that part
/// gives the part's declared type.
pub proof fn law_projection_without_state(std: StdDefs, projected: Ty)
    ensures
        project_state(std, projected, StateList::Nil) == projected,
{
}

proof fn lemma_first_binding(s: Seq<crate::texpr::LocalBinding>, id: u64, w: int)
    requires
        0 <= w < s.len(),
        s[w].id == id,
    ensures
        exists|k: int|
            0 <= k < s.len() && (#[trigger] s[k]).id == id && forall|j: int| 0 <= j < k ==> (#[trigger] s[j]).id != id,
    decreases w,
{
    if exists|j: int| 0 <= j < w && (#[trigger] s[j]).id == id {
        let j = choose|j: int| 0 <= j < w && (#[trigger] s[j]).id == id;
        lemma_first_binding(s, id, j);
    } else {
        assert(forall|j: int| 0 <= j < w ==> (#[trigger] s[j]).id != id);
    }
}

/// The position of the first binding of `id`, when there is one, is the
/// first position whose binding has that id.
proof fn lemma_binding_index_first(a: LocalScopes, id: u64)
    ensures
        binding_index(a, id) matches Some(k) ==> 0 <= k < a.bindings@.len() && a.bindings@[k].id == id
            && forall|j: int| 0 <= j < k ==> (#[trigger] a.bindings@[j]).id != id,
        binding_index(a, id) is None ==> forall|j: int| 0 <= j < a.bindings@.len() ==> (#[trigger] a.bindings@[j]).id != id,
{
    if exists|i: int| 0 <= i < a.bindings@.len() && (#[trigger] a.bindings@[i]).id == id {
        let w = choose|i: int| 0 <= i < a.bindings@.len() && (#[trigger] a.bindings@[i]).id == id;
        lemma_first_binding(a.bindings@, id, w);
    }
}

proof fn lemma_same_ids_same_index(a: LocalScopes, b: LocalScopes, id: u64)
    requires
        a.bindings@.len() == b.bindings@.len(),
        forall|j: int| 0 <= j < a.bindings@.len() ==> (#[trigger] a.bindings@[j]).id == b.bindings@[j].id,
    ensures
        binding_index(a, id) == binding_index(b, id),
{
    lemma_binding_index_first(a, id);
    lemma_binding_index_first(b, id);
    match (binding_index(a, id), binding_index(b, id)) {
        (Some(ka), Some(kb)) => {
            assert(a.bindings@[kb].id == b.bindings@[kb].id);
            assert(a.bindings@[ka].id == b.bindings@[ka].id);
            if ka < kb {
                assert(b.bindings@[ka].id != id);
            }
            if kb < ka {
                assert(a.bindings@[kb].id != id);
            }
        },
        (Some(ka), None) => {
            assert(a.bindings@[ka].id == b.bindings@[ka].id);
            assert(b.bindings@[ka].id != id);
        },
        (None, Some(kb)) => {
            assert(a.bindings@[kb].id == b.bindings@[kb].id);
            assert(a.bindings@[kb].id != id);
        },
        (None, None) => {},
    }
}

proof fn lemma_local_access_same_flags(a: LocalScopes, b: LocalScopes, e: TExpr, id: u64)
    requires
        e.kind == TExprKind::Local(id),
        a.bindings@.len() == b.bindings@.len(),
        forall|j: int|
            0 <= j < a.bindings@.len() ==> (#[trigger] a.bindings@[j]).id == b.bindings@[j].id
                && a.bindings@[j].mutable == b.bindings@[j].mutable && a.bindings@[j].captured
                == b.bindings@[j].captured,
    ensures
        lvalue_access(a, e) == lvalue_access(b, e),
{
    lemma_same_ids_same_index(a, b, id);
    lemma_binding_index_first(a, id);
    if let Some(i) = binding_index(a, id) {
        assert(a.bindings@[i].id == b.bindings@[i].id);
    }
}

#[verifier::spinoff_prover]
proof fn lemma_access_same_flags(a: LocalScopes, b: LocalScopes, e: TExpr)
    requires
        a.bindings@.len() == b.bindings@.len(),
        forall|j: int|
            0 <= j < a.bindings@.len() ==> (#[trigger] a.bindings@[j]).id == b.bindings@[j].id
                && a.bindings@[j].mutable == b.bindings@[j].mutable && a.bindings@[j].captured
                == b.bindings@[j].captured,
    ensures
        lvalue_access(a, e) == lvalue_access(b, e),
    decreases e,
{
    match e.kind {
        TExprKind::Local(id) => lemma_local_access_same_flags(a, b, e, id),
        TExprKind::Field { base, .. } => lemma_access_same_flags(a, b, *base),
        TExprKind::Index { base, .. } => lemma_access_same_flags(a, b, *base),
        _ => {},
    }
}

/// Completing an assignment to a local does not change which places may
/// be written.
pub proof fn law_assignment_keeps_access(
    std: StdDefs,
    before: LocalScopes,
    after: LocalScopes,
    i: int,
    value: Ty,
    e: TExpr,
)
    requires
        0 <= i < before.bindings@.len(),
        after.bindings@ == before.bindings@.update(i, assigned_binding(std, before.bindings@[i], value)),
    ensures
        lvalue_access(after, e) == lvalue_access(before, e),
{
    assert forall|j: int| 0 <= j < before.bindings@.len() implies (#[trigger] before.bindings@[j]).id
        == after.bindings@[j].id && before.bindings@[j].mutable == after.bindings@[j].mutable
        && before.bindings@[j].captured == after.bindings@[j].captured by {
        if j != i {
            assert(after.bindings@[j] == before.bindings@[j]);
        }
    }
    lemma_access_same_flags(before, after, e);
}

/// Removing repeated module ids keeps every id that occurs, and each once.
pub proof fn law_dedup_modules_keeps_each_once(ids: Seq<u64>)
    ensures
        forall|x: u64| dedup_ids(ids).contains(x) <==> ids.contains(x),
        forall|i: int, j: int|
            0 <= i < j < dedup_ids(ids).len() ==> dedup_ids(ids)[i] != dedup_ids(ids)[j],
{
    lemma_dedup_ids(ids);
}

/// The modules an alias may name are listed once each.
pub proof fn law_alias_targets_distinct(p: Program, m: u64, alias: u64)
    ensures
        forall|i: int, j: int|
            0 <= i < j < alias_targets(p, m, alias).len() ==> alias_targets(p, m, alias)[i]
                != alias_targets(p, m, alias)[j],
{
    lemma_dedup_ids(
        alias_walk_from_imports(
            p,
            imports_of(p, m),
            alias,
            0,
            Set::<u64>::empty(),
            direct_alias_targets(imports_of(p, m), alias),
        ),
    );
}

/// A selector path only ever names selectors declared under its last name.
pub proof fn law_visible_candidates_named(p: Program, m: u64, path: Seq<Ident>)
    ensures
        forall|k: int|
            0 <= k < visible_candidates(p, m, path).len() ==> (#[trigger] visible_candidates(p, m, path)[k]).selector
                == path.last().name,
{
    if path.len() == 1 {
        let name = path[0].name;
        lemma_selectors_of_named(p.receiver_selectors@, m, name, false);
        lemma_walk_from_imports_named(
            p,
            imports_of(p, m),
            name,
            0,
            Set::<u64>::empty(),
            selectors_of(p.receiver_selectors@, m, name, false),
        );
        lemma_dedup_selectors_named(
            selector_walk_from_imports(
                p,
                imports_of(p, m),
                name,
                0,
                Set::<u64>::empty(),
                selectors_of(p.receiver_selectors@, m, name, false),
            ),
            name,
        );
        assert(path.last() == path[0]);
    } else if path.len() == 2 {
        let name = path[1].name;
        let targets = alias_targets(p, m, path[0].name);
        lemma_walk_from_targets_named(p, targets, name, 0, seq![]);
        lemma_dedup_selectors_named(selector_walk_from_targets(p, targets, name, 0, seq![]), name);
        assert(path.last() == path[1]);
    }
}

/// Resolving inference holes twice gives what resolving once gives, when
/// the solutions are acyclic (no solved hole reaches itself through the
/// solutions); a hole without a solution resolves to itself.
pub proof fn law_resolve_holes_idempotent(tc: TypeChecker, t: Ty, id: u64)
    requires
        crate::infer::solutions_acyclic(tc.state.hole_solutions@),
    ensures
        resolved(tc, resolved(tc, t)) == resolved(tc, t),
        hole_solution(tc.state.hole_solutions@, id) is None ==> resolved(tc, Ty::Hole(id)) == Ty::Hole(id),
{
    crate::infer::lemma_resolve_idempotent(tc.state.hole_solutions@, t);
}

/// Storage equivalence is reflexive and symmetric: every type has its own
/// storage, and which of two types is named first does not matter.
pub proof fn law_storage_equivalence_symmetric(tc: TypeChecker, l: Ty, r: Ty)
    ensures
        storage_equivalent(tc, l, l),
        storage_equivalent(tc, l, r) == storage_equivalent(tc, r, l),
{
    lemma_equiv_symmetric(tc.program, resolved(tc, l), resolved(tc, r), META_EXPANSION_LIMIT as nat);
}

/// A comparison (`<`, `<=`, `>`, `>=`) has type `bool`, whatever its
/// operands' type; so do the logical and equality operators.
pub proof fn law_comparisons_have_type_bool(op: BinaryOp, left: Ty)
    requires
        op == BinaryOp::Lt || op == BinaryOp::Le || op == BinaryOp::Gt || op == BinaryOp::Ge
            || op == BinaryOp::Eq || op == BinaryOp::Ne || op == BinaryOp::And || op == BinaryOp::Or,
    ensures
        binary_result(op, left) == Ty::Bool,
{
}

/// An arithmetic, bitwise or shift operator has the type of its left
/// operand.
pub proof fn law_arithmetic_keeps_operand_type(op: BinaryOp, left: Ty)
    requires
        !(op == BinaryOp::Lt || op == BinaryOp::Le || op == BinaryOp::Gt || op == BinaryOp::Ge
            || op == BinaryOp::Eq || op == BinaryOp::Ne || op == BinaryOp::And || op == BinaryOp::Or),
    ensures
        binary_result(op, left) == left,
{
}

/// A cast never turns a read-only pointer into a writable one: such a
/// cast is rejected, with exactly one `cannot cast` report, whatever the
/// nullability and the pointee types.
pub proof fn law_no_cast_from_read_only_to_writable(
    n1: bool,
    i1: Ty,
    n2: bool,
    i2: Ty,
    d: Seq<Diagnostic>,
    unsafe_depth: u64,
    span: Span,
)
    ensures
        ({
            let source = Ty::Pointer { nullable: n1, mutability: ViewMutability::ReadOnly, inner: Box::new(i1) };
            let target = Ty::Pointer { nullable: n2, mutability: ViewMutability::Mutable, inner: Box::new(i2) };
            &&& cast_check(source, target) == CastCheck::Rejected(DiagKind::CannotCast { source, target })
            &&& after_cast_check(d, unsafe_depth, span, cast_check(source, target)) == d.push(
                diag(span, DiagKind::CannotCast { source, target }),
            )
        }),
{
}

/// Assignment never drops nullability: a nullable pointer is never
/// assignable where a non-null pointer is expected.
pub proof fn law_assignment_keeps_nullability(tc: TypeChecker, m1: ViewMutability, i1: Ty, m2: ViewMutability, i2: Ty)
    ensures
        !can_assign(
            Ty::Pointer { nullable: false, mutability: m1, inner: Box::new(i1) },
            Ty::Pointer { nullable: true, mutability: m2, inner: Box::new(i2) },
        ),
        !checker_can_assign(
            tc,
            Ty::Pointer { nullable: false, mutability: m1, inner: Box::new(i1) },
            Ty::Pointer { nullable: true, mutability: m2, inner: Box::new(i2) },
        ),
{
}

/// The literal limits of each integer type are its two's-complement range:
/// a signed type of `w` bits takes a negated magnitude up to 2^(w-1) and a
/// plain one up to 2^(w-1) - 1; an unsigned type of `w` bits takes no
/// negated literal other than zero and a plain one up to 2^w - 1.
pub proof fn law_literal_limits_are_twos_complement(t: Ty)
    requires
        bit_width(t) is Some,
        !(t is Usize),
    ensures
        ({
            let w = bit_width(t)->0 as nat;
            if t is I8 || t is I16 || t is I32 || t is I64 {
                abs_limits(t) == Some((pow2((w - 1) as nat) as u128, (pow2((w - 1) as nat) - 1) as u128))
            } else {
                abs_limits(t) == Some((0u128, (pow2(w) - 1) as u128))
            }
        }),
{
    lemma2_to64();
    lemma2_to64_rest();
}

/// The literal limits of `usize` are those of the machine's `usize`.
pub proof fn law_usize_literal_limits()
    ensures
        abs_limits(Ty::Usize) == Some((0u128, usize::MAX as u128)),
{
}

/// Whether a generated future implements the cancel-safe or the abortable
/// future interface follows its own flags: the abortable interface exactly
/// when it is abortable, the cancel-safe one exactly when it is
/// cancel-safe (the standard definitions being distinct interfaces).
pub proof fn law_future_flags_decide_future_interfaces(
    tc: TypeChecker,
    origin: FutureOrigin,
    output: Ty,
    cancel_safe: bool,
    abortable: bool,
    affine_state: bool,
    state: StateList,
)
    requires
        ({
            let std = tc.program.std;
            &&& std.abort_future is Some
            &&& std.cancel_safe_future is Some
            &&& std.abort_future != std.cancel_safe_future
            &&& forall|o: Option<u64>|
                #![trigger o.is_some()]
                (o == std.message_clone || o == std.share_handle || o == std.message_capability || o
                    == std.spawnable_future || o == std.error_witness || o == std.fn_value_marker || o
                    == std.closure_value_marker || o == std.awaitable_future) && o.is_some() ==> o
                    != std.abort_future && o != std.cancel_safe_future
        }),
    ensures
        ({
            let f = Ty::GeneratedFuture { origin, output: Box::new(output), cancel_safe, abortable, affine_state, state };
            &&& implements(tc, tc.program.std.abort_future->0, TyList::Nil, f) == abortable
            &&& implements(tc, tc.program.std.cancel_safe_future->0, TyList::Nil, f) == cancel_safe
        }),
{
    let std = tc.program.std;
    assert(std.message_clone.is_some() ==> std.message_clone != std.abort_future && std.message_clone != std.cancel_safe_future);
    assert(std.share_handle.is_some() ==> std.share_handle != std.abort_future && std.share_handle != std.cancel_safe_future);
    assert(std.message_capability.is_some() ==> std.message_capability != std.abort_future && std.message_capability != std.cancel_safe_future);
    assert(std.spawnable_future.is_some() ==> std.spawnable_future != std.abort_future && std.spawnable_future != std.cancel_safe_future);
    assert(std.error_witness.is_some() ==> std.error_witness != std.abort_future && std.error_witness != std.cancel_safe_future);
    assert(std.fn_value_marker.is_some() ==> std.fn_value_marker != std.abort_future && std.fn_value_marker != std.cancel_safe_future);
    assert(std.closure_value_marker.is_some() ==> std.closure_value_marker != std.abort_future && std.closure_value_marker != std.cancel_safe_future);
    assert(std.awaitable_future.is_some() ==> std.awaitable_future != std.abort_future && std.awaitable_future != std.cancel_safe_future);
}

} // verus!
