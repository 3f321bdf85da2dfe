//! Unification of a generic pattern type with an argument type while a
//! call is inferred: generic parameters of the pattern are bound in a
//! substitution, inference holes on either side are solved.
use vstd::prelude::*;
use crate::assign::{pointer_view_can_weaken, view_can_weaken};
use crate::checker::{HoleBinding, Program, TypeChecker};
use crate::generic::{lookup, lookup_binding, Binding};
use crate::infer::{bind_hole, lemma_extend_refl, lemma_extend_trans, resolve, same_except_holes, same_len, solutions_extend, UNIFY_DEPTH_LIMIT};
use crate::meta::{storage_equiv, META_EXPANSION_LIMIT};
use crate::normalize::subst_norm;
use crate::ty::{copy_ty, known_ty_matches, tys_len, Bounds, CapList, Ty, TyList};

verus! {

/// `g` with generic `name` bound to `ty`: the first binding of `name` is
/// replaced, or a binding is added at the end.
pub open spec fn set_binding(g: Seq<Binding>, name: u64, ty: Ty) -> Seq<Binding>
    decreases g.len(),
{
    if g.len() == 0 {
        seq![Binding { name, ty }]
    } else if g[0].name == name {
        g.update(0, Binding { name, ty })
    } else {
        seq![g[0]] + set_binding(g.drop_first(), name, ty)
    }
}

/// Unifies pattern `pat0` (with the bindings `g` substituted) with `act0`,
/// both with the solved holes `s` replaced.  Storage-equivalent types
/// agree at once, and so does a bound parameter whose binding is
/// storage-equivalent to the argument.  Otherwise: a hole in the pattern
/// is solved with the argument; an unbound parameter (or one bound to
/// itself) is bound to the argument, and a bound one is unified through
/// its binding and then rebound to that binding's resolved form; a
/// pointer or slice pattern accepts an argument whose view it may weaken
/// (a slice pattern also accepts an array); aggregate, interface,
/// function, closure and closure-instance patterns unify part by part,
/// stopping at the first part that disagrees (a closure pattern also takes
/// a closure instance, and unifies its capability bounds); anything else
/// agrees only when equal.  Hole solutions found on the way are kept even
/// when unification fails.  At most `fuel` nested steps are taken.
/// Returns whether the types agree, the hole solutions and the bindings.
pub open spec fn unify_inf(p: Program, s: Seq<HoleBinding>, g: Seq<Binding>, pat0: Ty, act0: Ty, fuel: nat) -> (
    bool,
    Seq<HoleBinding>,
    Seq<Binding>,
)
    decreases fuel, 1int, TyList::Nil, CapList::Nil,
{
    let pat = resolve(s, subst_norm(p.std, pat0, g).0, s.len());
    let act = resolve(s, act0, s.len());
    let ract = resolve(s, act, s.len());
    if storage_equiv(p, resolve(s, pat, s.len()), ract, META_EXPANSION_LIMIT as nat) {
        (true, s, g)
    } else if (match pat {
        Ty::Generic(n) => match lookup(g, n) {
            Some(e) => storage_equiv(p, resolve(s, e, s.len()), ract, META_EXPANSION_LIMIT as nat),
            None => false,
        },
        _ => false,
    }) {
        (true, s, g)
    } else if fuel == 0 {
        (false, s, g)
    } else {
        let f = (fuel - 1) as nat;
        match pat {
            Ty::Hole(id) => {
                let (ok, s1) = bind_hole(p, s, id, act, UNIFY_DEPTH_LIMIT as nat);
                (ok, s1, g)
            },
            Ty::Generic(n) => match lookup(g, n) {
                Some(existing) => if existing == Ty::Generic(n) {
                    (true, s, set_binding(g, n, act))
                } else {
                    let r = unify_inf(p, s, g, existing, act, f);
                    if r.0 {
                        (true, r.1, set_binding(r.2, n, resolve(r.1, existing, r.1.len())))
                    } else {
                        r
                    }
                },
                None => (true, s, set_binding(g, n, act)),
            },
            Ty::Pointer { nullable: n1, mutability: m1, inner: i1 } => match act {
                Ty::Pointer { nullable: n2, mutability: m2, inner: i2 } => if (n1 || !n2) && view_can_weaken(m1, m2) {
                    unify_inf(p, s, g, *i1, *i2, f)
                } else {
                    (false, s, g)
                },
                _ => (false, s, g),
            },
            Ty::Array { len: l1, elem: e1 } => match act {
                Ty::Array { len: l2, elem: e2 } => if l1 == l2 {
                    unify_inf(p, s, g, *e1, *e2, f)
                } else {
                    (false, s, g)
                },
                _ => (false, s, g),
            },
            Ty::Slice { mutability: m1, elem: e1 } => match act {
                Ty::Slice { mutability: m2, elem: e2 } => if view_can_weaken(m1, m2) {
                    unify_inf(p, s, g, *e1, *e2, f)
                } else {
                    (false, s, g)
                },
                Ty::Array { elem: e2, .. } => unify_inf(p, s, g, *e1, *e2, f),
                _ => (false, s, g),
            },
            Ty::Named { name: n1, args: a1 } => match act {
                Ty::Named { name: n2, args: a2 } => if n1 == n2 && tys_len(a1) == tys_len(a2) {
                    unify_inf_list(p, s, g, a1, a2, f)
                } else {
                    (false, s, g)
                },
                _ => (false, s, g),
            },
            Ty::DynamicInterface { def_id: d1, args: a1 } => match act {
                Ty::DynamicInterface { def_id: d2, args: a2 } => if d1 == d2 && tys_len(a1) == tys_len(a2) {
                    unify_inf_list(p, s, g, a1, a2, f)
                } else {
                    (false, s, g)
                },
                _ => (false, s, g),
            },
            Ty::Function { is_unsafe: u1, c_abi: c1, ret: r1, params: p1 } => match act {
                Ty::Function { is_unsafe: u2, c_abi: c2, ret: r2, params: p2 } => if u1 == u2 && c1 == c2
                    && tys_len(p1) == tys_len(p2) {
                    let r = unify_inf(p, s, g, *r1, *r2, f);
                    if !r.0 {
                        r
                    } else {
                        unify_inf_list(p, r.1, r.2, p1, p2, f)
                    }
                } else {
                    (false, s, g)
                },
                _ => (false, s, g),
            },
            Ty::Closure { ret: r1, params: p1, bounds: b1 } => match act {
                Ty::Closure { ret: r2, params: p2, bounds: b2 } => if tys_len(p1) == tys_len(p2) {
                    let r = unify_inf(p, s, g, *r1, *r2, f);
                    if !r.0 {
                        r
                    } else {
                        let q = unify_inf_list(p, r.1, r.2, p1, p2, f);
                        if !q.0 {
                            q
                        } else {
                            unify_inf_bounds(p, q.1, q.2, b1, b2, f)
                        }
                    }
                } else {
                    (false, s, g)
                },
                Ty::ClosureInstance { ret: r2, params: p2, .. } => if tys_len(p1) == tys_len(p2) {
                    let r = unify_inf(p, s, g, *r1, *r2, f);
                    if !r.0 {
                        r
                    } else {
                        unify_inf_list(p, r.1, r.2, p1, p2, f)
                    }
                } else {
                    (false, s, g)
                },
                _ => (false, s, g),
            },
            Ty::ClosureInstance { id: i1, ret: r1, params: p1, captures: k1 } => match act {
                Ty::ClosureInstance { id: i2, ret: r2, params: p2, captures: k2 } => if i1 == i2 && tys_len(p1)
                    == tys_len(p2) && tys_len(k1) == tys_len(k2) {
                    let r = unify_inf(p, s, g, *r1, *r2, f);
                    if !r.0 {
                        r
                    } else {
                        let q = unify_inf_list(p, r.1, r.2, p1, p2, f);
                        if !q.0 {
                            q
                        } else {
                            unify_inf_list(p, q.1, q.2, k1, k2, f)
                        }
                    }
                } else {
                    (false, s, g)
                },
                _ => (false, s, g),
            },
            _ => (pat == act, s, g),
        }
    }
}

/// Unifies two lists of the same length element by element, stopping at
/// the first pair that disagrees.
pub open spec fn unify_inf_list(p: Program, s: Seq<HoleBinding>, g: Seq<Binding>, e: TyList, a: TyList, fuel: nat) -> (
    bool,
    Seq<HoleBinding>,
    Seq<Binding>,
)
    decreases fuel, 2int, e, CapList::Nil,
{
    match (e, a) {
        (TyList::Cons(h1, t1), TyList::Cons(h2, t2)) => {
            let r = unify_inf(p, s, g, *h1, *h2, fuel);
            if !r.0 {
                r
            } else {
                unify_inf_list(p, r.1, r.2, *t1, *t2, fuel)
            }
        },
        _ => (true, s, g),
    }
}

/// Unifies the capability references of `pat` with those of `all`: each
/// reference in turn with the first candidate of `cands` (then of `all`)
/// of the same interface and arity whose arguments unify and after which
/// the remaining references unify too.  The bindings of a candidate that
/// is given up are dropped; its hole solutions stay.
pub open spec fn unify_inf_refs(
    p: Program,
    s: Seq<HoleBinding>,
    g: Seq<Binding>,
    pat: CapList,
    all: CapList,
    cands: CapList,
    fuel: nat,
) -> (bool, Seq<HoleBinding>, Seq<Binding>)
    decreases fuel, 3int, pat, cands,
{
    match pat {
        CapList::Nil => (true, s, g),
        CapList::Cons(name, args, rest) => match cands {
            CapList::Nil => (false, s, g),
            CapList::Cons(cn, cargs, crest) => if name != cn || tys_len(*args) != tys_len(*cargs) {
                unify_inf_refs(p, s, g, pat, all, *crest, fuel)
            } else {
                let t = unify_inf_list(p, s, g, *args, *cargs, fuel);
                if !t.0 {
                    unify_inf_refs(p, t.1, g, pat, all, *crest, fuel)
                } else {
                    let u = unify_inf_refs(p, t.1, t.2, *rest, all, all, fuel);
                    if u.0 {
                        u
                    } else {
                        unify_inf_refs(p, u.1, g, pat, all, *crest, fuel)
                    }
                }
            },
        },
    }
}

/// Unifies the required and then the forbidden capability bounds; the
/// bindings change only when both agree.
pub open spec fn unify_inf_bounds(p: Program, s: Seq<HoleBinding>, g: Seq<Binding>, b1: Bounds, b2: Bounds, fuel: nat) -> (
    bool,
    Seq<HoleBinding>,
    Seq<Binding>,
)
    decreases fuel, 4int, TyList::Nil, CapList::Nil,
{
    let r1 = unify_inf_refs(p, s, g, b1.positive, b2.positive, b2.positive, fuel);
    if !r1.0 {
        (false, r1.1, g)
    } else {
        let r2 = unify_inf_refs(p, r1.1, r1.2, b1.negative, b2.negative, b2.negative, fuel);
        if !r2.0 {
            (false, r2.1, g)
        } else {
            (true, r2.1, r2.2)
        }
    }
}

/// Unifies a receiver parameter pattern with an argument: a pointer
/// pattern is unified through its pointee, with the argument's pointee
/// when the argument is a pointer too (see [`unify_inf`]).
pub open spec fn unify_receiver_inf(p: Program, s: Seq<HoleBinding>, g: Seq<Binding>, pat: Ty, act: Ty) -> (
    bool,
    Seq<HoleBinding>,
    Seq<Binding>,
) {
    match pat {
        Ty::Pointer { inner, .. } => match act {
            Ty::Pointer { inner: ai, .. } => unify_inf(p, s, g, *inner, *ai, UNIFY_DEPTH_LIMIT as nat),
            _ => unify_inf(p, s, g, *inner, act, UNIFY_DEPTH_LIMIT as nat),
        },
        _ => unify_inf(p, s, g, pat, act, UNIFY_DEPTH_LIMIT as nat),
    }
}

/// The checker moved on only by adding hole solutions.
pub open spec fn holes_grow(a: TypeChecker, b: TypeChecker) -> bool {
    &&& b.program == a.program
    &&& b.diagnostics == a.diagnostics
    &&& b.capability_cache == a.capability_cache
    &&& b.capability_epoch == a.capability_epoch
    &&& same_except_holes(a.state, b.state)
    &&& solutions_extend(a.state.hole_solutions@, b.state.hole_solutions@)
}

proof fn lemma_holes_grow_refl(a: TypeChecker)
    ensures
        holes_grow(a, a),
{
    lemma_extend_refl(a.state.hole_solutions@);
}

proof fn lemma_holes_grow_trans(a: TypeChecker, b: TypeChecker, c: TypeChecker)
    requires
        holes_grow(a, b),
        holes_grow(b, c),
    ensures
        holes_grow(a, c),
{
    lemma_extend_trans(a.state.hole_solutions@, b.state.hole_solutions@, c.state.hole_solutions@);
}

fn copy_bindings(g: &Vec<Binding>) -> (r: Vec<Binding>)
    ensures
        r@ == g@,
{
    let mut r: Vec<Binding> = Vec::new();
    let mut i: usize = 0;
    while i < g.len()
        invariant
            i <= g@.len(),
            r@ == g@.take(i as int),
        decreases g@.len() - i,
    {
        r.push(Binding { name: g[i].name, ty: copy_ty(&g[i].ty) });
        assert(g@.take(i + 1) =~= g@.take(i as int).push(g@[i as int]));
        i += 1;
    }
    assert(g@.take(g@.len() as int) =~= g@);
    r
}

/// Binds generic `name` to `ty` in `g` (see [`set_binding`]).
fn set_binding_exec(g: &mut Vec<Binding>, name: u64, ty: Ty)
    ensures
        final(g)@ == set_binding(old(g)@, name, ty),
{
    let ghost g0 = g@;
    let mut i: usize = 0;
    assert(g0.skip(0) =~= g0);
    assert(g0.take(0) + g0.skip(0) =~= g0.skip(0));
    while i < g.len()
        invariant
            g@ == g0,
            old(g)@ == g0,
            i <= g0.len(),
            set_binding(g0, name, ty) == g0.take(i as int) + set_binding(g0.skip(i as int), name, ty),
        decreases g0.len() - i,
    {
        if g[i].name == name {
            assert(g0.skip(i as int)[0] == g0[i as int]);
            assert(set_binding(g0.skip(i as int), name, ty) == g0.skip(i as int).update(0, Binding { name, ty }));
            g.set(i, Binding { name, ty });
            assert(g@ =~= g0.take(i as int) + g0.skip(i as int).update(0, Binding { name, ty }));
            return;
        }
        assert(g0.skip(i as int).drop_first() =~= g0.skip(i + 1));
        assert(g0.take(i + 1) =~= g0.take(i as int) + seq![g0[i as int]]);
        assert(g0.take(i as int) + (seq![g0[i as int]] + set_binding(g0.skip(i + 1), name, ty)) =~= g0.take(i
            + 1) + set_binding(g0.skip(i + 1), name, ty));
        i += 1;
    }
    assert(g0.skip(i as int) =~= Seq::<Binding>::empty());
    g.push(Binding { name, ty });
    assert(g0.take(i as int) =~= g0);
    assert(g@ =~= g0.take(i as int) + seq![Binding { name, ty }]);
}

impl TypeChecker {
    /// Unifies `pattern`, with the generic `bindings` substituted, with
    /// `actual` while a call is inferred, binding the pattern's generic
    /// parameters and solving inference holes (see [`unify_inf`]).  Returns
    /// whether the two agree.
    pub fn unify_ty_for_inference(&mut self, pattern: &Ty, actual: &Ty, bindings: &mut Vec<Binding>) -> (r: bool)
        ensures
            holes_grow(*old(self), *final(self)),
            (r, final(self).state.hole_solutions@, final(bindings)@) == unify_inf(
                old(self).program,
                old(self).state.hole_solutions@,
                old(bindings)@,
                *pattern,
                *actual,
                UNIFY_DEPTH_LIMIT as nat,
            ),
    {
        self.unify_inf_with_fuel(pattern, actual, bindings, UNIFY_DEPTH_LIMIT)
    }

    /// Unifies a receiver parameter pattern with an argument while a call
    /// is inferred (see [`unify_receiver_inf`]).
    pub fn unify_receiver_param_for_inference(&mut self, pattern: &Ty, actual: &Ty, bindings: &mut Vec<Binding>) -> (r:
        bool)
        ensures
            holes_grow(*old(self), *final(self)),
            (r, final(self).state.hole_solutions@, final(bindings)@) == unify_receiver_inf(
                old(self).program,
                old(self).state.hole_solutions@,
                old(bindings)@,
                *pattern,
                *actual,
            ),
    {
        match pattern {
            Ty::Pointer { inner, .. } => match actual {
                Ty::Pointer { inner: actual_inner, .. } => self.unify_ty_for_inference(inner, actual_inner, bindings),
                _ => self.unify_ty_for_inference(inner, actual, bindings),
            },
            _ => self.unify_ty_for_inference(pattern, actual, bindings),
        }
    }

    #[verifier::rlimit(60)]
    fn unify_inf_with_fuel(&mut self, pattern: &Ty, actual: &Ty, g: &mut Vec<Binding>, fuel: u64) -> (r: bool)
        ensures
            holes_grow(*old(self), *final(self)),
            (r, final(self).state.hole_solutions@, final(g)@) == unify_inf(
                old(self).program,
                old(self).state.hole_solutions@,
                old(g)@,
                *pattern,
                *actual,
                fuel as nat,
            ),
        decreases fuel, 1int, TyList::Nil, CapList::Nil,
    {
        let ghost s0 = *self;
        proof {
            lemma_holes_grow_refl(s0);
        }
        let substituted = self.substitute_ty_normalized(pattern, g);
        let pat = self.resolve_type_holes(&substituted);
        let act = self.resolve_type_holes(actual);
        if self.meta_repr_storage_equivalent(&pat, &act) {
            return true;
        }
        let bound_equiv = match &pat {
            Ty::Generic(n) => match lookup_binding(g, *n) {
                Some(e) => self.meta_repr_storage_equivalent(&e, &act),
                None => false,
            },
            _ => false,
        };
        if bound_equiv {
            return true;
        }
        if fuel == 0 {
            return false;
        }
        let f = fuel - 1;
        match &pat {
            Ty::Hole(id) => self.bind_type_hole(*id, &act),
            Ty::Generic(n) => match lookup_binding(g, *n) {
                Some(existing) => {
                    let self_bound = match &existing {
                        Ty::Generic(e) => *e == *n,
                        _ => false,
                    };
                    if self_bound {
                        set_binding_exec(g, *n, act);
                        return true;
                    }
                    let ok = self.unify_inf_with_fuel(&existing, &act, g, f);
                    if ok {
                        let rex = self.resolve_type_holes(&existing);
                        set_binding_exec(g, *n, rex);
                    }
                    ok
                },
                None => {
                    set_binding_exec(g, *n, act);
                    true
                },
            },
            Ty::Pointer { nullable: n1, mutability: m1, inner: i1 } => match &act {
                Ty::Pointer { nullable: n2, mutability: m2, inner: i2 } => {
                    if (*n1 || !*n2) && pointer_view_can_weaken(*m1, *m2) {
                        self.unify_inf_with_fuel(i1, i2, g, f)
                    } else {
                        false
                    }
                },
                _ => false,
            },
            Ty::Array { len: l1, elem: e1 } => match &act {
                Ty::Array { len: l2, elem: e2 } => {
                    if *l1 == *l2 {
                        self.unify_inf_with_fuel(e1, e2, g, f)
                    } else {
                        false
                    }
                },
                _ => false,
            },
            Ty::Slice { mutability: m1, elem: e1 } => match &act {
                Ty::Slice { mutability: m2, elem: e2 } => {
                    if pointer_view_can_weaken(*m1, *m2) {
                        self.unify_inf_with_fuel(e1, e2, g, f)
                    } else {
                        false
                    }
                },
                Ty::Array { elem: e2, .. } => self.unify_inf_with_fuel(e1, e2, g, f),
                _ => false,
            },
            Ty::Named { name: n1, args: a1 } => match &act {
                Ty::Named { name: n2, args: a2 } => {
                    if *n1 == *n2 && same_len(a1, a2) {
                        self.unify_inf_list_exec(a1, a2, g, f)
                    } else {
                        false
                    }
                },
                _ => false,
            },
            Ty::DynamicInterface { def_id: d1, args: a1 } => match &act {
                Ty::DynamicInterface { def_id: d2, args: a2 } => {
                    if *d1 == *d2 && same_len(a1, a2) {
                        self.unify_inf_list_exec(a1, a2, g, f)
                    } else {
                        false
                    }
                },
                _ => false,
            },
            Ty::Function { is_unsafe: u1, c_abi: c1, ret: r1, params: p1 } => match &act {
                Ty::Function { is_unsafe: u2, c_abi: c2, ret: r2, params: p2 } => {
                    if *u1 == *u2 && *c1 == *c2 && same_len(p1, p2) {
                        self.unify_ret_params_exec(r1, p1, r2, p2, g, f)
                    } else {
                        false
                    }
                },
                _ => false,
            },
            Ty::Closure { ret: r1, params: p1, bounds: b1 } => match &act {
                Ty::Closure { ret: r2, params: p2, bounds: b2 } => {
                    if same_len(p1, p2) {
                        let ok = self.unify_ret_params_exec(r1, p1, r2, p2, g, f);
                        if !ok {
                            return false;
                        }
                        let ghost mid = *self;
                        let r = self.unify_inf_bounds_exec(b1, b2, g, f);
                        proof {
                            lemma_holes_grow_trans(s0, mid, *self);
                        }
                        r
                    } else {
                        false
                    }
                },
                Ty::ClosureInstance { ret: r2, params: p2, .. } => {
                    if same_len(p1, p2) {
                        self.unify_ret_params_exec(r1, p1, r2, p2, g, f)
                    } else {
                        false
                    }
                },
                _ => false,
            },
            Ty::ClosureInstance { id: i1, ret: r1, params: p1, captures: k1 } => match &act {
                Ty::ClosureInstance { id: i2, ret: r2, params: p2, captures: k2 } => {
                    if *i1 == *i2 && same_len(p1, p2) && same_len(k1, k2) {
                        let ok = self.unify_ret_params_exec(r1, p1, r2, p2, g, f);
                        if !ok {
                            return false;
                        }
                        let ghost mid = *self;
                        let r = self.unify_inf_list_exec(k1, k2, g, f);
                        proof {
                            lemma_holes_grow_trans(s0, mid, *self);
                        }
                        r
                    } else {
                        false
                    }
                },
                _ => false,
            },
            _ => known_ty_matches(&pat, &act),
        }
    }

    fn unify_ret_params_exec(
        &mut self,
        r1: &Ty,
        p1: &TyList,
        r2: &Ty,
        p2: &TyList,
        g: &mut Vec<Binding>,
        fuel: u64,
    ) -> (r: bool)
        ensures
            holes_grow(*old(self), *final(self)),
            (r, final(self).state.hole_solutions@, final(g)@) == ({
                let q = unify_inf(old(self).program, old(self).state.hole_solutions@, old(g)@, *r1, *r2, fuel as nat);
                if !q.0 {
                    q
                } else {
                    unify_inf_list(old(self).program, q.1, q.2, *p1, *p2, fuel as nat)
                }
            }),
        decreases fuel, 3int, TyList::Nil, CapList::Nil,
    {
        let ghost s0 = *self;
        let ok = self.unify_inf_with_fuel(r1, r2, g, fuel);
        if !ok {
            return false;
        }
        let ghost mid = *self;
        let r = self.unify_inf_list_exec(p1, p2, g, fuel);
        proof {
            lemma_holes_grow_trans(s0, mid, *self);
        }
        r
    }

    fn unify_inf_list_exec(&mut self, e: &TyList, a: &TyList, g: &mut Vec<Binding>, fuel: u64) -> (r: bool)
        ensures
            holes_grow(*old(self), *final(self)),
            (r, final(self).state.hole_solutions@, final(g)@) == unify_inf_list(
                old(self).program,
                old(self).state.hole_solutions@,
                old(g)@,
                *e,
                *a,
                fuel as nat,
            ),
        decreases fuel, 2int, e, CapList::Nil,
    {
        let ghost s0 = *self;
        proof {
            lemma_holes_grow_refl(s0);
        }
        match (e, a) {
            (TyList::Cons(h1, t1), TyList::Cons(h2, t2)) => {
                let ok = self.unify_inf_with_fuel(h1, h2, g, fuel);
                if !ok {
                    return false;
                }
                let ghost mid = *self;
                let r = self.unify_inf_list_exec(t1, t2, g, fuel);
                proof {
                    lemma_holes_grow_trans(s0, mid, *self);
                }
                r
            },
            _ => true,
        }
    }

    fn unify_inf_refs_exec(
        &mut self,
        pat: &CapList,
        all: &CapList,
        cands: &CapList,
        g: &mut Vec<Binding>,
        fuel: u64,
    ) -> (r: bool)
        ensures
            holes_grow(*old(self), *final(self)),
            (r, final(self).state.hole_solutions@, final(g)@) == unify_inf_refs(
                old(self).program,
                old(self).state.hole_solutions@,
                old(g)@,
                *pat,
                *all,
                *cands,
                fuel as nat,
            ),
        decreases fuel, 3int, pat, cands,
    {
        let ghost s0 = *self;
        proof {
            lemma_holes_grow_refl(s0);
        }
        match pat {
            CapList::Nil => true,
            CapList::Cons(name, args, rest) => match cands {
                CapList::Nil => false,
                CapList::Cons(cn, cargs, crest) => {
                    if *name != *cn || !same_len(args, cargs) {
                        return self.unify_inf_refs_exec(pat, all, crest, g, fuel);
                    }
                    let mut trial = copy_bindings(g);
                    let ok = self.unify_inf_list_exec(args, cargs, &mut trial, fuel);
                    let ghost mid = *self;
                    if !ok {
                        let r = self.unify_inf_refs_exec(pat, all, crest, g, fuel);
                        proof {
                            lemma_holes_grow_trans(s0, mid, *self);
                        }
                        return r;
                    }
                    let ok2 = self.unify_inf_refs_exec(rest, all, all, &mut trial, fuel);
                    let ghost mid2 = *self;
                    proof {
                        lemma_holes_grow_trans(s0, mid, mid2);
                    }
                    if ok2 {
                        *g = trial;
                        return true;
                    }
                    let r = self.unify_inf_refs_exec(pat, all, crest, g, fuel);
                    proof {
                        lemma_holes_grow_trans(s0, mid2, *self);
                    }
                    r
                },
            },
        }
    }

    fn unify_inf_bounds_exec(&mut self, b1: &Bounds, b2: &Bounds, g: &mut Vec<Binding>, fuel: u64) -> (r: bool)
        ensures
            holes_grow(*old(self), *final(self)),
            (r, final(self).state.hole_solutions@, final(g)@) == unify_inf_bounds(
                old(self).program,
                old(self).state.hole_solutions@,
                old(g)@,
                *b1,
                *b2,
                fuel as nat,
            ),
        decreases fuel, 4int, TyList::Nil, CapList::Nil,
    {
        let ghost s0 = *self;
        let mut trial = copy_bindings(g);
        let ok = self.unify_inf_refs_exec(&b1.positive, &b2.positive, &b2.positive, &mut trial, fuel);
        if !ok {
            return false;
        }
        let ghost mid = *self;
        let ok2 = self.unify_inf_refs_exec(&b1.negative, &b2.negative, &b2.negative, &mut trial, fuel);
        proof {
            lemma_holes_grow_trans(s0, mid, *self);
        }
        if !ok2 {
            return false;
        }
        *g = trial;
        true
    }
}

} // verus!
