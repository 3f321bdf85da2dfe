//! Storage equivalence of types: two types that are laid out alike once
//! hidden future state is set aside and meta representation markers are
//! replaced by the structural representation they stand for.
use vstd::prelude::*;
use crate::checker::{MetaSop, Program, TypeChecker};
use crate::infer::resolved;
use crate::ty::{bounds_match, known_ty_matches, StateList, Ty, TyList};

verus! {

/// How many marker expansions one equivalence question may go through; a
/// question that needs more is answered "not equivalent".
pub const META_EXPANSION_LIMIT: u64 = 1024;

/// The structural representation recorded for marker type `t` (the first
/// record for it).
pub open spec fn marker_sop(s: Seq<MetaSop>, t: Ty) -> Option<Ty>
    decreases s.len(),
{
    if s.len() == 0 {
        None
    } else if s[0].marker == t {
        Some(s[0].sop)
    } else {
        marker_sop(s.drop_first(), t)
    }
}

/// Whether `l` and `r` have the same storage: equal; or equal once the
/// hidden state of either is set aside; or one is a marker whose recorded
/// representation is storage-equivalent to the other; or the same type
/// constructor over storage-equivalent parts.  `fuel` bounds the marker
/// expansions.
pub open spec fn storage_equiv(p: Program, l: Ty, r: Ty, fuel: nat) -> bool
    decreases fuel, l, r,
{
    if l == r {
        true
    } else {
        match (l, r) {
            (Ty::OpaqueState { base, .. }, _) => storage_equiv(p, *base, r, fuel),
            (_, Ty::OpaqueState { base, .. }) => storage_equiv(p, l, *base, fuel),
            _ => {
                let by_marker = fuel > 0 && ((match marker_sop(p.meta_sops@, l) {
                    Some(sop) => storage_equiv(p, sop, r, (fuel - 1) as nat),
                    None => false,
                }) || (match marker_sop(p.meta_sops@, r) {
                    Some(sop) => storage_equiv(p, sop, l, (fuel - 1) as nat),
                    None => false,
                }));
                by_marker || match (l, r) {
                    (
                        Ty::Pointer { nullable: n1, mutability: m1, inner: i1 },
                        Ty::Pointer { nullable: n2, mutability: m2, inner: i2 },
                    ) => n1 == n2 && m1 == m2 && storage_equiv(p, *i1, *i2, fuel),
                    (Ty::Array { len: l1, elem: e1 }, Ty::Array { len: l2, elem: e2 }) => l1 == l2
                        && storage_equiv(p, *e1, *e2, fuel),
                    (Ty::Slice { mutability: m1, elem: e1 }, Ty::Slice { mutability: m2, elem: e2 }) => m1
                        == m2 && storage_equiv(p, *e1, *e2, fuel),
                    (Ty::Named { name: n1, args: a1 }, Ty::Named { name: n2, args: a2 }) => n1 == n2
                        && storage_equiv_list(p, a1, a2, fuel),
                    (
                        Ty::DynamicInterface { def_id: d1, args: a1 },
                        Ty::DynamicInterface { def_id: d2, args: a2 },
                    ) => d1 == d2 && storage_equiv_list(p, a1, a2, fuel),
                    (
                        Ty::GeneratedFuture {
                            origin: o1,
                            output: out1,
                            cancel_safe: c1,
                            abortable: b1,
                            affine_state: f1,
                            state: s1,
                        },
                        Ty::GeneratedFuture {
                            origin: o2,
                            output: out2,
                            cancel_safe: c2,
                            abortable: b2,
                            affine_state: f2,
                            state: s2,
                        },
                    ) => o1 == o2 && c1 == c2 && b1 == b2 && f1 == f2 && storage_equiv(p, *out1, *out2, fuel)
                        && storage_equiv_state(p, s1, s2, fuel),
                    (
                        Ty::Function { is_unsafe: u1, c_abi: c1, ret: r1, params: p1 },
                        Ty::Function { is_unsafe: u2, c_abi: c2, ret: r2, params: p2 },
                    ) => u1 == u2 && c1 == c2 && storage_equiv(p, *r1, *r2, fuel) && storage_equiv_list(
                        p,
                        p1,
                        p2,
                        fuel,
                    ),
                    (
                        Ty::Closure { ret: r1, params: p1, bounds: b1 },
                        Ty::Closure { ret: r2, params: p2, bounds: b2 },
                    ) => b1 == b2 && storage_equiv(p, *r1, *r2, fuel) && storage_equiv_list(p, p1, p2, fuel),
                    (
                        Ty::ClosureInstance { id: i1, ret: r1, params: p1, captures: k1 },
                        Ty::ClosureInstance { id: i2, ret: r2, params: p2, captures: k2 },
                    ) => i1 == i2 && storage_equiv(p, *r1, *r2, fuel) && storage_equiv_list(p, p1, p2, fuel)
                        && storage_equiv_list(p, k1, k2, fuel),
                    _ => false,
                }
            },
        }
    }
}

/// Two lists of the same length whose elements are storage-equivalent in
/// turn.
pub open spec fn storage_equiv_list(p: Program, l: TyList, r: TyList, fuel: nat) -> bool
    decreases fuel, l, r,
{
    match (l, r) {
        (TyList::Nil, TyList::Nil) => true,
        (TyList::Cons(h1, t1), TyList::Cons(h2, t2)) => storage_equiv(p, *h1, *h2, fuel)
            && storage_equiv_list(p, *t1, *t2, fuel),
        _ => false,
    }
}

/// Two future state lists with the same keys, in order, whose types are
/// storage-equivalent in turn.
pub open spec fn storage_equiv_state(p: Program, l: StateList, r: StateList, fuel: nat) -> bool
    decreases fuel, l, r,
{
    match (l, r) {
        (StateList::Nil, StateList::Nil) => true,
        (StateList::Cons(k1, t1, rest1), StateList::Cons(k2, t2, rest2)) => k1 == k2 && storage_equiv(
            p,
            *t1,
            *t2,
            fuel,
        ) && storage_equiv_state(p, *rest1, *rest2, fuel),
        _ => false,
    }
}

/// Whether two types have the same storage, after the checker's inference
/// holes are resolved in both.
pub open spec fn storage_equivalent(tc: TypeChecker, l: Ty, r: Ty) -> bool {
    storage_equiv(tc.program, resolved(tc, l), resolved(tc, r), META_EXPANSION_LIMIT as nat)
}

fn find_marker_sop(s: &Vec<MetaSop>, t: &Ty) -> (r: Option<usize>)
    ensures
        match r {
            Some(i) => i < s@.len() && marker_sop(s@, *t) == Some(s@[i as int].sop),
            None => marker_sop(s@, *t) is None,
        },
{
    let mut i: usize = 0;
    assert(s@.skip(0) =~= s@);
    while i < s.len()
        invariant
            i <= s.len(),
            marker_sop(s@, *t) == marker_sop(s@.skip(i as int), *t),
        decreases s.len() - i,
    {
        assert(s@.skip(i as int).drop_first() =~= s@.skip(i + 1));
        if known_ty_matches(&s[i].marker, t) {
            return Some(i);
        }
        i += 1;
    }
    None
}

impl TypeChecker {
    fn marker_matches(&self, marker: &Ty, concrete: &Ty, fuel: u64) -> (r: bool)
        requires
            fuel > 0,
        ensures
            r == match marker_sop(self.program.meta_sops@, *marker) {
                Some(sop) => storage_equiv(self.program, sop, *concrete, (fuel - 1) as nat),
                None => false,
            },
        decreases fuel, 0int,
    {
        match find_marker_sop(&self.program.meta_sops, marker) {
            Some(i) => self.storage_equiv_exec(&self.program.meta_sops[i].sop, concrete, fuel - 1),
            None => false,
        }
    }

    fn storage_equiv_exec(&self, l: &Ty, r: &Ty, fuel: u64) -> (b: bool)
        ensures
            b == storage_equiv(self.program, *l, *r, fuel as nat),
        decreases fuel, 1int, l, r,
    {
        if known_ty_matches(l, r) {
            return true;
        }
        if let Ty::OpaqueState { base, .. } = l {
            return self.storage_equiv_exec(base, r, fuel);
        }
        if let Ty::OpaqueState { base, .. } = r {
            return self.storage_equiv_exec(l, base, fuel);
        }
        if fuel > 0 && (self.marker_matches(l, r, fuel) || self.marker_matches(r, l, fuel)) {
            return true;
        }
        match (l, r) {
            (
                Ty::Pointer { nullable: n1, mutability: m1, inner: i1 },
                Ty::Pointer { nullable: n2, mutability: m2, inner: i2 },
            ) => *n1 == *n2 && *m1 == *m2 && self.storage_equiv_exec(i1, i2, fuel),
            (Ty::Array { len: l1, elem: e1 }, Ty::Array { len: l2, elem: e2 }) => *l1 == *l2
                && self.storage_equiv_exec(e1, e2, fuel),
            (Ty::Slice { mutability: m1, elem: e1 }, Ty::Slice { mutability: m2, elem: e2 }) => *m1 == *m2
                && self.storage_equiv_exec(e1, e2, fuel),
            (Ty::Named { name: n1, args: a1 }, Ty::Named { name: n2, args: a2 }) => *n1 == *n2
                && self.storage_equiv_list_exec(a1, a2, fuel),
            (
                Ty::DynamicInterface { def_id: d1, args: a1 },
                Ty::DynamicInterface { def_id: d2, args: a2 },
            ) => *d1 == *d2 && self.storage_equiv_list_exec(a1, a2, fuel),
            (
                Ty::GeneratedFuture {
                    origin: o1,
                    output: out1,
                    cancel_safe: c1,
                    abortable: b1,
                    affine_state: f1,
                    state: s1,
                },
                Ty::GeneratedFuture {
                    origin: o2,
                    output: out2,
                    cancel_safe: c2,
                    abortable: b2,
                    affine_state: f2,
                    state: s2,
                },
            ) => *o1 == *o2 && *c1 == *c2 && *b1 == *b2 && *f1 == *f2 && self.storage_equiv_exec(out1, out2, fuel)
                && self.storage_equiv_state_exec(s1, s2, fuel),
            (
                Ty::Function { is_unsafe: u1, c_abi: c1, ret: r1, params: p1 },
                Ty::Function { is_unsafe: u2, c_abi: c2, ret: r2, params: p2 },
            ) => *u1 == *u2 && *c1 == *c2 && self.storage_equiv_exec(r1, r2, fuel) && self.storage_equiv_list_exec(
                p1,
                p2,
                fuel,
            ),
            (Ty::Closure { ret: r1, params: p1, bounds: b1 }, Ty::Closure { ret: r2, params: p2, bounds: b2 }) => {
                bounds_match(b1, b2) && self.storage_equiv_exec(r1, r2, fuel) && self.storage_equiv_list_exec(
                    p1,
                    p2,
                    fuel,
                )
            },
            (
                Ty::ClosureInstance { id: i1, ret: r1, params: p1, captures: k1 },
                Ty::ClosureInstance { id: i2, ret: r2, params: p2, captures: k2 },
            ) => *i1 == *i2 && self.storage_equiv_exec(r1, r2, fuel) && self.storage_equiv_list_exec(p1, p2, fuel)
                && self.storage_equiv_list_exec(k1, k2, fuel),
            _ => false,
        }
    }

    fn storage_equiv_list_exec(&self, l: &TyList, r: &TyList, fuel: u64) -> (b: bool)
        ensures
            b == storage_equiv_list(self.program, *l, *r, fuel as nat),
        decreases fuel, 1int, l, r,
    {
        match (l, r) {
            (TyList::Nil, TyList::Nil) => true,
            (TyList::Cons(h1, t1), TyList::Cons(h2, t2)) => self.storage_equiv_exec(h1, h2, fuel)
                && self.storage_equiv_list_exec(t1, t2, fuel),
            _ => false,
        }
    }

    fn storage_equiv_state_exec(&self, l: &StateList, r: &StateList, fuel: u64) -> (b: bool)
        ensures
            b == storage_equiv_state(self.program, *l, *r, fuel as nat),
        decreases fuel, 1int, l, r,
    {
        match (l, r) {
            (StateList::Nil, StateList::Nil) => true,
            (StateList::Cons(k1, t1, rest1), StateList::Cons(k2, t2, rest2)) => *k1 == *k2
                && self.storage_equiv_exec(t1, t2, fuel) && self.storage_equiv_state_exec(rest1, rest2, fuel),
            _ => false,
        }
    }

    /// Whether two types have the same storage (see `storage_equivalent`).
    pub fn meta_repr_storage_equivalent(&self, left: &Ty, right: &Ty) -> (r: bool)
        ensures
            r == storage_equivalent(*self, *left, *right),
    {
        let l = self.resolve_type_holes(left);
        let r = self.resolve_type_holes(right);
        self.meta_repr_storage_equivalent_inner(&l, &r)
    }

    /// Whether two types (with holes already resolved) have the same
    /// storage (see `storage_equiv`).
    pub fn meta_repr_storage_equivalent_inner(&self, left: &Ty, right: &Ty) -> (r: bool)
        ensures
            r == storage_equiv(self.program, *left, *right, META_EXPANSION_LIMIT as nat),
    {
        self.storage_equiv_exec(left, right, META_EXPANSION_LIMIT)
    }

    /// Whether `marker` is a meta marker whose recorded structural
    /// representation has the storage of `concrete`.
    pub fn meta_repr_marker_matches_concrete(&self, marker: &Ty, concrete: &Ty) -> (r: bool)
        ensures
            r == match marker_sop(self.program.meta_sops@, *marker) {
                Some(sop) => storage_equiv(self.program, sop, *concrete, META_EXPANSION_LIMIT as nat),
                None => false,
            },
    {
        match find_marker_sop(&self.program.meta_sops, marker) {
            Some(i) => self.meta_repr_storage_equivalent_inner(&self.program.meta_sops[i].sop, concrete),
            None => false,
        }
    }
}


/// Storage equivalence with a type whose hidden state is set aside is
/// storage equivalence with its base type.
pub proof fn lemma_equiv_right_opaque(p: Program, x: Ty, b: Ty, st: StateList, f: nat)
    ensures
        storage_equiv(p, x, Ty::OpaqueState { base: Box::new(b), state: st }, f) == storage_equiv(p, x, b, f),
    decreases x,
{
    let o = Ty::OpaqueState { base: Box::new(b), state: st };
    match x {
        Ty::OpaqueState { base: b2, state: st2 } => {
            lemma_equiv_right_opaque(p, *b2, b, st, f);
            if x == b {
                lemma_equiv_right_opaque(p, *b2, *b2, st2, f);
            }
        },
        _ => {},
    }
}

/// Storage equivalence does not depend on the order of its operands.
pub proof fn lemma_equiv_symmetric(p: Program, l: Ty, r: Ty, f: nat)
    ensures
        storage_equiv(p, l, r, f) == storage_equiv(p, r, l, f),
    decreases l, r,
{
    if l == r {
    } else {
        match (l, r) {
            (Ty::OpaqueState { base, state }, _) => {
                lemma_equiv_symmetric(p, *base, r, f);
                lemma_equiv_right_opaque(p, r, *base, state, f);
            },
            (_, Ty::OpaqueState { base, .. }) => {
                lemma_equiv_symmetric(p, l, *base, f);
            },
            (
                Ty::Pointer { inner: i1, .. },
                Ty::Pointer { inner: i2, .. },
            ) => {
                lemma_equiv_symmetric(p, *i1, *i2, f);
            },
            (Ty::Array { elem: e1, .. }, Ty::Array { elem: e2, .. }) => {
                lemma_equiv_symmetric(p, *e1, *e2, f);
            },
            (Ty::Slice { elem: e1, .. }, Ty::Slice { elem: e2, .. }) => {
                lemma_equiv_symmetric(p, *e1, *e2, f);
            },
            (Ty::Named { args: a1, .. }, Ty::Named { args: a2, .. }) => {
                lemma_equiv_list_symmetric(p, a1, a2, f);
            },
            (Ty::DynamicInterface { args: a1, .. }, Ty::DynamicInterface { args: a2, .. }) => {
                lemma_equiv_list_symmetric(p, a1, a2, f);
            },
            (
                Ty::GeneratedFuture { output: out1, state: s1, .. },
                Ty::GeneratedFuture { output: out2, state: s2, .. },
            ) => {
                lemma_equiv_symmetric(p, *out1, *out2, f);
                lemma_equiv_state_symmetric(p, s1, s2, f);
            },
            (
                Ty::Function { ret: r1, params: p1, .. },
                Ty::Function { ret: r2, params: p2, .. },
            ) => {
                lemma_equiv_symmetric(p, *r1, *r2, f);
                lemma_equiv_list_symmetric(p, p1, p2, f);
            },
            (Ty::Closure { ret: r1, params: p1, .. }, Ty::Closure { ret: r2, params: p2, .. }) => {
                lemma_equiv_symmetric(p, *r1, *r2, f);
                lemma_equiv_list_symmetric(p, p1, p2, f);
            },
            (
                Ty::ClosureInstance { ret: r1, params: p1, captures: k1, .. },
                Ty::ClosureInstance { ret: r2, params: p2, captures: k2, .. },
            ) => {
                lemma_equiv_symmetric(p, *r1, *r2, f);
                lemma_equiv_list_symmetric(p, p1, p2, f);
                lemma_equiv_list_symmetric(p, k1, k2, f);
            },
            _ => {},
        }
    }
}

pub proof fn lemma_equiv_list_symmetric(p: Program, l: TyList, r: TyList, f: nat)
    ensures
        storage_equiv_list(p, l, r, f) == storage_equiv_list(p, r, l, f),
    decreases l, r,
{
    match (l, r) {
        (TyList::Cons(h1, t1), TyList::Cons(h2, t2)) => {
            lemma_equiv_symmetric(p, *h1, *h2, f);
            lemma_equiv_list_symmetric(p, *t1, *t2, f);
        },
        _ => {},
    }
}

pub proof fn lemma_equiv_state_symmetric(p: Program, l: StateList, r: StateList, f: nat)
    ensures
        storage_equiv_state(p, l, r, f) == storage_equiv_state(p, r, l, f),
    decreases l, r,
{
    match (l, r) {
        (StateList::Cons(_, t1, rest1), StateList::Cons(_, t2, rest2)) => {
            lemma_equiv_symmetric(p, *t1, *t2, f);
            lemma_equiv_state_symmetric(p, *rest1, *rest2, f);
        },
        _ => {},
    }
}

} // verus!
