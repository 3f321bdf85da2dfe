//! Generic substitutions: matching a pattern type against a type, and
//! substituting generic parameters.
use vstd::prelude::*;
use crate::ty::{
    bounds_match, copy_bounds, copy_state, copy_ty, copy_tys, known_ty_matches, states_match,
    Ty, TyList,
};

verus! {

/// A generic parameter bound to a type.
#[derive(Debug, PartialEq)]
pub struct Binding {
    pub name: u64,
    pub ty: Ty,
}

pub open spec fn lookup(s: Seq<Binding>, name: u64) -> Option<Ty>
    decreases s.len(),
{
    if s.len() == 0 {
        None
    } else if s[0].name == name {
        Some(s[0].ty)
    } else {
        lookup(s.drop_first(), name)
    }
}

/// Matches pattern `p` against `a`: generic parameters in `p` bind to the
/// corresponding parts of `a`, consistently with the bindings in `s`;
/// everything else must be equal.  The result extends `s`.
pub open spec fn match_ty(p: Ty, a: Ty, s: Seq<Binding>) -> Option<Seq<Binding>>
    decreases p,
{
    match (p, a) {
        (Ty::Generic(n), _) => match lookup(s, n) {
            Some(t) => if t == a {
                Some(s)
            } else {
                None
            },
            None => Some(s.push(Binding { name: n, ty: a })),
        },
        (
            Ty::Pointer { nullable: n1, mutability: m1, inner: i1 },
            Ty::Pointer { nullable: n2, mutability: m2, inner: i2 },
        ) => if n1 == n2 && m1 == m2 {
            match_ty(*i1, *i2, s)
        } else {
            None
        },
        (Ty::Array { len: l1, elem: e1 }, Ty::Array { len: l2, elem: e2 }) => if l1 == l2 {
            match_ty(*e1, *e2, s)
        } else {
            None
        },
        (Ty::Slice { mutability: m1, elem: e1 }, Ty::Slice { mutability: m2, elem: e2 }) => if m1
            == m2 {
            match_ty(*e1, *e2, s)
        } else {
            None
        },
        (Ty::Named { name: n1, args: a1 }, Ty::Named { name: n2, args: a2 }) => if n1 == n2 {
            match_list(a1, a2, s)
        } else {
            None
        },
        (
            Ty::DynamicInterface { def_id: d1, args: a1 },
            Ty::DynamicInterface { def_id: d2, args: a2 },
        ) => if d1 == d2 {
            match_list(a1, a2, s)
        } else {
            None
        },
        (
            Ty::Function { is_unsafe: u1, c_abi: c1, ret: r1, params: p1 },
            Ty::Function { is_unsafe: u2, c_abi: c2, ret: r2, params: p2 },
        ) => if u1 == u2 && c1 == c2 {
            match match_ty(*r1, *r2, s) {
                Some(s1) => match_list(p1, p2, s1),
                None => None,
            }
        } else {
            None
        },
        (
            Ty::Closure { ret: r1, params: p1, bounds: b1 },
            Ty::Closure { ret: r2, params: p2, bounds: b2 },
        ) => if b1 == b2 {
            match match_ty(*r1, *r2, s) {
                Some(s1) => match_list(p1, p2, s1),
                None => None,
            }
        } else {
            None
        },
        (Ty::GeneratedFuture { .. }, _) | (Ty::OpaqueReturn { .. }, _) | (
            Ty::ClosureInstance { .. },
            _,
        ) | (Ty::OpaqueState { .. }, _) => if p == a {
            Some(s)
        } else {
            None
        },
        _ => if p == a {
            Some(s)
        } else {
            None
        },
    }
}

pub open spec fn match_list(p: TyList, a: TyList, s: Seq<Binding>) -> Option<Seq<Binding>>
    decreases p,
{
    match (p, a) {
        (TyList::Nil, TyList::Nil) => Some(s),
        (TyList::Cons(ph, pt), TyList::Cons(ah, at)) => match match_ty(*ph, *ah, s) {
            Some(s1) => match_list(*pt, *at, s1),
            None => None,
        },
        _ => None,
    }
}

/// Replaces each bound generic parameter of `t` by its binding.
pub open spec fn subst_ty(t: Ty, s: Seq<Binding>) -> Ty
    decreases t,
{
    match t {
        Ty::Generic(n) => match lookup(s, n) {
            Some(b) => b,
            None => t,
        },
        Ty::Pointer { nullable, mutability, inner } => Ty::Pointer {
            nullable,
            mutability,
            inner: Box::new(subst_ty(*inner, s)),
        },
        Ty::Array { len, elem } => Ty::Array { len, elem: Box::new(subst_ty(*elem, s)) },
        Ty::Slice { mutability, elem } => Ty::Slice { mutability, elem: Box::new(subst_ty(*elem, s)) },
        Ty::Named { name, args } => Ty::Named { name, args: subst_list(args, s) },
        Ty::DynamicInterface { def_id, args } => Ty::DynamicInterface {
            def_id,
            args: subst_list(args, s),
        },
        Ty::Function { is_unsafe, c_abi, ret, params } => Ty::Function {
            is_unsafe,
            c_abi,
            ret: Box::new(subst_ty(*ret, s)),
            params: subst_list(params, s),
        },
        Ty::Closure { ret, params, bounds } => Ty::Closure {
            ret: Box::new(subst_ty(*ret, s)),
            params: subst_list(params, s),
            bounds,
        },
        _ => t,
    }
}

pub open spec fn subst_list(l: TyList, s: Seq<Binding>) -> TyList
    decreases l,
{
    match l {
        TyList::Nil => TyList::Nil,
        TyList::Cons(h, t) => TyList::Cons(Box::new(subst_ty(*h, s)), Box::new(subst_list(*t, s))),
    }
}

/// The binding of generic `name` in `s`.
pub fn lookup_binding(s: &Vec<Binding>, name: u64) -> (r: Option<Ty>)
    ensures
        r == lookup(s@, name),
{
    let mut i: usize = 0;
    assert(s@.skip(0) =~= s@);
    while i < s.len()
        invariant
            i <= s@.len(),
            lookup(s@, name) == lookup(s@.skip(i as int), name),
        decreases s@.len() - i,
    {
        assert(s@.skip(i as int).drop_first() =~= s@.skip(i + 1));
        if s[i].name == name {
            return Some(copy_ty(&s[i].ty));
        }
        i += 1;
    }
    None
}

/// Matches pattern `p` against `a`, extending `s` (see [`match_ty`]).  On a
/// failed match `s` may hold partial bindings.
pub fn unify_ty(p: &Ty, a: &Ty, s: &mut Vec<Binding>) -> (r: bool)
    ensures
        r == (match_ty(*p, *a, old(s)@) is Some),
        r ==> final(s)@ == match_ty(*p, *a, old(s)@)->0,
    decreases p,
{
    match (p, a) {
        (Ty::Generic(n), _) => match lookup_binding(s, *n) {
            Some(t) => known_ty_matches(&t, a),
            None => {
                s.push(Binding { name: *n, ty: copy_ty(a) });
                true
            },
        },
        (
            Ty::Pointer { nullable: n1, mutability: m1, inner: i1 },
            Ty::Pointer { nullable: n2, mutability: m2, inner: i2 },
        ) => *n1 == *n2 && *m1 == *m2 && unify_ty(i1, i2, s),
        (Ty::Array { len: l1, elem: e1 }, Ty::Array { len: l2, elem: e2 }) => *l1 == *l2
            && unify_ty(e1, e2, s),
        (Ty::Slice { mutability: m1, elem: e1 }, Ty::Slice { mutability: m2, elem: e2 }) => *m1
            == *m2 && unify_ty(e1, e2, s),
        (Ty::Named { name: n1, args: a1 }, Ty::Named { name: n2, args: a2 }) => *n1 == *n2
            && unify_list(a1, a2, s),
        (
            Ty::DynamicInterface { def_id: d1, args: a1 },
            Ty::DynamicInterface { def_id: d2, args: a2 },
        ) => *d1 == *d2 && unify_list(a1, a2, s),
        (
            Ty::Function { is_unsafe: u1, c_abi: c1, ret: r1, params: p1 },
            Ty::Function { is_unsafe: u2, c_abi: c2, ret: r2, params: p2 },
        ) => *u1 == *u2 && *c1 == *c2 && unify_ty(r1, r2, s) && unify_list(p1, p2, s),
        (
            Ty::Closure { ret: r1, params: p1, bounds: b1 },
            Ty::Closure { ret: r2, params: p2, bounds: b2 },
        ) => bounds_match(b1, b2) && unify_ty(r1, r2, s) && unify_list(p1, p2, s),
        (Ty::Pointer { .. }, _) | (Ty::Array { .. }, _) | (Ty::Slice { .. }, _) | (
            Ty::Named { .. },
            _,
        ) | (Ty::DynamicInterface { .. }, _) | (Ty::Function { .. }, _) | (Ty::Closure { .. }, _) =>
            false,
        _ => known_ty_matches(p, a),
    }
}

pub fn unify_list(p: &TyList, a: &TyList, s: &mut Vec<Binding>) -> (r: bool)
    ensures
        r == (match_list(*p, *a, old(s)@) is Some),
        r ==> final(s)@ == match_list(*p, *a, old(s)@)->0,
    decreases p,
{
    match (p, a) {
        (TyList::Nil, TyList::Nil) => true,
        (TyList::Cons(ph, pt), TyList::Cons(ah, at)) => unify_ty(ph, ah, s) && unify_list(
            pt,
            at,
            s,
        ),
        _ => false,
    }
}

/// `t` with each bound generic parameter replaced (see [`subst_ty`]).
pub fn substitute_ty(t: &Ty, s: &Vec<Binding>) -> (r: Ty)
    ensures
        r == subst_ty(*t, s@),
    decreases t,
{
    match t {
        Ty::Generic(n) => match lookup_binding(s, *n) {
            Some(b) => b,
            None => Ty::Generic(*n),
        },
        Ty::Pointer { nullable, mutability, inner } => Ty::Pointer {
            nullable: *nullable,
            mutability: *mutability,
            inner: Box::new(substitute_ty(inner, s)),
        },
        Ty::Array { len, elem } => Ty::Array { len: *len, elem: Box::new(substitute_ty(elem, s)) },
        Ty::Slice { mutability, elem } => Ty::Slice {
            mutability: *mutability,
            elem: Box::new(substitute_ty(elem, s)),
        },
        Ty::Named { name, args } => Ty::Named { name: *name, args: substitute_list(args, s) },
        Ty::DynamicInterface { def_id, args } => Ty::DynamicInterface {
            def_id: *def_id,
            args: substitute_list(args, s),
        },
        Ty::Function { is_unsafe, c_abi, ret, params } => Ty::Function {
            is_unsafe: *is_unsafe,
            c_abi: *c_abi,
            ret: Box::new(substitute_ty(ret, s)),
            params: substitute_list(params, s),
        },
        Ty::Closure { ret, params, bounds } => Ty::Closure {
            ret: Box::new(substitute_ty(ret, s)),
            params: substitute_list(params, s),
            bounds: copy_bounds(bounds),
        },
        _ => copy_ty(t),
    }
}

pub fn substitute_list(l: &TyList, s: &Vec<Binding>) -> (r: TyList)
    ensures
        r == subst_list(*l, s@),
    decreases l,
{
    match l {
        TyList::Nil => TyList::Nil,
        TyList::Cons(h, t) => TyList::Cons(
            Box::new(substitute_ty(h, s)),
            Box::new(substitute_list(t, s)),
        ),
    }
}

} // verus!
