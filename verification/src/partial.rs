//! Partial inference: generic parameters replaced by fresh inference holes,
//! one hole per parameter.
use vstd::prelude::*;
use crate::checker::TypeChecker;
use crate::generic::{lookup, lookup_binding, Binding};
use crate::ty::{Bounds, CapList, Ty, TyList};

verus! {

/// The number of generic parameter occurrences in a type, counting those in
/// closure bounds.
pub open spec fn occurrences(t: Ty) -> nat
    decreases t,
{
    match t {
        Ty::Generic(_) => 1,
        Ty::Pointer { inner, .. } => occurrences(*inner),
        Ty::Array { elem, .. } => occurrences(*elem),
        Ty::Slice { elem, .. } => occurrences(*elem),
        Ty::Named { args, .. } => occurrences_list(args),
        Ty::DynamicInterface { args, .. } => occurrences_list(args),
        Ty::Function { ret, params, .. } => occurrences(*ret) + occurrences_list(params),
        Ty::Closure { ret, params, bounds } => occurrences(*ret) + occurrences_list(params) + occurrences_bounds(bounds),
        Ty::ClosureInstance { ret, params, captures, .. } => occurrences(*ret) + occurrences_list(params)
            + occurrences_list(captures),
        _ => 0,
    }
}

pub open spec fn occurrences_list(l: TyList) -> nat
    decreases l,
{
    match l {
        TyList::Nil => 0,
        TyList::Cons(h, t) => occurrences(*h) + occurrences_list(*t),
    }
}

pub open spec fn occurrences_caps(c: CapList) -> nat
    decreases c,
{
    match c {
        CapList::Nil => 0,
        CapList::Cons(_, args, rest) => occurrences_list(*args) + occurrences_caps(*rest),
    }
}

pub open spec fn occurrences_bounds(b: Bounds) -> nat
    decreases b,
{
    occurrences_caps(b.positive) + occurrences_caps(b.negative)
}

/// `t` with each generic parameter replaced by its hole in `holes`, or by a
/// fresh hole (numbered from `next` on) that is then recorded; gives the
/// type, the holes and the next free hole number.
pub open spec fn partial(t: Ty, holes: Seq<Binding>, next: nat) -> (Ty, Seq<Binding>, nat)
    decreases t,
{
    match t {
        Ty::Generic(n) => match lookup(holes, n) {
            Some(h) => (h, holes, next),
            None => (Ty::Hole(next as u64), holes.push(Binding { name: n, ty: Ty::Hole(next as u64) }), next + 1),
        },
        Ty::Pointer { nullable, mutability, inner } => {
            let (i, h, k) = partial(*inner, holes, next);
            (Ty::Pointer { nullable, mutability, inner: Box::new(i) }, h, k)
        },
        Ty::Array { len, elem } => {
            let (e, h, k) = partial(*elem, holes, next);
            (Ty::Array { len, elem: Box::new(e) }, h, k)
        },
        Ty::Slice { mutability, elem } => {
            let (e, h, k) = partial(*elem, holes, next);
            (Ty::Slice { mutability, elem: Box::new(e) }, h, k)
        },
        Ty::Named { name, args } => {
            let (a, h, k) = partial_list(args, holes, next);
            (Ty::Named { name, args: a }, h, k)
        },
        Ty::DynamicInterface { def_id, args } => {
            let (a, h, k) = partial_list(args, holes, next);
            (Ty::DynamicInterface { def_id, args: a }, h, k)
        },
        Ty::Function { is_unsafe, c_abi, ret, params } => {
            let (r, h1, k1) = partial(*ret, holes, next);
            let (p, h2, k2) = partial_list(params, h1, k1);
            (Ty::Function { is_unsafe, c_abi, ret: Box::new(r), params: p }, h2, k2)
        },
        Ty::Closure { ret, params, bounds } => {
            let (r, h1, k1) = partial(*ret, holes, next);
            let (p, h2, k2) = partial_list(params, h1, k1);
            let (b, h3, k3) = partial_bounds(bounds, h2, k2);
            (Ty::Closure { ret: Box::new(r), params: p, bounds: b }, h3, k3)
        },
        Ty::ClosureInstance { id, ret, params, captures } => {
            let (r, h1, k1) = partial(*ret, holes, next);
            let (p, h2, k2) = partial_list(params, h1, k1);
            let (c, h3, k3) = partial_list(captures, h2, k2);
            (Ty::ClosureInstance { id, ret: Box::new(r), params: p, captures: c }, h3, k3)
        },
        _ => (t, holes, next),
    }
}

pub open spec fn partial_list(l: TyList, holes: Seq<Binding>, next: nat) -> (TyList, Seq<Binding>, nat)
    decreases l,
{
    match l {
        TyList::Nil => (TyList::Nil, holes, next),
        TyList::Cons(hd, tl) => {
            let (a, h1, k1) = partial(*hd, holes, next);
            let (b, h2, k2) = partial_list(*tl, h1, k1);
            (TyList::Cons(Box::new(a), Box::new(b)), h2, k2)
        },
    }
}

pub open spec fn partial_caps(c: CapList, holes: Seq<Binding>, next: nat) -> (CapList, Seq<Binding>, nat)
    decreases c,
{
    match c {
        CapList::Nil => (CapList::Nil, holes, next),
        CapList::Cons(d, args, rest) => {
            let (a, h1, k1) = partial_list(*args, holes, next);
            let (r, h2, k2) = partial_caps(*rest, h1, k1);
            (CapList::Cons(d, Box::new(a), Box::new(r)), h2, k2)
        },
    }
}

pub open spec fn partial_bounds(b: Bounds, holes: Seq<Binding>, next: nat) -> (Bounds, Seq<Binding>, nat)
    decreases b,
{
    let (p, h1, k1) = partial_caps(b.positive, holes, next);
    let (n, h2, k2) = partial_caps(b.negative, h1, k1);
    (Bounds { positive: p, negative: n }, h2, k2)
}

/// Each replaced occurrence allocates at most one hole.
proof fn lemma_partial_bound(t: Ty, holes: Seq<Binding>, next: nat)
    ensures
        next <= partial(t, holes, next).2 <= next + occurrences(t),
    decreases t,
{
    match t {
        Ty::Pointer { inner, .. } => lemma_partial_bound(*inner, holes, next),
        Ty::Array { elem, .. } => lemma_partial_bound(*elem, holes, next),
        Ty::Slice { elem, .. } => lemma_partial_bound(*elem, holes, next),
        Ty::Named { args, .. } => lemma_partial_list_bound(args, holes, next),
        Ty::DynamicInterface { args, .. } => lemma_partial_list_bound(args, holes, next),
        Ty::Function { ret, params, .. } => {
            lemma_partial_bound(*ret, holes, next);
            let (_, h1, k1) = partial(*ret, holes, next);
            lemma_partial_list_bound(params, h1, k1);
        },
        Ty::Closure { ret, params, bounds } => {
            lemma_partial_bound(*ret, holes, next);
            let (_, h1, k1) = partial(*ret, holes, next);
            lemma_partial_list_bound(params, h1, k1);
            let (_, h2, k2) = partial_list(params, h1, k1);
            lemma_partial_bounds_bound(bounds, h2, k2);
        },
        Ty::ClosureInstance { ret, params, captures, .. } => {
            lemma_partial_bound(*ret, holes, next);
            let (_, h1, k1) = partial(*ret, holes, next);
            lemma_partial_list_bound(params, h1, k1);
            let (_, h2, k2) = partial_list(params, h1, k1);
            lemma_partial_list_bound(captures, h2, k2);
        },
        _ => {},
    }
}

proof fn lemma_partial_list_bound(l: TyList, holes: Seq<Binding>, next: nat)
    ensures
        next <= partial_list(l, holes, next).2 <= next + occurrences_list(l),
    decreases l,
{
    match l {
        TyList::Nil => {},
        TyList::Cons(hd, tl) => {
            lemma_partial_bound(*hd, holes, next);
            let (_, h1, k1) = partial(*hd, holes, next);
            lemma_partial_list_bound(*tl, h1, k1);
        },
    }
}

proof fn lemma_partial_caps_bound(c: CapList, holes: Seq<Binding>, next: nat)
    ensures
        next <= partial_caps(c, holes, next).2 <= next + occurrences_caps(c),
    decreases c,
{
    match c {
        CapList::Nil => {},
        CapList::Cons(_, args, rest) => {
            lemma_partial_list_bound(*args, holes, next);
            let (_, h1, k1) = partial_list(*args, holes, next);
            lemma_partial_caps_bound(*rest, h1, k1);
        },
    }
}

proof fn lemma_partial_bounds_bound(b: Bounds, holes: Seq<Binding>, next: nat)
    ensures
        next <= partial_bounds(b, holes, next).2 <= next + occurrences_bounds(b),
    decreases b,
{
    lemma_partial_caps_bound(b.positive, holes, next);
    let (_, h1, k1) = partial_caps(b.positive, holes, next);
    lemma_partial_caps_bound(b.negative, h1, k1);
}

impl TypeChecker {
    /// `ty` with each generic parameter replaced by its hole in `holes`, or
    /// by a fresh hole that is then recorded there.
    pub fn partial_inference_ty(&mut self, ty: &Ty, holes: &mut Vec<Binding>) -> (r: Ty)
        requires
            old(self).state.next_type_hole_id + occurrences(*ty) <= u64::MAX,
        ensures
            ({
                let (t, h, k) = partial(*ty, old(holes)@, old(self).state.next_type_hole_id as nat);
                &&& r == t
                &&& final(holes)@ == h
                &&& final(self).state.next_type_hole_id == k
            }),
            final(self).program == old(self).program,
            final(self).diagnostics == old(self).diagnostics,
            final(self).capability_cache == old(self).capability_cache,
            final(self).capability_epoch == old(self).capability_epoch,
            final(self).state == (crate::checker::CheckerState {
                next_type_hole_id: final(self).state.next_type_hole_id,
                ..old(self).state
            }),
        decreases ty,
    {
        proof {
            lemma_partial_bound(*ty, holes@, self.state.next_type_hole_id as nat);
        }
        match ty {
            Ty::Generic(name) => {
                if let Some(hole) = lookup_binding(holes, *name) {
                    return hole;
                }
                let id = self.state.next_type_hole_id;
                self.state.next_type_hole_id = id + 1;
                holes.push(Binding { name: *name, ty: Ty::Hole(id) });
                Ty::Hole(id)
            },
            Ty::Pointer { nullable, mutability, inner } => Ty::Pointer {
                nullable: *nullable,
                mutability: *mutability,
                inner: Box::new(self.partial_inference_ty(inner, holes)),
            },
            Ty::Array { len, elem } => Ty::Array { len: *len, elem: Box::new(self.partial_inference_ty(elem, holes)) },
            Ty::Slice { mutability, elem } => Ty::Slice {
                mutability: *mutability,
                elem: Box::new(self.partial_inference_ty(elem, holes)),
            },
            Ty::Named { name, args } => Ty::Named { name: *name, args: self.partial_inference_list(args, holes) },
            Ty::DynamicInterface { def_id, args } => Ty::DynamicInterface {
                def_id: *def_id,
                args: self.partial_inference_list(args, holes),
            },
            Ty::Function { is_unsafe, c_abi, ret, params } => {
                proof {
                    lemma_partial_bound(**ret, holes@, self.state.next_type_hole_id as nat);
                }
                let r = self.partial_inference_ty(ret, holes);
                let p = self.partial_inference_list(params, holes);
                Ty::Function { is_unsafe: *is_unsafe, c_abi: *c_abi, ret: Box::new(r), params: p }
            },
            Ty::Closure { ret, params, bounds } => {
                proof {
                    lemma_partial_bound(**ret, holes@, self.state.next_type_hole_id as nat);
                }
                let r = self.partial_inference_ty(ret, holes);
                proof {
                    lemma_partial_list_bound(*params, holes@, self.state.next_type_hole_id as nat);
                }
                let p = self.partial_inference_list(params, holes);
                let b = self.partial_inference_constraint_bounds(bounds, holes);
                Ty::Closure { ret: Box::new(r), params: p, bounds: b }
            },
            Ty::ClosureInstance { id, ret, params, captures } => {
                proof {
                    lemma_partial_bound(**ret, holes@, self.state.next_type_hole_id as nat);
                }
                let r = self.partial_inference_ty(ret, holes);
                proof {
                    lemma_partial_list_bound(*params, holes@, self.state.next_type_hole_id as nat);
                }
                let p = self.partial_inference_list(params, holes);
                let c = self.partial_inference_list(captures, holes);
                Ty::ClosureInstance { id: *id, ret: Box::new(r), params: p, captures: c }
            },
            _ => crate::ty::copy_ty(ty),
        }
    }

    fn partial_inference_list(&mut self, l: &TyList, holes: &mut Vec<Binding>) -> (r: TyList)
        requires
            old(self).state.next_type_hole_id + occurrences_list(*l) <= u64::MAX,
        ensures
            ({
                let (t, h, k) = partial_list(*l, old(holes)@, old(self).state.next_type_hole_id as nat);
                &&& r == t
                &&& final(holes)@ == h
                &&& final(self).state.next_type_hole_id == k
            }),
            final(self).program == old(self).program,
            final(self).diagnostics == old(self).diagnostics,
            final(self).capability_cache == old(self).capability_cache,
            final(self).capability_epoch == old(self).capability_epoch,
            final(self).state == (crate::checker::CheckerState {
                next_type_hole_id: final(self).state.next_type_hole_id,
                ..old(self).state
            }),
        decreases l,
    {
        proof {
            lemma_partial_list_bound(*l, holes@, self.state.next_type_hole_id as nat);
        }
        match l {
            TyList::Nil => TyList::Nil,
            TyList::Cons(hd, tl) => {
                proof {
                    lemma_partial_bound(**hd, holes@, self.state.next_type_hole_id as nat);
                }
                let a = self.partial_inference_ty(hd, holes);
                let b = self.partial_inference_list(tl, holes);
                TyList::Cons(Box::new(a), Box::new(b))
            },
        }
    }

    fn partial_inference_caps(&mut self, c: &CapList, holes: &mut Vec<Binding>) -> (r: CapList)
        requires
            old(self).state.next_type_hole_id + occurrences_caps(*c) <= u64::MAX,
        ensures
            ({
                let (t, h, k) = partial_caps(*c, old(holes)@, old(self).state.next_type_hole_id as nat);
                &&& r == t
                &&& final(holes)@ == h
                &&& final(self).state.next_type_hole_id == k
            }),
            final(self).program == old(self).program,
            final(self).diagnostics == old(self).diagnostics,
            final(self).capability_cache == old(self).capability_cache,
            final(self).capability_epoch == old(self).capability_epoch,
            final(self).state == (crate::checker::CheckerState {
                next_type_hole_id: final(self).state.next_type_hole_id,
                ..old(self).state
            }),
        decreases c,
    {
        match c {
            CapList::Nil => CapList::Nil,
            CapList::Cons(d, args, rest) => {
                proof {
                    lemma_partial_list_bound(**args, holes@, self.state.next_type_hole_id as nat);
                }
                let a = self.partial_inference_list(args, holes);
                let r = self.partial_inference_caps(rest, holes);
                CapList::Cons(*d, Box::new(a), Box::new(r))
            },
        }
    }

    /// Closure bounds with each generic parameter of their arguments
    /// replaced as by `partial_inference_ty`.
    pub fn partial_inference_constraint_bounds(&mut self, bounds: &Bounds, holes: &mut Vec<Binding>) -> (r: Bounds)
        requires
            old(self).state.next_type_hole_id + occurrences_bounds(*bounds) <= u64::MAX,
        ensures
            ({
                let (t, h, k) = partial_bounds(*bounds, old(holes)@, old(self).state.next_type_hole_id as nat);
                &&& r == t
                &&& final(holes)@ == h
                &&& final(self).state.next_type_hole_id == k
            }),
            final(self).program == old(self).program,
            final(self).diagnostics == old(self).diagnostics,
            final(self).capability_cache == old(self).capability_cache,
            final(self).capability_epoch == old(self).capability_epoch,
            final(self).state == (crate::checker::CheckerState {
                next_type_hole_id: final(self).state.next_type_hole_id,
                ..old(self).state
            }),
        decreases bounds,
    {
        proof {
            lemma_partial_caps_bound(bounds.positive, holes@, self.state.next_type_hole_id as nat);
        }
        let p = self.partial_inference_caps(&bounds.positive, holes);
        let n = self.partial_inference_caps(&bounds.negative, holes);
        Bounds { positive: p, negative: n }
    }
}

} // verus!
