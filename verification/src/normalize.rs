//! Substitution of generic arguments into a type, reporting whether a
//! generic was actually replaced.
use vstd::prelude::*;
use crate::capability_checks::subst_caps;
use crate::checker::{StdDefs, TypeChecker};
use crate::generic::{lookup, lookup_binding, Binding};
use crate::ty::{copy_ty, tys_len, Bounds, StateList, Ty, TyList};

verus! {

/// A type after substitution, and whether some generic in it was replaced.
#[derive(Debug, PartialEq)]
pub struct SubstitutedTy {
    pub ty: Ty,
    pub from_replacement: bool,
}

/// Substitutes the bindings `s` for the generics of `t`: into every part
/// of every type constructor, including the output and state of generated
/// futures, closure bounds and closure-instance captures.  The flag tells
/// whether a generic was replaced (a bound closure's constraints do not
/// count).  Arguments of the meta representation marker are substituted
/// too, but it takes exactly one: with another number it becomes the
/// unknown type, and it never counts as a replacement.
pub open spec fn subst_norm(std: StdDefs, t: Ty, s: Seq<Binding>) -> (Ty, bool)
    decreases t, 1nat,
{
    match t {
        Ty::Generic(n) => match lookup(s, n) {
            Some(x) => (x, true),
            None => (t, false),
        },
        Ty::Named { name, args } => {
            let a = subst_norm_list(std, args, s);
            if std.meta_repr_marker == Some(name) {
                if tys_len(a.0) != 1 {
                    (Ty::Unknown, false)
                } else {
                    (Ty::Named { name, args: a.0 }, false)
                }
            } else {
                (Ty::Named { name, args: a.0 }, a.1)
            }
        },
        Ty::Pointer { nullable, mutability, inner } => {
            let i = subst_norm(std, *inner, s);
            (Ty::Pointer { nullable, mutability, inner: Box::new(i.0) }, i.1)
        },
        Ty::Array { len, elem } => {
            let e = subst_norm(std, *elem, s);
            (Ty::Array { len, elem: Box::new(e.0) }, e.1)
        },
        Ty::Slice { mutability, elem } => {
            let e = subst_norm(std, *elem, s);
            (Ty::Slice { mutability, elem: Box::new(e.0) }, e.1)
        },
        Ty::GeneratedFuture { origin, output, cancel_safe, abortable, affine_state, state } => {
            let o = subst_norm(std, *output, s);
            let st = subst_norm_state(std, state, s);
            (
                Ty::GeneratedFuture {
                    origin,
                    output: Box::new(o.0),
                    cancel_safe,
                    abortable,
                    affine_state,
                    state: st.0,
                },
                o.1 || st.1,
            )
        },
        Ty::DynamicInterface { def_id, args } => {
            let a = subst_norm_list(std, args, s);
            (Ty::DynamicInterface { def_id, args: a.0 }, a.1)
        },
        Ty::Function { is_unsafe, c_abi, ret, params } => {
            let r = subst_norm(std, *ret, s);
            let p = subst_norm_list(std, params, s);
            (Ty::Function { is_unsafe, c_abi, ret: Box::new(r.0), params: p.0 }, r.1 || p.1)
        },
        Ty::Closure { ret, params, bounds } => {
            let r = subst_norm(std, *ret, s);
            let p = subst_norm_list(std, params, s);
            (
                Ty::Closure {
                    ret: Box::new(r.0),
                    params: p.0,
                    bounds: Bounds { positive: subst_caps(bounds.positive, s), negative: subst_caps(bounds.negative, s) },
                },
                r.1 || p.1,
            )
        },
        Ty::ClosureInstance { id, ret, params, captures } => {
            let r = subst_norm(std, *ret, s);
            let p = subst_norm_list(std, params, s);
            let c = subst_norm_list(std, captures, s);
            (Ty::ClosureInstance { id, ret: Box::new(r.0), params: p.0, captures: c.0 }, r.1 || p.1 || c.1)
        },
        _ => (t, false),
    }
}

pub open spec fn subst_norm_list(std: StdDefs, l: TyList, s: Seq<Binding>) -> (TyList, bool)
    decreases l, 0nat,
{
    match l {
        TyList::Nil => (TyList::Nil, false),
        TyList::Cons(h, t) => {
            let a = subst_norm(std, *h, s);
            let b = subst_norm_list(std, *t, s);
            (TyList::Cons(Box::new(a.0), Box::new(b.0)), a.1 || b.1)
        },
    }
}

pub open spec fn subst_norm_state(std: StdDefs, l: StateList, s: Seq<Binding>) -> (StateList, bool)
    decreases l, 0nat,
{
    match l {
        StateList::Nil => (StateList::Nil, false),
        StateList::Cons(k, t, rest) => {
            let a = subst_norm(std, *t, s);
            let b = subst_norm_state(std, *rest, s);
            (StateList::Cons(k, Box::new(a.0), Box::new(b.0)), a.1 || b.1)
        },
    }
}

impl TypeChecker {
    /// Substitutes the bindings into a type, telling whether a generic was
    /// replaced (see `subst_norm`).
    pub fn substitute_ty_normalized_inner(&self, ty: &Ty, subst: &Vec<Binding>) -> (r: SubstitutedTy)
        ensures
            (r.ty, r.from_replacement) == subst_norm(self.program.std, *ty, subst@),
        decreases ty, 1nat,
    {
        match ty {
            Ty::Generic(n) => match lookup_binding(subst, *n) {
                Some(x) => SubstitutedTy { ty: x, from_replacement: true },
                None => SubstitutedTy { ty: Ty::Generic(*n), from_replacement: false },
            },
            Ty::Named { name, args } => {
                let (a, replaced) = self.substitute_list_normalized(args, subst);
                let marker = match self.program.std.meta_repr_marker {
                    Some(m) => m == *name,
                    None => false,
                };
                if marker {
                    if !crate::boundary::list_len_is(&a, 1) {
                        SubstitutedTy { ty: Ty::Unknown, from_replacement: false }
                    } else {
                        SubstitutedTy { ty: Ty::Named { name: *name, args: a }, from_replacement: false }
                    }
                } else {
                    SubstitutedTy { ty: Ty::Named { name: *name, args: a }, from_replacement: replaced }
                }
            },
            Ty::Pointer { nullable, mutability, inner } => {
                let i = self.substitute_ty_normalized_inner(inner, subst);
                SubstitutedTy {
                    ty: Ty::Pointer { nullable: *nullable, mutability: *mutability, inner: Box::new(i.ty) },
                    from_replacement: i.from_replacement,
                }
            },
            Ty::Array { len, elem } => {
                let e = self.substitute_ty_normalized_inner(elem, subst);
                SubstitutedTy { ty: Ty::Array { len: *len, elem: Box::new(e.ty) }, from_replacement: e.from_replacement }
            },
            Ty::Slice { mutability, elem } => {
                let e = self.substitute_ty_normalized_inner(elem, subst);
                SubstitutedTy {
                    ty: Ty::Slice { mutability: *mutability, elem: Box::new(e.ty) },
                    from_replacement: e.from_replacement,
                }
            },
            Ty::GeneratedFuture { origin, output, cancel_safe, abortable, affine_state, state } => {
                let o = self.substitute_ty_normalized_inner(output, subst);
                let (st, st_replaced) = self.substitute_state_normalized(state, subst);
                SubstitutedTy {
                    ty: Ty::GeneratedFuture {
                        origin: *origin,
                        output: Box::new(o.ty),
                        cancel_safe: *cancel_safe,
                        abortable: *abortable,
                        affine_state: *affine_state,
                        state: st,
                    },
                    from_replacement: o.from_replacement || st_replaced,
                }
            },
            Ty::DynamicInterface { def_id, args } => {
                let (a, replaced) = self.substitute_list_normalized(args, subst);
                SubstitutedTy { ty: Ty::DynamicInterface { def_id: *def_id, args: a }, from_replacement: replaced }
            },
            Ty::Function { is_unsafe, c_abi, ret, params } => {
                let r = self.substitute_ty_normalized_inner(ret, subst);
                let (p, replaced) = self.substitute_list_normalized(params, subst);
                SubstitutedTy {
                    ty: Ty::Function { is_unsafe: *is_unsafe, c_abi: *c_abi, ret: Box::new(r.ty), params: p },
                    from_replacement: r.from_replacement || replaced,
                }
            },
            Ty::Closure { ret, params, bounds } => {
                let r = self.substitute_ty_normalized_inner(ret, subst);
                let (p, replaced) = self.substitute_list_normalized(params, subst);
                let b = Bounds {
                    positive: TypeChecker::substitute_caps(&bounds.positive, subst),
                    negative: TypeChecker::substitute_caps(&bounds.negative, subst),
                };
                SubstitutedTy {
                    ty: Ty::Closure { ret: Box::new(r.ty), params: p, bounds: b },
                    from_replacement: r.from_replacement || replaced,
                }
            },
            Ty::ClosureInstance { id, ret, params, captures } => {
                let r = self.substitute_ty_normalized_inner(ret, subst);
                let (p, p_replaced) = self.substitute_list_normalized(params, subst);
                let (c, c_replaced) = self.substitute_list_normalized(captures, subst);
                SubstitutedTy {
                    ty: Ty::ClosureInstance { id: *id, ret: Box::new(r.ty), params: p, captures: c },
                    from_replacement: r.from_replacement || p_replaced || c_replaced,
                }
            },
            _ => SubstitutedTy { ty: copy_ty(ty), from_replacement: false },
        }
    }

    fn substitute_list_normalized(&self, l: &TyList, subst: &Vec<Binding>) -> (r: (TyList, bool))
        ensures
            r == subst_norm_list(self.program.std, *l, subst@),
        decreases l, 0nat,
    {
        match l {
            TyList::Nil => (TyList::Nil, false),
            TyList::Cons(h, t) => {
                let a = self.substitute_ty_normalized_inner(h, subst);
                let (b, replaced) = self.substitute_list_normalized(t, subst);
                (TyList::Cons(Box::new(a.ty), Box::new(b)), a.from_replacement || replaced)
            },
        }
    }

    fn substitute_state_normalized(&self, l: &StateList, subst: &Vec<Binding>) -> (r: (StateList, bool))
        ensures
            r == subst_norm_state(self.program.std, *l, subst@),
        decreases l, 0nat,
    {
        match l {
            StateList::Nil => (StateList::Nil, false),
            StateList::Cons(k, t, rest) => {
                let a = self.substitute_ty_normalized_inner(t, subst);
                let (b, replaced) = self.substitute_state_normalized(rest, subst);
                (StateList::Cons(*k, Box::new(a.ty), Box::new(b)), a.from_replacement || replaced)
            },
        }
    }

    /// A type with the bindings substituted (see `subst_norm`).
    pub fn substitute_ty_normalized(&self, ty: &Ty, subst: &Vec<Binding>) -> (r: Ty)
        ensures
            r == subst_norm(self.program.std, *ty, subst@).0,
    {
        self.substitute_ty_normalized_inner(ty, subst).ty
    }
}

} // verus!
