//! Inference holes: types still to be determined, their solutions, and
//! unification that solves them.
use vstd::prelude::*;
use crate::checker::{CheckerState, HoleBinding, Program, TypeChecker};
use crate::meta::{storage_equiv, META_EXPANSION_LIMIT};
use crate::ty::{copy_bounds, copy_ty, known_ty_matches, tys_len, Bounds, CapList, Ty, TyList};
use crate::props::has_hole;

verus! {

/// How deeply nested two types may be unified; deeper nesting is treated
/// as a failure to unify (the recursion needs a bound to be total).
pub const UNIFY_DEPTH_LIMIT: u64 = 1024;

pub open spec fn hole_solution(s: Seq<HoleBinding>, id: u64) -> Option<Ty>
    decreases s.len(),
{
    if s.len() == 0 {
        None
    } else if s[0].id == id {
        Some(s[0].ty)
    } else {
        hole_solution(s.drop_first(), id)
    }
}

/// `t` with each solved hole replaced by its (resolved) solution.  At most
/// `fuel` solutions are followed in a row, which suffices for every chain of
/// solutions when `fuel` is the number of solutions.
pub open spec fn resolve(s: Seq<HoleBinding>, t: Ty, fuel: nat) -> Ty
    decreases fuel, t,
{
    match t {
        Ty::Hole(id) => match hole_solution(s, id) {
            Some(sol) => if fuel > 0 {
                resolve(s, sol, (fuel - 1) as nat)
            } else {
                t
            },
            None => t,
        },
        Ty::Pointer { nullable, mutability, inner } => Ty::Pointer {
            nullable,
            mutability,
            inner: Box::new(resolve(s, *inner, fuel)),
        },
        Ty::Array { len, elem } => Ty::Array { len, elem: Box::new(resolve(s, *elem, fuel)) },
        Ty::Slice { mutability, elem } => Ty::Slice { mutability, elem: Box::new(resolve(s, *elem, fuel)) },
        Ty::Named { name, args } => Ty::Named { name, args: resolve_list(s, args, fuel) },
        Ty::DynamicInterface { def_id, args } => Ty::DynamicInterface {
            def_id,
            args: resolve_list(s, args, fuel),
        },
        Ty::Function { is_unsafe, c_abi, ret, params } => Ty::Function {
            is_unsafe,
            c_abi,
            ret: Box::new(resolve(s, *ret, fuel)),
            params: resolve_list(s, params, fuel),
        },
        Ty::Closure { ret, params, bounds } => Ty::Closure {
            ret: Box::new(resolve(s, *ret, fuel)),
            params: resolve_list(s, params, fuel),
            bounds,
        },
        Ty::ClosureInstance { id, ret, params, captures } => Ty::ClosureInstance {
            id,
            ret: Box::new(resolve(s, *ret, fuel)),
            params: resolve_list(s, params, fuel),
            captures: resolve_list(s, captures, fuel),
        },
        _ => t,
    }
}

pub open spec fn resolve_list(s: Seq<HoleBinding>, l: TyList, fuel: nat) -> TyList
    decreases fuel, l,
{
    match l {
        TyList::Nil => TyList::Nil,
        TyList::Cons(h, t) => TyList::Cons(
            Box::new(resolve(s, *h, fuel)),
            Box::new(resolve_list(s, *t, fuel)),
        ),
    }
}

/// `t` with the solved holes of the checker replaced.
pub open spec fn resolved(tc: TypeChecker, t: Ty) -> Ty {
    resolve(tc.state.hole_solutions@, t, tc.state.hole_solutions@.len())
}

/// The hole solutions after an assignability requirement of `actual` where
/// `expected` is wanted: the two are unified when either has a hole.
pub open spec fn assignment_holes(p: Program, s: Seq<HoleBinding>, expected: Ty, actual: Ty) -> Seq<HoleBinding> {
    if has_hole(expected) || has_hole(actual) {
        unify_holes(p, s, expected, actual, UNIFY_DEPTH_LIMIT as nat).1
    } else {
        s
    }
}

/// The checking state apart from the hole solutions is the same.
pub open spec fn same_except_holes(a: CheckerState, b: CheckerState) -> bool {
    &&& a.unsafe_depth == b.unsafe_depth
    &&& a.async_depth == b.async_depth
    &&& a.resource_generic_stack == b.resource_generic_stack
    &&& a.next_type_hole_id == b.next_type_hole_id
    &&& a.opaque_returns == b.opaque_returns
    &&& a.current_opaque_return == b.current_opaque_return
    &&& a.symbolic_depth == b.symbolic_depth
    &&& a.loop_depth == b.loop_depth
}

/// Solutions are only ever added, each for a hole without one.
pub open spec fn solutions_extend(old_s: Seq<HoleBinding>, new_s: Seq<HoleBinding>) -> bool {
    &&& old_s.len() <= new_s.len()
    &&& new_s.subrange(0, old_s.len() as int) == old_s
    &&& forall|i: int|
        old_s.len() <= i < new_s.len() ==> hole_solution(old_s, (#[trigger] new_s[i]).id) is None
}

/// Capability references with the solved holes of their arguments
/// replaced.
pub open spec fn resolved_caps(tc: TypeChecker, c: CapList) -> CapList
    decreases c,
{
    match c {
        CapList::Nil => CapList::Nil,
        CapList::Cons(d, args, rest) => CapList::Cons(
            d,
            Box::new(resolve_list(tc.state.hole_solutions@, *args, tc.state.hole_solutions@.len())),
            Box::new(resolved_caps(tc, *rest)),
        ),
    }
}


/// The outcome of unifying `e` with `a` given the solutions `s` (each type
/// taken with its solved holes replaced): whether they agree, and the
/// solutions afterwards.  A hole on either side is solved (see
/// `bind_hole`); types of one shape are unified part by part, lists of
/// equal length element by element; anything else agrees only when equal.
/// At most `fuel` nested steps are taken; beyond that, unequal types
/// disagree.
pub open spec fn unify_holes(p: Program, s: Seq<HoleBinding>, e0: Ty, a0: Ty, fuel: nat) -> (bool, Seq<HoleBinding>)
    decreases fuel, 1int, TyList::Nil,
{
    let e = resolve(s, e0, s.len());
    let a = resolve(s, a0, s.len());
    if storage_equiv(p, resolve(s, e, s.len()), resolve(s, a, s.len()), META_EXPANSION_LIMIT as nat) {
        (true, s)
    } else if fuel == 0 {
        (false, s)
    } else {
        let f = (fuel - 1) as nat;
        match (e, a) {
            (Ty::Hole(id), _) => bind_hole(p, s, id, a, f),
            (_, Ty::Hole(id)) => bind_hole(p, s, id, e, f),
            (
                Ty::Pointer { nullable: n1, mutability: m1, inner: i1 },
                Ty::Pointer { nullable: n2, mutability: m2, inner: i2 },
            ) => if n1 == n2 && m1 == m2 {
                unify_holes(p, s, *i1, *i2, f)
            } else {
                (false, s)
            },
            (Ty::Array { len: l1, elem: e1 }, Ty::Array { len: l2, elem: e2 }) => if l1 == l2 {
                unify_holes(p, s, *e1, *e2, f)
            } else {
                (false, s)
            },
            (Ty::Slice { mutability: m1, elem: e1 }, Ty::Slice { mutability: m2, elem: e2 }) => if m1 == m2 {
                unify_holes(p, s, *e1, *e2, f)
            } else {
                (false, s)
            },
            (Ty::Slice { elem: e1, .. }, Ty::Array { elem: e2, .. }) => unify_holes(p, s, *e1, *e2, f),
            (Ty::Named { name: n1, args: a1 }, Ty::Named { name: n2, args: a2 }) => if n1 == n2 && tys_len(a1)
                == tys_len(a2) {
                unify_hole_list(p, s, a1, a2, f)
            } else {
                (false, s)
            },
            (
                Ty::DynamicInterface { def_id: d1, args: a1 },
                Ty::DynamicInterface { def_id: d2, args: a2 },
            ) => if d1 == d2 && tys_len(a1) == tys_len(a2) {
                unify_hole_list(p, s, a1, a2, f)
            } else {
                (false, s)
            },
            (
                Ty::Function { is_unsafe: u1, c_abi: c1, ret: r1, params: p1 },
                Ty::Function { is_unsafe: u2, c_abi: c2, ret: r2, params: p2 },
            ) => if u1 == u2 && c1 == c2 && tys_len(p1) == tys_len(p2) {
                unify_ret_params(p, s, *r1, p1, *r2, p2, f)
            } else {
                (false, s)
            },
            (Ty::Closure { ret: r1, params: p1, .. }, Ty::Closure { ret: r2, params: p2, .. }) => if tys_len(p1)
                == tys_len(p2) {
                unify_ret_params(p, s, *r1, p1, *r2, p2, f)
            } else {
                (false, s)
            },
            (Ty::Closure { ret: r1, params: p1, .. }, Ty::ClosureInstance { ret: r2, params: p2, .. }) => if tys_len(
                p1,
            ) == tys_len(p2) {
                unify_ret_params(p, s, *r1, p1, *r2, p2, f)
            } else {
                (false, s)
            },
            (
                Ty::ClosureInstance { id: i1, ret: r1, params: p1, captures: c1 },
                Ty::ClosureInstance { id: i2, ret: r2, params: p2, captures: c2 },
            ) => if i1 == i2 && tys_len(p1) == tys_len(p2) && tys_len(c1) == tys_len(c2) {
                let (ok, s1) = unify_ret_params(p, s, *r1, p1, *r2, p2, f);
                if !ok {
                    (false, s1)
                } else {
                    unify_hole_list(p, s1, c1, c2, f)
                }
            } else {
                (false, s)
            },
            _ => (false, s),
        }
    }
}

/// Solving hole `id` with `ty0` (taken with its solved holes replaced):
/// nothing to do for the hole itself or the unknown type; an already
/// solved hole must unify with its solution; else the solution is added.
pub open spec fn bind_hole(p: Program, s: Seq<HoleBinding>, id: u64, ty0: Ty, fuel: nat) -> (bool, Seq<HoleBinding>)
    decreases fuel, 0int, TyList::Nil,
{
    let ty = resolve(s, ty0, s.len());
    if ty == Ty::Hole(id) || ty is Unknown {
        (true, s)
    } else {
        match hole_solution(s, id) {
            Some(existing) => if fuel == 0 {
                (false, s)
            } else {
                unify_holes(p, s, existing, ty, (fuel - 1) as nat)
            },
            None => (true, s.push(HoleBinding { id, ty })),
        }
    }
}

pub open spec fn unify_ret_params(p: Program, s: Seq<HoleBinding>, r1: Ty, p1: TyList, r2: Ty, p2: TyList, fuel: nat) -> (
    bool,
    Seq<HoleBinding>,
)
    decreases fuel, 3int, TyList::Nil,
{
    let (ok, s1) = unify_holes(p, s, r1, r2, fuel);
    if !ok {
        (false, s1)
    } else {
        unify_hole_list(p, s1, p1, p2, fuel)
    }
}

pub open spec fn unify_hole_list(p: Program, s: Seq<HoleBinding>, e: TyList, a: TyList, fuel: nat) -> (bool, Seq<HoleBinding>)
    decreases fuel, 2int, e,
{
    match (e, a) {
        (TyList::Nil, TyList::Nil) => (true, s),
        (TyList::Cons(h1, t1), TyList::Cons(h2, t2)) => {
            let (ok, s1) = unify_holes(p, s, *h1, *h2, fuel);
            if !ok {
                (false, s1)
            } else {
                unify_hole_list(p, s1, *t1, *t2, fuel)
            }
        },
        _ => (false, s),
    }
}

/// Whether two lists have the same length.
pub fn same_len(a: &TyList, b: &TyList) -> (r: bool)
    ensures
        r == (tys_len(*a) == tys_len(*b)),
    decreases a,
{
    match (a, b) {
        (TyList::Nil, TyList::Nil) => true,
        (TyList::Cons(_, t1), TyList::Cons(_, t2)) => same_len(t1, t2),
        _ => false,
    }
}

impl TypeChecker {
    fn resolve_caps(&self, c: &CapList) -> (r: CapList)
        ensures
            r == resolved_caps(*self, *c),
        decreases c,
    {
        match c {
            CapList::Nil => CapList::Nil,
            CapList::Cons(d, args, rest) => {
                let fuel = self.state.hole_solutions.len() as u64;
                CapList::Cons(
                    *d,
                    Box::new(self.resolve_list_with_fuel(args, fuel)),
                    Box::new(self.resolve_caps(rest)),
                )
            },
        }
    }

    /// Capability bounds with the solved holes of their arguments replaced.
    pub fn resolve_constraint_bounds_type_holes(&self, bounds: &Bounds) -> (r: Bounds)
        ensures
            r == (Bounds {
                positive: resolved_caps(*self, bounds.positive),
                negative: resolved_caps(*self, bounds.negative),
            }),
    {
        Bounds { positive: self.resolve_caps(&bounds.positive), negative: self.resolve_caps(&bounds.negative) }
    }

    fn lookup_hole(&self, id: u64) -> (r: Option<Ty>)
        ensures
            r == hole_solution(self.state.hole_solutions@, id),
    {
        let s = &self.state.hole_solutions;
        let mut i: usize = 0;
        assert(s@.skip(0) =~= s@);
        while i < s.len()
            invariant
                s@ == self.state.hole_solutions@,
                i <= s@.len(),
                hole_solution(s@, id) == hole_solution(s@.skip(i as int), id),
            decreases s@.len() - i,
        {
            assert(s@.skip(i as int).drop_first() =~= s@.skip(i + 1));
            assert(s@.skip(i as int)[0] == s@[i as int]);
            if s[i].id == id {
                return Some(copy_ty(&s[i].ty));
            }
            i += 1;
        }
        None
    }

    fn resolve_with_fuel(&self, t: &Ty, fuel: u64) -> (r: Ty)
        ensures
            r == resolve(self.state.hole_solutions@, *t, fuel as nat),
        decreases fuel, t,
    {
        match t {
            Ty::Hole(id) => match self.lookup_hole(*id) {
                Some(sol) => if fuel > 0 {
                    self.resolve_with_fuel(&sol, fuel - 1)
                } else {
                    Ty::Hole(*id)
                },
                None => Ty::Hole(*id),
            },
            Ty::Pointer { nullable, mutability, inner } => Ty::Pointer {
                nullable: *nullable,
                mutability: *mutability,
                inner: Box::new(self.resolve_with_fuel(inner, fuel)),
            },
            Ty::Array { len, elem } => Ty::Array {
                len: *len,
                elem: Box::new(self.resolve_with_fuel(elem, fuel)),
            },
            Ty::Slice { mutability, elem } => Ty::Slice {
                mutability: *mutability,
                elem: Box::new(self.resolve_with_fuel(elem, fuel)),
            },
            Ty::Named { name, args } => Ty::Named {
                name: *name,
                args: self.resolve_list_with_fuel(args, fuel),
            },
            Ty::DynamicInterface { def_id, args } => Ty::DynamicInterface {
                def_id: *def_id,
                args: self.resolve_list_with_fuel(args, fuel),
            },
            Ty::Function { is_unsafe, c_abi, ret, params } => Ty::Function {
                is_unsafe: *is_unsafe,
                c_abi: *c_abi,
                ret: Box::new(self.resolve_with_fuel(ret, fuel)),
                params: self.resolve_list_with_fuel(params, fuel),
            },
            Ty::Closure { ret, params, bounds } => Ty::Closure {
                ret: Box::new(self.resolve_with_fuel(ret, fuel)),
                params: self.resolve_list_with_fuel(params, fuel),
                bounds: copy_bounds(bounds),
            },
            Ty::ClosureInstance { id, ret, params, captures } => Ty::ClosureInstance {
                id: *id,
                ret: Box::new(self.resolve_with_fuel(ret, fuel)),
                params: self.resolve_list_with_fuel(params, fuel),
                captures: self.resolve_list_with_fuel(captures, fuel),
            },
            _ => copy_ty(t),
        }
    }

    fn resolve_list_with_fuel(&self, l: &TyList, fuel: u64) -> (r: TyList)
        ensures
            r == resolve_list(self.state.hole_solutions@, *l, fuel as nat),
        decreases fuel, l,
    {
        match l {
            TyList::Nil => TyList::Nil,
            TyList::Cons(h, t) => TyList::Cons(
                Box::new(self.resolve_with_fuel(h, fuel)),
                Box::new(self.resolve_list_with_fuel(t, fuel)),
            ),
        }
    }

    /// `ty` with its solved holes replaced (see [`resolved`]).
    pub fn resolve_type_holes(&self, ty: &Ty) -> (r: Ty)
        ensures
            r == resolved(*self, *ty),
    {
        let fuel = self.state.hole_solutions.len() as u64;
        self.resolve_with_fuel(ty, fuel)
    }

    /// Solves hole `id` with `ty` (resolved); an already solved hole must
    /// unify with its solution.  Binding a hole to itself or to the unknown
    /// type succeeds without effect.
    pub fn bind_type_hole(&mut self, id: u64, ty: &Ty) -> (r: bool)
        ensures
            final(self).program == old(self).program,
            final(self).diagnostics == old(self).diagnostics,
            final(self).capability_cache == old(self).capability_cache,
            final(self).capability_epoch == old(self).capability_epoch,
            same_except_holes(old(self).state, final(self).state),
            solutions_extend(old(self).state.hole_solutions@, final(self).state.hole_solutions@),
            (resolved(*old(self), *ty) == Ty::Hole(id) || resolved(*old(self), *ty) is Unknown) ==> r
                && final(self).state == old(self).state,
            hole_solution(old(self).state.hole_solutions@, id) is None && !(resolved(*old(self), *ty)
                == Ty::Hole(id) || resolved(*old(self), *ty) is Unknown) ==> r
                && hole_solution(final(self).state.hole_solutions@, id) == Some(
                resolved(*old(self), *ty),
            ),
            (r, final(self).state.hole_solutions@) == bind_hole(old(self).program, old(self).state.hole_solutions@, id, *ty, UNIFY_DEPTH_LIMIT as nat),
    {
        self.bind_hole_with_fuel(id, ty, UNIFY_DEPTH_LIMIT)
    }

    fn bind_hole_with_fuel(&mut self, id: u64, ty: &Ty, fuel: u64) -> (r: bool)
        ensures
            final(self).program == old(self).program,
            final(self).diagnostics == old(self).diagnostics,
            final(self).capability_cache == old(self).capability_cache,
            final(self).capability_epoch == old(self).capability_epoch,
            same_except_holes(old(self).state, final(self).state),
            solutions_extend(old(self).state.hole_solutions@, final(self).state.hole_solutions@),
            (resolved(*old(self), *ty) == Ty::Hole(id) || resolved(*old(self), *ty) is Unknown) ==> r
                && final(self).state == old(self).state,
            hole_solution(old(self).state.hole_solutions@, id) is None && !(resolved(*old(self), *ty)
                == Ty::Hole(id) || resolved(*old(self), *ty) is Unknown) ==> r
                && hole_solution(final(self).state.hole_solutions@, id) == Some(
                resolved(*old(self), *ty),
            ),
            (r, final(self).state.hole_solutions@) == bind_hole(old(self).program, old(self).state.hole_solutions@,
                id,
                *ty,
                fuel as nat,
            ),
        decreases fuel, 0int,
    {
        let ty = self.resolve_type_holes(ty);
        let trivial = match &ty {
            Ty::Hole(other) => *other == id,
            Ty::Unknown => true,
            _ => false,
        };
        if trivial {
            proof {
                lemma_extend_refl(self.state.hole_solutions@);
            }
            return true;
        }
        if let Some(existing) = self.lookup_hole(id) {
            if fuel == 0 {
                proof {
                    lemma_extend_refl(self.state.hole_solutions@);
                }
                return false;
            }
            return self.unify_holes_with_fuel(&existing, &ty, fuel - 1);
        }
        let ghost before = self.state.hole_solutions@;
        self.state.hole_solutions.push(HoleBinding { id, ty });
        proof {
            assert(self.state.hole_solutions@.subrange(0, before.len() as int) =~= before);
            lemma_hole_solution_push(before, id, self.state.hole_solutions@[before.len() as int].ty);
        }
        true
    }

    /// Unifies two types, solving holes on either side.  Returns whether the
    /// types agree.  Solutions are only added, never changed.
    pub fn unify_type_holes(&mut self, expected: &Ty, actual: &Ty) -> (r: bool)
        ensures
            final(self).program == old(self).program,
            final(self).diagnostics == old(self).diagnostics,
            final(self).capability_cache == old(self).capability_cache,
            final(self).capability_epoch == old(self).capability_epoch,
            same_except_holes(old(self).state, final(self).state),
            solutions_extend(old(self).state.hole_solutions@, final(self).state.hole_solutions@),
            resolved(*old(self), *expected) == resolved(*old(self), *actual) ==> r,
            (r, final(self).state.hole_solutions@) == unify_holes(old(self).program, old(self).state.hole_solutions@,
                *expected,
                *actual,
                UNIFY_DEPTH_LIMIT as nat,
            ),
    {
        self.unify_holes_with_fuel(expected, actual, UNIFY_DEPTH_LIMIT)
    }

    fn unify_holes_with_fuel(&mut self, expected: &Ty, actual: &Ty, fuel: u64) -> (r: bool)
        ensures
            final(self).program == old(self).program,
            final(self).diagnostics == old(self).diagnostics,
            final(self).capability_cache == old(self).capability_cache,
            final(self).capability_epoch == old(self).capability_epoch,
            same_except_holes(old(self).state, final(self).state),
            solutions_extend(old(self).state.hole_solutions@, final(self).state.hole_solutions@),
            resolved(*old(self), *expected) == resolved(*old(self), *actual) ==> r,
            (r, final(self).state.hole_solutions@) == unify_holes(old(self).program, old(self).state.hole_solutions@,
                *expected,
                *actual,
                fuel as nat,
            ),
        decreases fuel, 1int,
    {
        let e = self.resolve_type_holes(expected);
        let a = self.resolve_type_holes(actual);
        proof {
            lemma_extend_refl(self.state.hole_solutions@);
        }
        if self.meta_repr_storage_equivalent(&e, &a) {
            return true;
        }
        if fuel == 0 {
            return false;
        }
        match (&e, &a) {
            (Ty::Hole(id), _) => self.bind_hole_with_fuel(*id, &a, fuel - 1),
            (_, Ty::Hole(id)) => self.bind_hole_with_fuel(*id, &e, fuel - 1),
            (
                Ty::Pointer { nullable: n1, mutability: m1, inner: i1 },
                Ty::Pointer { nullable: n2, mutability: m2, inner: i2 },
            ) => {
                if !(*n1 == *n2 && *m1 == *m2) {
                    return false;
                }
                self.unify_holes_with_fuel(i1, i2, fuel - 1)
            },
            (Ty::Array { len: l1, elem: e1 }, Ty::Array { len: l2, elem: e2 }) => {
                if *l1 != *l2 {
                    return false;
                }
                self.unify_holes_with_fuel(e1, e2, fuel - 1)
            },
            (Ty::Slice { mutability: m1, elem: e1 }, Ty::Slice { mutability: m2, elem: e2 }) => {
                if *m1 != *m2 {
                    return false;
                }
                self.unify_holes_with_fuel(e1, e2, fuel - 1)
            },
            (Ty::Slice { elem: e1, .. }, Ty::Array { elem: e2, .. }) => self.unify_holes_with_fuel(
                e1,
                e2,
                fuel - 1,
            ),
            (Ty::Named { name: n1, args: a1 }, Ty::Named { name: n2, args: a2 }) => {
                if *n1 != *n2 || !same_len(a1, a2) {
                    return false;
                }
                self.unify_hole_lists(a1, a2, fuel - 1)
            },
            (
                Ty::DynamicInterface { def_id: d1, args: a1 },
                Ty::DynamicInterface { def_id: d2, args: a2 },
            ) => {
                if *d1 != *d2 || !same_len(a1, a2) {
                    return false;
                }
                self.unify_hole_lists(a1, a2, fuel - 1)
            },
            (
                Ty::Function { is_unsafe: u1, c_abi: c1, ret: r1, params: p1 },
                Ty::Function { is_unsafe: u2, c_abi: c2, ret: r2, params: p2 },
            ) => {
                if !(*u1 == *u2 && *c1 == *c2) || !same_len(p1, p2) {
                    return false;
                }
                self.unify_ret_and_params(r1, p1, r2, p2, fuel - 1)
            },
            (Ty::Closure { ret: r1, params: p1, .. }, Ty::Closure { ret: r2, params: p2, .. }) => {
                if !same_len(p1, p2) {
                    return false;
                }
                self.unify_ret_and_params(r1, p1, r2, p2, fuel - 1)
            },
            (
                Ty::Closure { ret: r1, params: p1, .. },
                Ty::ClosureInstance { ret: r2, params: p2, .. },
            ) => {
                if !same_len(p1, p2) {
                    return false;
                }
                self.unify_ret_and_params(r1, p1, r2, p2, fuel - 1)
            },
            (
                Ty::ClosureInstance { id: i1, ret: r1, params: p1, captures: c1 },
                Ty::ClosureInstance { id: i2, ret: r2, params: p2, captures: c2 },
            ) => {
                if *i1 != *i2 || !same_len(p1, p2) || !same_len(c1, c2) {
                    return false;
                }
                let ghost s0 = self.state.hole_solutions@;
                if !self.unify_ret_and_params(r1, p1, r2, p2, fuel - 1) {
                    return false;
                }
                let ghost s1 = self.state.hole_solutions@;
                let ok = self.unify_hole_lists(c1, c2, fuel - 1);
                proof {
                    lemma_extend_trans(s0, s1, self.state.hole_solutions@);
                }
                ok
            },
            _ => false,
        }
    }

    fn unify_ret_and_params(&mut self, r1: &Ty, p1: &TyList, r2: &Ty, p2: &TyList, fuel: u64) -> (r: bool)
        ensures
            final(self).program == old(self).program,
            final(self).diagnostics == old(self).diagnostics,
            final(self).capability_cache == old(self).capability_cache,
            final(self).capability_epoch == old(self).capability_epoch,
            same_except_holes(old(self).state, final(self).state),
            solutions_extend(old(self).state.hole_solutions@, final(self).state.hole_solutions@),
            (r, final(self).state.hole_solutions@) == unify_ret_params(old(self).program, old(self).state.hole_solutions@,
                *r1,
                *p1,
                *r2,
                *p2,
                fuel as nat,
            ),
        decreases fuel, 3int,
    {
        let ghost s0 = self.state.hole_solutions@;
        if !self.unify_holes_with_fuel(r1, r2, fuel) {
            return false;
        }
        let ghost s1 = self.state.hole_solutions@;
        let ok = self.unify_hole_lists(p1, p2, fuel);
        proof {
            lemma_extend_trans(s0, s1, self.state.hole_solutions@);
        }
        ok
    }

    fn unify_hole_lists(&mut self, expected: &TyList, actual: &TyList, fuel: u64) -> (r: bool)
        ensures
            final(self).program == old(self).program,
            final(self).diagnostics == old(self).diagnostics,
            final(self).capability_cache == old(self).capability_cache,
            final(self).capability_epoch == old(self).capability_epoch,
            same_except_holes(old(self).state, final(self).state),
            solutions_extend(old(self).state.hole_solutions@, final(self).state.hole_solutions@),
            (r, final(self).state.hole_solutions@) == unify_hole_list(old(self).program, old(self).state.hole_solutions@,
                *expected,
                *actual,
                fuel as nat,
            ),
        decreases fuel, 2int, expected,
    {
        proof {
            lemma_extend_refl(self.state.hole_solutions@);
        }
        match (expected, actual) {
            (TyList::Nil, TyList::Nil) => true,
            (TyList::Cons(h1, t1), TyList::Cons(h2, t2)) => {
                let ghost s0 = self.state.hole_solutions@;
                let head = self.unify_holes_with_fuel(h1, h2, fuel);
                let ghost s1 = self.state.hole_solutions@;
                if !head {
                    return false;
                }
                let tail = self.unify_hole_lists(t1, t2, fuel);
                proof {
                    lemma_extend_trans(s0, s1, self.state.hole_solutions@);
                }
                tail
            },
            _ => false,
        }
    }
}

proof fn lemma_hole_solution_push(s: Seq<HoleBinding>, id: u64, ty: Ty)
    requires
        hole_solution(s, id) is None,
    ensures
        hole_solution(s.push(HoleBinding { id, ty }), id) == Some(ty),
        forall|other: u64| other != id ==> hole_solution(s.push(HoleBinding { id, ty }), other)
            == hole_solution(s, other),
    decreases s.len(),
{
    let t = s.push(HoleBinding { id, ty });
    if s.len() == 0 {
        assert(t.drop_first() =~= Seq::<HoleBinding>::empty());
        assert forall|other: u64| other != id implies hole_solution(t, other) == hole_solution(s, other) by {
            assert(hole_solution(t.drop_first(), other) is None);
        }
    } else {
        assert(t.drop_first() =~= s.drop_first().push(HoleBinding { id, ty }));
        lemma_hole_solution_push(s.drop_first(), id, ty);
        assert(t[0] == s[0]);
        assert forall|other: u64| other != id implies hole_solution(t, other) == hole_solution(s, other) by {
            assert(t[0] == s[0]);
            assert(hole_solution(s.drop_first().push(HoleBinding { id, ty }), other) == hole_solution(s.drop_first(), other));
        }
    }
}

pub proof fn lemma_extend_refl(s: Seq<HoleBinding>)
    ensures
        solutions_extend(s, s),
{
    assert(s.subrange(0, s.len() as int) =~= s);
}

pub(crate) proof fn lemma_hole_solution_prefix(s: Seq<HoleBinding>, t: Seq<HoleBinding>, id: u64)
    requires
        s.len() <= t.len(),
        t.subrange(0, s.len() as int) == s,
        hole_solution(s, id) is Some,
    ensures
        hole_solution(t, id) == hole_solution(s, id),
    decreases s.len(),
{
    if s[0].id != id {
        assert(t.drop_first().subrange(0, s.drop_first().len() as int) =~= s.drop_first());
        lemma_hole_solution_prefix(s.drop_first(), t.drop_first(), id);
    }
}

pub(crate) proof fn lemma_extend_trans(a: Seq<HoleBinding>, b: Seq<HoleBinding>, c: Seq<HoleBinding>)
    requires
        solutions_extend(a, b),
        solutions_extend(b, c),
    ensures
        solutions_extend(a, c),
{
    assert(c.subrange(0, a.len() as int) =~= b.subrange(0, a.len() as int));
    assert forall|i: int| a.len() <= i < c.len() implies hole_solution(a, (#[trigger] c[i]).id) is None by {
        if i >= b.len() {
            if hole_solution(a, c[i].id) is Some {
                lemma_hole_solution_prefix(a, b, c[i].id);
            }
        } else {
            assert(c[i] == b[i]);
        }
    }
}

/// The position of the solution of hole `id` (the first binding of `id`).
pub open spec fn hole_index(s: Seq<HoleBinding>, id: u64) -> Option<nat>
    decreases s.len(),
{
    if s.len() == 0 {
        None
    } else if s[0].id == id {
        Some(0)
    } else {
        match hole_index(s.drop_first(), id) {
            Some(j) => Some(j + 1),
            None => None,
        }
    }
}

pub proof fn lemma_hole_index(s: Seq<HoleBinding>, id: u64)
    ensures
        match hole_index(s, id) {
            Some(j) => j < s.len() && hole_solution(s, id) == Some(s[j as int].ty) && s[j as int].id == id,
            None => hole_solution(s, id) is None,
        },
    decreases s.len(),
{
    if s.len() > 0 && s[0].id != id {
        lemma_hole_index(s.drop_first(), id);
    }
}

/// Every hole `resolve` would look at in `t` is unsolved or solved at a
/// position `k` or later.
pub open spec fn settled_from(s: Seq<HoleBinding>, k: nat, t: Ty) -> bool
    decreases t,
{
    match t {
        Ty::Hole(id) => match hole_index(s, id) {
            Some(j) => j >= k,
            None => true,
        },
        Ty::Pointer { inner, .. } => settled_from(s, k, *inner),
        Ty::Array { elem, .. } => settled_from(s, k, *elem),
        Ty::Slice { elem, .. } => settled_from(s, k, *elem),
        Ty::Named { args, .. } => settled_from_list(s, k, args),
        Ty::DynamicInterface { args, .. } => settled_from_list(s, k, args),
        Ty::Function { ret, params, .. } => settled_from(s, k, *ret) && settled_from_list(s, k, params),
        Ty::Closure { ret, params, .. } => settled_from(s, k, *ret) && settled_from_list(s, k, params),
        Ty::ClosureInstance { ret, params, captures, .. } => settled_from(s, k, *ret) && settled_from_list(
            s,
            k,
            params,
        ) && settled_from_list(s, k, captures),
        _ => true,
    }
}

pub open spec fn settled_from_list(s: Seq<HoleBinding>, k: nat, l: TyList) -> bool
    decreases l,
{
    match l {
        TyList::Nil => true,
        TyList::Cons(h, t) => settled_from(s, k, *h) && settled_from_list(s, k, *t),
    }
}

/// A type with no solved hole left is its own resolution.
proof fn lemma_resolve_settled(s: Seq<HoleBinding>, t: Ty, fuel: nat)
    requires
        settled_from(s, s.len(), t),
    ensures
        resolve(s, t, fuel) == t,
    decreases fuel, t,
{
    match t {
        Ty::Hole(id) => {
            lemma_hole_index(s, id);
        },
        Ty::Pointer { inner, .. } => lemma_resolve_settled(s, *inner, fuel),
        Ty::Array { elem, .. } => lemma_resolve_settled(s, *elem, fuel),
        Ty::Slice { elem, .. } => lemma_resolve_settled(s, *elem, fuel),
        Ty::Named { args, .. } => lemma_resolve_settled_list(s, args, fuel),
        Ty::DynamicInterface { args, .. } => lemma_resolve_settled_list(s, args, fuel),
        Ty::Function { ret, params, .. } => {
            lemma_resolve_settled(s, *ret, fuel);
            lemma_resolve_settled_list(s, params, fuel);
        },
        Ty::Closure { ret, params, .. } => {
            lemma_resolve_settled(s, *ret, fuel);
            lemma_resolve_settled_list(s, params, fuel);
        },
        Ty::ClosureInstance { ret, params, captures, .. } => {
            lemma_resolve_settled(s, *ret, fuel);
            lemma_resolve_settled_list(s, params, fuel);
            lemma_resolve_settled_list(s, captures, fuel);
        },
        _ => {},
    }
}

proof fn lemma_resolve_settled_list(s: Seq<HoleBinding>, l: TyList, fuel: nat)
    requires
        settled_from_list(s, s.len(), l),
    ensures
        resolve_list(s, l, fuel) == l,
    decreases fuel, l,
{
    match l {
        TyList::Nil => {},
        TyList::Cons(h, t) => {
            lemma_resolve_settled(s, *h, fuel);
            lemma_resolve_settled_list(s, *t, fuel);
        },
    }
}

/// Every solved hole `resolve` would look at in `t` has a rank below `k`.
pub open spec fn ranked_below(s: Seq<HoleBinding>, rank: spec_fn(u64) -> nat, k: nat, t: Ty) -> bool
    decreases t,
{
    match t {
        Ty::Hole(id) => hole_solution(s, id) is Some ==> rank(id) < k,
        Ty::Pointer { inner, .. } => ranked_below(s, rank, k, *inner),
        Ty::Array { elem, .. } => ranked_below(s, rank, k, *elem),
        Ty::Slice { elem, .. } => ranked_below(s, rank, k, *elem),
        Ty::Named { args, .. } => ranked_below_list(s, rank, k, args),
        Ty::DynamicInterface { args, .. } => ranked_below_list(s, rank, k, args),
        Ty::Function { ret, params, .. } => ranked_below(s, rank, k, *ret) && ranked_below_list(s, rank, k, params),
        Ty::Closure { ret, params, .. } => ranked_below(s, rank, k, *ret) && ranked_below_list(s, rank, k, params),
        Ty::ClosureInstance { ret, params, captures, .. } => ranked_below(s, rank, k, *ret) && ranked_below_list(
            s,
            rank,
            k,
            params,
        ) && ranked_below_list(s, rank, k, captures),
        _ => true,
    }
}

pub open spec fn ranked_below_list(s: Seq<HoleBinding>, rank: spec_fn(u64) -> nat, k: nat, l: TyList) -> bool
    decreases l,
{
    match l {
        TyList::Nil => true,
        TyList::Cons(h, t) => ranked_below(s, rank, k, *h) && ranked_below_list(s, rank, k, *t),
    }
}

/// `rank` orders the solved holes: each has a rank below the number of
/// solutions, and its solution mentions only solved holes of lower rank.
pub open spec fn ranks_solutions(s: Seq<HoleBinding>, rank: spec_fn(u64) -> nat) -> bool {
    forall|id: u64|
        #![trigger hole_solution(s, id)]
        hole_solution(s, id) is Some ==> rank(id) < s.len() && ranked_below(s, rank, rank(id), hole_solution(s, id)->0)
}

/// The solutions are acyclic: no solved hole reaches itself through the
/// solutions.  For finitely many solutions this is the existence of a rank
/// (the length of the longest chain below a hole) that decreases along every
/// solution.
pub open spec fn solutions_acyclic(s: Seq<HoleBinding>) -> bool {
    exists|rank: spec_fn(u64) -> nat| ranks_solutions(s, rank)
}

proof fn lemma_ranked_below_len(s: Seq<HoleBinding>, rank: spec_fn(u64) -> nat, t: Ty)
    requires
        ranks_solutions(s, rank),
    ensures
        ranked_below(s, rank, s.len(), t),
    decreases t,
{
    match t {
        Ty::Hole(id) => {
            if hole_solution(s, id) is Some {
            }
        },
        Ty::Pointer { inner, .. } => lemma_ranked_below_len(s, rank, *inner),
        Ty::Array { elem, .. } => lemma_ranked_below_len(s, rank, *elem),
        Ty::Slice { elem, .. } => lemma_ranked_below_len(s, rank, *elem),
        Ty::Named { args, .. } => lemma_ranked_below_len_list(s, rank, args),
        Ty::DynamicInterface { args, .. } => lemma_ranked_below_len_list(s, rank, args),
        Ty::Function { ret, params, .. } => {
            lemma_ranked_below_len(s, rank, *ret);
            lemma_ranked_below_len_list(s, rank, params);
        },
        Ty::Closure { ret, params, .. } => {
            lemma_ranked_below_len(s, rank, *ret);
            lemma_ranked_below_len_list(s, rank, params);
        },
        Ty::ClosureInstance { ret, params, captures, .. } => {
            lemma_ranked_below_len(s, rank, *ret);
            lemma_ranked_below_len_list(s, rank, params);
            lemma_ranked_below_len_list(s, rank, captures);
        },
        _ => {},
    }
}

proof fn lemma_ranked_below_len_list(s: Seq<HoleBinding>, rank: spec_fn(u64) -> nat, l: TyList)
    requires
        ranks_solutions(s, rank),
    ensures
        ranked_below_list(s, rank, s.len(), l),
    decreases l,
{
    match l {
        TyList::Nil => {},
        TyList::Cons(h, t) => {
            lemma_ranked_below_len(s, rank, *h);
            lemma_ranked_below_len_list(s, rank, *t);
        },
    }
}

/// With enough fuel, resolution along ranked solutions leaves no solved hole.
proof fn lemma_resolve_ranked(s: Seq<HoleBinding>, rank: spec_fn(u64) -> nat, k: nat, t: Ty, fuel: nat)
    requires
        ranks_solutions(s, rank),
        ranked_below(s, rank, k, t),
        fuel >= k,
    ensures
        settled_from(s, s.len(), resolve(s, t, fuel)),
    decreases fuel, t,
{
    match t {
        Ty::Hole(id) => {
            lemma_hole_index(s, id);
            match hole_solution(s, id) {
                Some(sol) => {
                    lemma_resolve_ranked(s, rank, rank(id), sol, (fuel - 1) as nat);
                },
                None => {},
            }
        },
        Ty::Pointer { inner, .. } => lemma_resolve_ranked(s, rank, k, *inner, fuel),
        Ty::Array { elem, .. } => lemma_resolve_ranked(s, rank, k, *elem, fuel),
        Ty::Slice { elem, .. } => lemma_resolve_ranked(s, rank, k, *elem, fuel),
        Ty::Named { args, .. } => lemma_resolve_ranked_list(s, rank, k, args, fuel),
        Ty::DynamicInterface { args, .. } => lemma_resolve_ranked_list(s, rank, k, args, fuel),
        Ty::Function { ret, params, .. } => {
            lemma_resolve_ranked(s, rank, k, *ret, fuel);
            lemma_resolve_ranked_list(s, rank, k, params, fuel);
        },
        Ty::Closure { ret, params, .. } => {
            lemma_resolve_ranked(s, rank, k, *ret, fuel);
            lemma_resolve_ranked_list(s, rank, k, params, fuel);
        },
        Ty::ClosureInstance { ret, params, captures, .. } => {
            lemma_resolve_ranked(s, rank, k, *ret, fuel);
            lemma_resolve_ranked_list(s, rank, k, params, fuel);
            lemma_resolve_ranked_list(s, rank, k, captures, fuel);
        },
        _ => {},
    }
}

proof fn lemma_resolve_ranked_list(s: Seq<HoleBinding>, rank: spec_fn(u64) -> nat, k: nat, l: TyList, fuel: nat)
    requires
        ranks_solutions(s, rank),
        ranked_below_list(s, rank, k, l),
        fuel >= k,
    ensures
        settled_from_list(s, s.len(), resolve_list(s, l, fuel)),
    decreases fuel, l,
{
    match l {
        TyList::Nil => {},
        TyList::Cons(h, t) => {
            lemma_resolve_ranked(s, rank, k, *h, fuel);
            lemma_resolve_ranked_list(s, rank, k, *t, fuel);
        },
    }
}

/// Resolving twice is resolving once, when the solutions are acyclic.
pub proof fn lemma_resolve_idempotent(s: Seq<HoleBinding>, t: Ty)
    requires
        solutions_acyclic(s),
    ensures
        resolve(s, resolve(s, t, s.len()), s.len()) == resolve(s, t, s.len()),
{
    let rank = choose|rank: spec_fn(u64) -> nat| ranks_solutions(s, rank);
    lemma_ranked_below_len(s, rank, t);
    lemma_resolve_ranked(s, rank, s.len(), t, s.len());
    lemma_resolve_settled(s, resolve(s, t, s.len()), s.len());
}

} // verus!
