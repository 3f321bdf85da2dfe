//! Opaque return types (`-> impl Bounds`-like results) and assignability
//! checks.
use vstd::prelude::*;
use crate::assign::checker_can_assign;
use crate::capability::cache_valid;
use crate::capability_checks::{bound_failures, BoundsSite};
use crate::checker::{diag, OpaqueBinding, OpaqueReturnState, TypeChecker};
use crate::checks::closure_shape;
use crate::diag::{DiagKind, Diagnostic, Span};
use crate::meta::storage_equivalent;
use crate::infer::{assignment_holes, resolved, same_except_holes, solutions_extend};
use crate::props::{contains_generic, contains_type_hole, has_generic, has_hole};
use crate::ty::{copy_bounds, copy_ty, copy_tys, known_ty_matches, tys_match, Ty, TyList};

verus! {

pub open spec fn binding_for(b: OpaqueBinding, def_id: u64, key_args: TyList) -> bool {
    b.def_id == def_id && b.key_args == key_args
}

pub open spec fn opaque_binding(s: Seq<OpaqueBinding>, def_id: u64, key_args: TyList) -> Option<Ty>
    decreases s.len(),
{
    if s.len() == 0 {
        None
    } else if binding_for(s[0], def_id, key_args) {
        Some(s[0].concrete)
    } else {
        opaque_binding(s.drop_first(), def_id, key_args)
    }
}

/// The concrete type recorded for an opaque return type.
pub open spec fn opaque_concrete(tc: TypeChecker, t: Ty) -> Option<Ty> {
    match t {
        Ty::OpaqueReturn { def_id, key_args, .. } => opaque_binding(
            tc.state.opaque_returns@,
            def_id,
            key_args,
        ),
        _ => None,
    }
}

/// `t` with opaque return types replaced by their recorded concrete types,
/// following at most `fuel` records in a row.
pub open spec fn lower(tc: TypeChecker, t: Ty, fuel: nat) -> Ty
    decreases fuel, t,
{
    match t {
        Ty::OpaqueReturn { .. } => match opaque_concrete(tc, t) {
            Some(c) => if fuel > 0 {
                lower(tc, c, (fuel - 1) as nat)
            } else {
                t
            },
            None => t,
        },
        Ty::Pointer { nullable, mutability, inner } => Ty::Pointer {
            nullable,
            mutability,
            inner: Box::new(lower(tc, *inner, fuel)),
        },
        Ty::Array { len, elem } => Ty::Array { len, elem: Box::new(lower(tc, *elem, fuel)) },
        Ty::Slice { mutability, elem } => Ty::Slice { mutability, elem: Box::new(lower(tc, *elem, fuel)) },
        Ty::Named { name, args } => Ty::Named { name, args: lower_list(tc, args, fuel) },
        Ty::DynamicInterface { def_id, args } => Ty::DynamicInterface {
            def_id,
            args: lower_list(tc, args, fuel),
        },
        Ty::Function { is_unsafe, c_abi, ret, params } => Ty::Function {
            is_unsafe,
            c_abi,
            ret: Box::new(lower(tc, *ret, fuel)),
            params: lower_list(tc, params, fuel),
        },
        Ty::Closure { ret, params, bounds } => Ty::Closure {
            ret: Box::new(lower(tc, *ret, fuel)),
            params: lower_list(tc, params, fuel),
            bounds,
        },
        _ => t,
    }
}

pub open spec fn lower_list(tc: TypeChecker, l: TyList, fuel: nat) -> TyList
    decreases fuel, l,
{
    match l {
        TyList::Nil => TyList::Nil,
        TyList::Cons(h, t) => TyList::Cons(Box::new(lower(tc, *h, fuel)), Box::new(lower_list(tc, *t, fuel))),
    }
}

pub open spec fn lowered(tc: TypeChecker, t: Ty) -> Ty {
    lower(tc, t, tc.state.opaque_returns@.len())
}

/// Whether the opaque return `def_id<key_args>` occurs in `t`, directly or
/// through recorded concrete types of other opaque returns (following at
/// most `fuel` records in a row).
pub open spec fn reaches(tc: TypeChecker, def_id: u64, key_args: TyList, t: Ty, fuel: nat) -> bool
    decreases fuel, t,
{
    match t {
        Ty::OpaqueReturn { def_id: d, key_args: k, .. } => if d == def_id && k == key_args {
            true
        } else {
            match opaque_concrete(tc, t) {
                Some(c) => fuel > 0 && reaches(tc, def_id, key_args, c, (fuel - 1) as nat),
                None => false,
            }
        },
        Ty::Pointer { inner, .. } => reaches(tc, def_id, key_args, *inner, fuel),
        Ty::Array { elem, .. } => reaches(tc, def_id, key_args, *elem, fuel),
        Ty::Slice { elem, .. } => reaches(tc, def_id, key_args, *elem, fuel),
        Ty::Named { args, .. } => reaches_list(tc, def_id, key_args, args, fuel),
        Ty::DynamicInterface { args, .. } => reaches_list(tc, def_id, key_args, args, fuel),
        Ty::GeneratedFuture { output, .. } => reaches(tc, def_id, key_args, *output, fuel),
        Ty::Function { ret, params, .. } => reaches(tc, def_id, key_args, *ret, fuel)
            || reaches_list(tc, def_id, key_args, params, fuel),
        Ty::Closure { ret, params, .. } => reaches(tc, def_id, key_args, *ret, fuel)
            || reaches_list(tc, def_id, key_args, params, fuel),
        Ty::ClosureInstance { ret, params, captures, .. } => reaches(tc, def_id, key_args, *ret, fuel)
            || reaches_list(tc, def_id, key_args, params, fuel) || reaches_list(
            tc,
            def_id,
            key_args,
            captures,
            fuel,
        ),
        _ => false,
    }
}

pub open spec fn reaches_list(tc: TypeChecker, def_id: u64, key_args: TyList, l: TyList, fuel: nat) -> bool
    decreases fuel, l,
{
    match l {
        TyList::Nil => false,
        TyList::Cons(h, t) => reaches(tc, def_id, key_args, *h, fuel) || reaches_list(
            tc,
            def_id,
            key_args,
            *t,
            fuel,
        ),
    }
}

pub open spec fn concrete_is_recursive(tc: TypeChecker, opaque: Ty, concrete: Ty) -> bool {
    match opaque {
        Ty::OpaqueReturn { def_id, key_args, .. } => reaches(
            tc,
            def_id,
            key_args,
            concrete,
            tc.state.opaque_returns@.len(),
        ),
        _ => false,
    }
}

/// Where an opaque return type comes from: the function and its arguments.
#[derive(Debug, PartialEq)]
pub struct OriginLabel {
    pub def_id: u64,
    pub args: TyList,
}

pub open spec fn mismatch_kind(expected: Ty, actual: Ty, argument: Option<u64>) -> DiagKind {
    if expected is OpaqueReturn && actual is OpaqueReturn {
        DiagKind::OpaqueReturnMismatch { expected, actual, argument }
    } else {
        DiagKind::TypeMismatch { expected, actual, argument }
    }
}

/// Whether a value of type `a` is accepted where `e` is expected: generic
/// and unknown types are accepted here (they are checked elsewhere), as are
/// storage-equivalent types and a closure whose shape fits a closure type;
/// otherwise the types must be assignable.
pub open spec fn accepted(tc: TypeChecker, e: Ty, a: Ty) -> bool {
    ||| has_generic(e) || has_generic(a)
    ||| e is Unknown || a is Unknown
    ||| storage_equivalent(tc, e, a)
    ||| (match e {
        Ty::Closure { ret, params, .. } => closure_shape(tc, *ret, params, a),
        _ => false,
    })
    ||| checker_can_assign(tc, e, a)
}

/// The checking state apart from the current opaque return is the same.
pub open spec fn same_except_current_opaque(a: crate::checker::CheckerState, b: crate::checker::CheckerState) -> bool {
    &&& a.unsafe_depth == b.unsafe_depth
    &&& a.async_depth == b.async_depth
    &&& a.resource_generic_stack == b.resource_generic_stack
    &&& a.hole_solutions == b.hole_solutions
    &&& a.next_type_hole_id == b.next_type_hole_id
    &&& a.opaque_returns == b.opaque_returns
    &&& a.symbolic_depth == b.symbolic_depth
    &&& a.loop_depth == b.loop_depth
}

pub open spec fn opaque_bound_failures(tc: TypeChecker, opaque: Ty, concrete: Ty, span: Span) -> Seq<Diagnostic> {
    match opaque {
        Ty::OpaqueReturn { bounds, .. } => bound_failures(tc, bounds.positive, concrete, true, BoundsSite::OpaqueReturn, span)
            + bound_failures(tc, bounds.negative, concrete, false, BoundsSite::OpaqueReturn, span),
        _ => Seq::empty(),
    }
}

impl TypeChecker {
    /// Records a concrete type returned by the function whose opaque return
    /// is being checked: a type leading back to the opaque return itself is
    /// reported; otherwise the opaque return's bounds are checked, the first
    /// concrete type is remembered and a different later one is reported.
    /// `never` and unknown results are ignored.
    pub fn record_opaque_return_ty(&mut self, opaque_ty: &Ty, concrete_ty: &Ty, span: Span)
        requires
            cache_valid(*old(self)),
        ensures
            final(self).program == old(self).program,
            same_except_current_opaque(old(self).state, final(self).state),
            cache_valid(*final(self)),
            ({
                let c = resolved(*old(self), *concrete_ty);
                if *concrete_ty is Never || *concrete_ty is Unknown || old(self).state.current_opaque_return is None {
                    final(self).state == old(self).state && final(self).diagnostics == old(self).diagnostics
                } else {
                    let st = old(self).state.current_opaque_return->0;
                    if concrete_is_recursive(*old(self), st.opaque_ty, c) {
                        &&& final(self).diagnostics@ == old(self).diagnostics@ + (if st.opaque_ty is OpaqueReturn {
                            seq![diag(span, DiagKind::OpaqueReturnRecursive { opaque: st.opaque_ty })]
                        } else {
                            Seq::empty()
                        })
                        &&& final(self).state.current_opaque_return == Some(OpaqueReturnState {
                            opaque_ty: st.opaque_ty,
                            concrete_ty: st.concrete_ty,
                            saw_recursive_concrete_ty: true,
                        })
                    } else {
                        &&& final(self).diagnostics@ == old(self).diagnostics@ + opaque_bound_failures(*old(self), *opaque_ty, c, span)
                            + (match st.concrete_ty {
                                Some(existing) if existing != c => seq![diag(span, DiagKind::OpaqueReturnConflict { existing, concrete: c })],
                                _ => Seq::empty(),
                            })
                        &&& final(self).state.current_opaque_return == Some(match st.concrete_ty {
                            None => OpaqueReturnState {
                                opaque_ty: st.opaque_ty,
                                concrete_ty: Some(c),
                                saw_recursive_concrete_ty: st.saw_recursive_concrete_ty,
                            },
                            Some(_) => st,
                        })
                    }
                }
            }),
    {
        if concrete_ty.is_never() || concrete_ty.is_unknown() {
            return ;
        }
        let concrete = self.resolve_type_holes(concrete_ty);
        let (current_opaque, current_concrete, saw) = match &self.state.current_opaque_return {
            Some(st) => (copy_ty(&st.opaque_ty), match &st.concrete_ty {
                Some(c) => Some(copy_ty(c)),
                None => None,
            }, st.saw_recursive_concrete_ty),
            None => return ,
        };
        let ghost start = *self;
        if self.opaque_return_concrete_ty_is_recursive(&current_opaque, &concrete) {
            if let Ty::OpaqueReturn { .. } = &current_opaque {
                self.report(span, DiagKind::OpaqueReturnRecursive { opaque: copy_ty(&current_opaque) });
            }
            assert(self.diagnostics@ =~= start.diagnostics@ + (if current_opaque is OpaqueReturn {
                seq![diag(span, DiagKind::OpaqueReturnRecursive { opaque: current_opaque })]
            } else {
                Seq::empty()
            }));
            let ghost before = *self;
            self.state.current_opaque_return = Some(OpaqueReturnState {
                opaque_ty: current_opaque,
                concrete_ty: current_concrete,
                saw_recursive_concrete_ty: true,
            });
            proof {
                crate::capability::lemma_cache_valid_context(*old(self), *self);
            }
            return ;
        }
        self.check_opaque_return_bounds(opaque_ty, &concrete, span);
        let ghost d1 = self.diagnostics@;
        let ghost after_check = *self;
        match current_concrete {
            Some(existing) => {
                if !known_ty_matches(&existing, &concrete) {
                    let ghost before = *self;
                    self.report(span, DiagKind::OpaqueReturnConflict { existing, concrete });
                    proof {
                        crate::capability::lemma_cache_valid_context(after_check, *self);
                    }
                }
            },
            None => {
                let ghost before = *self;
                self.state.current_opaque_return = Some(OpaqueReturnState {
                    opaque_ty: current_opaque,
                    concrete_ty: Some(concrete),
                    saw_recursive_concrete_ty: saw,
                });
                proof {
                    crate::capability::lemma_cache_valid_context(after_check, *self);
                }
            },
        }
        proof {
            let st = start.state.current_opaque_return->0;
            assert(self.diagnostics@ =~= start.diagnostics@ + opaque_bound_failures(start, *opaque_ty, concrete, span)
                + (match st.concrete_ty {
                    Some(existing) if existing != concrete => seq![diag(span, DiagKind::OpaqueReturnConflict { existing, concrete })],
                    _ => Seq::empty(),
                }));
        }
    }

    fn find_opaque_binding(&self, def_id: u64, key_args: &TyList) -> (r: Option<Ty>)
        ensures
            r == opaque_binding(self.state.opaque_returns@, def_id, *key_args),
    {
        let s = &self.state.opaque_returns;
        let mut i: usize = 0;
        assert(s@.skip(0) =~= s@);
        while i < s.len()
            invariant
                s@ == self.state.opaque_returns@,
                i <= s@.len(),
                opaque_binding(s@, def_id, *key_args) == opaque_binding(s@.skip(i as int), def_id, *key_args),
            decreases s@.len() - i,
        {
            assert(s@.skip(i as int).drop_first() =~= s@.skip(i + 1));
            assert(s@.skip(i as int)[0] == s@[i as int]);
            if s[i].def_id == def_id && tys_match(&s[i].key_args, key_args) {
                return Some(copy_ty(&s[i].concrete));
            }
            i += 1;
        }
        None
    }

    /// The concrete type recorded for an opaque return type.
    pub fn opaque_return_concrete_ty(&self, ty: &Ty) -> (r: Option<Ty>)
        ensures
            r == opaque_concrete(*self, *ty),
    {
        match ty {
            Ty::OpaqueReturn { def_id, key_args, .. } => self.find_opaque_binding(*def_id, key_args),
            _ => None,
        }
    }

    fn lower_with_fuel(&self, ty: &Ty, fuel: u64) -> (r: Ty)
        ensures
            r == lower(*self, *ty, fuel as nat),
        decreases fuel, ty,
    {
        match ty {
            Ty::OpaqueReturn { .. } => match self.opaque_return_concrete_ty(ty) {
                Some(c) => if fuel > 0 {
                    self.lower_with_fuel(&c, fuel - 1)
                } else {
                    copy_ty(ty)
                },
                None => copy_ty(ty),
            },
            Ty::Pointer { nullable, mutability, inner } => Ty::Pointer {
                nullable: *nullable,
                mutability: *mutability,
                inner: Box::new(self.lower_with_fuel(inner, fuel)),
            },
            Ty::Array { len, elem } => Ty::Array { len: *len, elem: Box::new(self.lower_with_fuel(elem, fuel)) },
            Ty::Slice { mutability, elem } => Ty::Slice {
                mutability: *mutability,
                elem: Box::new(self.lower_with_fuel(elem, fuel)),
            },
            Ty::Named { name, args } => Ty::Named { name: *name, args: self.lower_list_with_fuel(args, fuel) },
            Ty::DynamicInterface { def_id, args } => Ty::DynamicInterface {
                def_id: *def_id,
                args: self.lower_list_with_fuel(args, fuel),
            },
            Ty::Function { is_unsafe, c_abi, ret, params } => Ty::Function {
                is_unsafe: *is_unsafe,
                c_abi: *c_abi,
                ret: Box::new(self.lower_with_fuel(ret, fuel)),
                params: self.lower_list_with_fuel(params, fuel),
            },
            Ty::Closure { ret, params, bounds } => Ty::Closure {
                ret: Box::new(self.lower_with_fuel(ret, fuel)),
                params: self.lower_list_with_fuel(params, fuel),
                bounds: copy_bounds(bounds),
            },
            _ => copy_ty(ty),
        }
    }

    fn lower_list_with_fuel(&self, l: &TyList, fuel: u64) -> (r: TyList)
        ensures
            r == lower_list(*self, *l, fuel as nat),
        decreases fuel, l,
    {
        match l {
            TyList::Nil => TyList::Nil,
            TyList::Cons(h, t) => TyList::Cons(
                Box::new(self.lower_with_fuel(h, fuel)),
                Box::new(self.lower_list_with_fuel(t, fuel)),
            ),
        }
    }

    /// `ty` with every opaque return type replaced by its recorded concrete
    /// type (see [`lowered`]).
    pub fn lower_opaque_returns_in_ty(&self, ty: &Ty) -> (r: Ty)
        ensures
            r == lowered(*self, *ty),
    {
        let fuel = self.state.opaque_returns.len() as u64;
        self.lower_with_fuel(ty, fuel)
    }

    fn reaches_exec(&self, def_id: u64, key_args: &TyList, ty: &Ty, fuel: u64) -> (r: bool)
        ensures
            r == reaches(*self, def_id, *key_args, *ty, fuel as nat),
        decreases fuel, ty,
    {
        match ty {
            Ty::OpaqueReturn { def_id: d, key_args: k, .. } => {
                if *d == def_id && tys_match(k, key_args) {
                    return true;
                }
                match self.opaque_return_concrete_ty(ty) {
                    Some(c) => fuel > 0 && self.reaches_exec(def_id, key_args, &c, fuel - 1),
                    None => false,
                }
            },
            Ty::Pointer { inner, .. } => self.reaches_exec(def_id, key_args, inner, fuel),
            Ty::Array { elem, .. } => self.reaches_exec(def_id, key_args, elem, fuel),
            Ty::Slice { elem, .. } => self.reaches_exec(def_id, key_args, elem, fuel),
            Ty::Named { args, .. } => self.reaches_list_exec(def_id, key_args, args, fuel),
            Ty::DynamicInterface { args, .. } => self.reaches_list_exec(def_id, key_args, args, fuel),
            Ty::GeneratedFuture { output, .. } => self.reaches_exec(def_id, key_args, output, fuel),
            Ty::Function { ret, params, .. } => self.reaches_exec(def_id, key_args, ret, fuel)
                || self.reaches_list_exec(def_id, key_args, params, fuel),
            Ty::Closure { ret, params, .. } => self.reaches_exec(def_id, key_args, ret, fuel)
                || self.reaches_list_exec(def_id, key_args, params, fuel),
            Ty::ClosureInstance { ret, params, captures, .. } => self.reaches_exec(
                def_id,
                key_args,
                ret,
                fuel,
            ) || self.reaches_list_exec(def_id, key_args, params, fuel) || self.reaches_list_exec(
                def_id,
                key_args,
                captures,
                fuel,
            ),
            _ => false,
        }
    }

    fn reaches_list_exec(&self, def_id: u64, key_args: &TyList, l: &TyList, fuel: u64) -> (r: bool)
        ensures
            r == reaches_list(*self, def_id, *key_args, *l, fuel as nat),
        decreases fuel, l,
    {
        match l {
            TyList::Nil => false,
            TyList::Cons(h, t) => self.reaches_exec(def_id, key_args, h, fuel) || self.reaches_list_exec(
                def_id,
                key_args,
                t,
                fuel,
            ),
        }
    }

    /// Whether the concrete type of an opaque return leads back to that
    /// opaque return itself.
    pub fn opaque_return_concrete_ty_is_recursive(&self, opaque_ty: &Ty, concrete_ty: &Ty) -> (r: bool)
        ensures
            r == concrete_is_recursive(*self, *opaque_ty, *concrete_ty),
    {
        match opaque_ty {
            Ty::OpaqueReturn { def_id, key_args, .. } => {
                let fuel = self.state.opaque_returns.len() as u64;
                self.reaches_exec(*def_id, key_args, concrete_ty, fuel)
            },
            _ => false,
        }
    }

    /// The function (and arguments) an opaque return type belongs to.
    pub fn opaque_return_origin_label(&self, def_id: u64, key_args: &TyList) -> (r: OriginLabel)
        ensures
            r.def_id == def_id,
            r.args == *key_args,
    {
        OriginLabel { def_id, args: copy_tys(key_args) }
    }

    /// The diagnostic for a value of type `actual` where `expected` is
    /// wanted; two opaque return types get the message about distinct
    /// opaque identities.
    pub fn type_mismatch_message(&self, expected: &Ty, actual: &Ty) -> (r: DiagKind)
        ensures
            r == mismatch_kind(*expected, *actual, None),
    {
        match (expected, actual) {
            (Ty::OpaqueReturn { .. }, Ty::OpaqueReturn { .. }) => DiagKind::OpaqueReturnMismatch {
                expected: copy_ty(expected),
                actual: copy_ty(actual),
                argument: None,
            },
            _ => DiagKind::TypeMismatch {
                expected: copy_ty(expected),
                actual: copy_ty(actual),
                argument: None,
            },
        }
    }

    /// Requires a value of type `actual` where `expected` is wanted: first
    /// unifies inference holes, then reports a mismatch unless the value is
    /// accepted (see [`accepted`]); `context` names the argument.
    pub fn require_assignable_with_context(
        &mut self,
        expected: &Ty,
        actual: &Ty,
        span: Span,
        context: Option<u64>,
    )
        requires
            cache_valid(*old(self)),
        ensures
            final(self).program == old(self).program,
            same_except_holes(old(self).state, final(self).state),
            solutions_extend(old(self).state.hole_solutions@, final(self).state.hole_solutions@),
            !has_hole(*expected) && !has_hole(*actual) ==> final(self).state == old(self).state,
            final(self).state.hole_solutions@ == assignment_holes(old(self).program, old(self).state.hole_solutions@, *expected, *actual),
            cache_valid(*final(self)),
            ({
                let e = resolved(*final(self), *expected);
                let a = resolved(*final(self), *actual);
                final(self).diagnostics@ == if accepted(*final(self), e, a) {
                    old(self).diagnostics@
                } else {
                    old(self).diagnostics@.push(diag(span, mismatch_kind(e, a, context)))
                }
            }),
    {
        proof {
            crate::infer::lemma_extend_refl(self.state.hole_solutions@);
        }
        if contains_type_hole(expected) || contains_type_hole(actual) {
            let ghost before = *self;
            self.unify_type_holes(expected, actual);
            proof {
                crate::capability::lemma_cache_valid_context(before, *self);
            }
        }
        let e = self.resolve_type_holes(expected);
        let a = self.resolve_type_holes(actual);
        if contains_generic(&e) || contains_generic(&a) {
            return ;
        }
        if e.is_unknown() || a.is_unknown() {
            return ;
        }
        if self.meta_repr_storage_equivalent(&e, &a) {
            return ;
        }
        if let Ty::Closure { ret, params, bounds } = &e {
            if self.closure_shape_satisfies(ret, params, &a) {
                let ghost before = *self;
                self.closure_constraints_satisfied_by_ty(bounds, &a, span, false);
                proof {
                    assert(self.diagnostics@ =~= before.diagnostics@);
                    crate::capability::lemma_closure_shape_context(before, *self, **ret, *params, a);
                }
                return ;
            }
        }
        if !self.ty_can_assign_from(&e, &a) {
            let kind = match (&e, &a) {
                (Ty::OpaqueReturn { .. }, Ty::OpaqueReturn { .. }) => DiagKind::OpaqueReturnMismatch {
                    expected: e,
                    actual: a,
                    argument: context,
                },
                _ => DiagKind::TypeMismatch { expected: e, actual: a, argument: context },
            };
            let ghost before = *self;
            self.report(span, kind);
            proof {
                crate::capability::lemma_cache_valid_context(before, *self);
            }
        }
    }

    /// [`TypeChecker::require_assignable_with_context`] without a context.
    pub fn require_assignable(&mut self, expected: &Ty, actual: &Ty, span: Span)
        requires
            cache_valid(*old(self)),
        ensures
            final(self).program == old(self).program,
            same_except_holes(old(self).state, final(self).state),
            solutions_extend(old(self).state.hole_solutions@, final(self).state.hole_solutions@),
            !has_hole(*expected) && !has_hole(*actual) ==> final(self).state == old(self).state,
            final(self).state.hole_solutions@ == assignment_holes(old(self).program, old(self).state.hole_solutions@, *expected, *actual),
            cache_valid(*final(self)),
            ({
                let e = resolved(*final(self), *expected);
                let a = resolved(*final(self), *actual);
                final(self).diagnostics@ == if accepted(*final(self), e, a) {
                    old(self).diagnostics@
                } else {
                    old(self).diagnostics@.push(diag(span, mismatch_kind(e, a, None)))
                }
            }),
    {
        self.require_assignable_with_context(expected, actual, span, None)
    }

    /// [`TypeChecker::require_assignable_with_context`] for an argument,
    /// named by its parameter when known.
    pub fn require_assignable_argument(
        &mut self,
        expected: &Ty,
        actual: &Ty,
        span: Span,
        param_display: Option<u64>,
    )
        requires
            cache_valid(*old(self)),
        ensures
            final(self).program == old(self).program,
            same_except_holes(old(self).state, final(self).state),
            solutions_extend(old(self).state.hole_solutions@, final(self).state.hole_solutions@),
            !has_hole(*expected) && !has_hole(*actual) ==> final(self).state == old(self).state,
            final(self).state.hole_solutions@ == assignment_holes(old(self).program, old(self).state.hole_solutions@, *expected, *actual),
            cache_valid(*final(self)),
            ({
                let e = resolved(*final(self), *expected);
                let a = resolved(*final(self), *actual);
                final(self).diagnostics@ == if accepted(*final(self), e, a) {
                    old(self).diagnostics@
                } else {
                    old(self).diagnostics@.push(diag(span, mismatch_kind(e, a, param_display)))
                }
            }),
    {
        self.require_assignable_with_context(expected, actual, span, param_display)
    }
}

} // verus!
