//! Capability (interface) resolution: which types implement which
//! interfaces, through implementations, compiler-provided markers, opaque
//! return bounds and generated futures.
use vstd::prelude::*;
use crate::affine::{affine, contains_u64};
use crate::checker::{diag, CapabilityCacheEntry, ImplSig, Program, StdDefs, TypeChecker};
use crate::diag::{DiagKind, Span};
use crate::generic::{match_list, unify_list, Binding};
use crate::props::{
    has_generic, has_generic_list, has_hole, has_hole_list, contains_generic, contains_type_hole,
    list_contains_generic, list_contains_type_hole,
};
use crate::ty::{
    copy_ty, copy_tys, known_ty_matches, tys_match, Bounds, CapList, Ty, TyList,
};

verus! {

pub open spec fn is_def(o: Option<u64>, d: u64) -> bool {
    o == Some(d)
}

pub open spec fn cons(h: Ty, t: TyList) -> TyList {
    TyList::Cons(Box::new(h), Box::new(t))
}

pub open spec fn caps_contain(l: CapList, def_id: u64, args: TyList) -> bool
    decreases l,
{
    match l {
        CapList::Nil => false,
        CapList::Cons(d, a, t) => (d == def_id && *a == args) || caps_contain(*t, def_id, args),
    }
}

pub open spec fn bounds_prove(t: Ty, def_id: u64, args: TyList) -> bool {
    match t {
        Ty::OpaqueReturn { bounds, .. } => caps_contain(bounds.positive, def_id, args),
        _ => false,
    }
}

pub open spec fn bounds_forbid(t: Ty, def_id: u64, args: TyList) -> bool {
    match t {
        Ty::OpaqueReturn { bounds, .. } => caps_contain(bounds.negative, def_id, args),
        _ => false,
    }
}

pub open spec fn exact_impl(imp: ImplSig, iface: u64, full: TyList) -> bool {
    imp.interface == iface && imp.generics@.len() == 0 && imp.args == full
}

pub open spec fn generic_impl(imp: ImplSig, iface: u64, full: TyList) -> bool {
    imp.interface == iface && imp.generics@.len() > 0 && match_list(imp.args, full, Seq::empty())
        is Some
}

pub open spec fn has_exact_impl(p: Program, iface: u64, full: TyList) -> bool {
    exists|i: int| 0 <= i < p.impls@.len() && exact_impl(#[trigger] p.impls@[i], iface, full)
}

pub open spec fn has_generic_impl(p: Program, iface: u64, full: TyList) -> bool {
    exists|i: int| 0 <= i < p.impls@.len() && generic_impl(#[trigger] p.impls@[i], iface, full)
}

pub open spec fn has_impl(p: Program, iface: u64, full: TyList) -> bool {
    has_exact_impl(p, iface, full) || has_generic_impl(p, iface, full)
}

pub open spec fn strip_opaque_state(t: Ty) -> Ty
    decreases t,
{
    match t {
        Ty::OpaqueState { base, .. } => strip_opaque_state(*base),
        _ => t,
    }
}

/// Interfaces the compiler implements itself: the error witness (for every
/// known type), the function-value marker (for safe functions of the
/// language's own ABI) and the closure-value marker (for closure instances).
pub open spec fn compiler_provided(std: StdDefs, iface: u64, args: TyList, t: Ty) -> bool {
    args is Nil && (if is_def(std.error_witness, iface) {
        !(t is Unknown || t is Hole)
    } else {
        (is_def(std.fn_value_marker, iface) && (t matches Ty::Function {
            is_unsafe: false,
            c_abi: false,
            ..
        })) || (is_def(std.closure_value_marker, iface) && t is ClosureInstance)
    })
}

pub open spec fn is_message_marker(std: StdDefs, iface: u64) -> bool {
    is_def(std.message_capability, iface) || is_def(std.message_clone, iface) || is_def(
        std.share_handle,
        iface,
    ) || is_def(std.spawnable_future, iface)
}

/// A spawnable future: a generated future, the standard future, or a type
/// with an implementation of the spawnable marker.
pub open spec fn spawnable_marker(tc: TypeChecker, iface: u64, t: Ty) -> bool {
    let base = strip_opaque_state(t);
    base is GeneratedFuture || (match base {
        Ty::Named { name, .. } => tc.program.std.future_struct == Some(name),
        _ => false,
    }) || has_impl(tc.program, iface, cons(base, TyList::Nil))
}

/// Whether `t` implements interface `iface` with (non-receiver) arguments
/// `args`.
pub open spec fn implements(tc: TypeChecker, iface: u64, args: TyList, t: Ty) -> bool
    decreases t,
{
    let std = tc.program.std;
    if bounds_forbid(t, iface, args) {
        false
    } else if bounds_prove(t, iface, args) {
        true
    } else if t is OpaqueState && !is_message_marker(std, iface) {
        implements(tc, iface, args, *t->OpaqueState_base)
    } else if (is_def(std.message_clone, iface) || is_def(std.share_handle, iface)
        || is_def(std.message_capability, iface)) && args is Nil && affine(tc, t) {
        false
    } else if is_def(std.message_capability, iface) && args is Nil && t is ClosureInstance
        && !all_implement(tc, iface, args, t->ClosureInstance_captures) {
        false
    } else if is_def(std.spawnable_future, iface) && args is Nil {
        spawnable_marker(tc, iface, t)
    } else if compiler_provided(std, iface, args, t) {
        true
    } else if t is GeneratedFuture {
        (is_def(std.awaitable_future, iface) && args == cons(
            *t->GeneratedFuture_output,
            TyList::Nil,
        )) || (is_def(std.cancel_safe_future, iface) && args is Nil
            && t->GeneratedFuture_cancel_safe) || (is_def(std.abort_future, iface) && args is Nil
            && t->GeneratedFuture_abortable)
    } else {
        has_impl(tc.program, iface, cons(t, args))
    }
}

pub open spec fn all_implement(tc: TypeChecker, iface: u64, args: TyList, l: TyList) -> bool
    decreases l,
{
    match l {
        TyList::Nil => true,
        TyList::Cons(h, t) => implements(tc, iface, args, *h) && all_implement(tc, iface, args, *t),
    }
}

/// Every remembered answer is the current answer.
pub open spec fn cache_valid(tc: TypeChecker) -> bool {
    forall|i: int|
        0 <= i < tc.capability_cache@.len() ==> (#[trigger] tc.capability_cache@[i]).implements
            == implements(
            tc,
            tc.capability_cache@[i].interface,
            tc.capability_cache@[i].args,
            tc.capability_cache@[i].receiver,
        )
}

/// Answers may be remembered only for fully known types outside symbolic
/// resolution.
pub open spec fn cacheable(tc: TypeChecker, args: TyList, t: Ty) -> bool {
    tc.state.symbolic_depth == 0 && !has_generic(t) && !has_hole(t) && !has_generic_list(args)
        && !has_hole_list(args)
}

/// A remembered answer is for this query.
pub open spec fn entry_matches(e: CapabilityCacheEntry, interface: u64, args: TyList, receiver: Ty) -> bool {
    e.interface == interface && e.args == args && e.receiver == receiver
}

/// An answer for this query is remembered.
pub open spec fn cache_hit(cache: Seq<CapabilityCacheEntry>, interface: u64, args: TyList, receiver: Ty) -> bool {
    exists|i: int| 0 <= i < cache.len() && entry_matches(#[trigger] cache[i], interface, args, receiver)
}

/// The key under which a capability answer is remembered.
#[derive(Debug, PartialEq)]
pub struct CapabilityCacheKey {
    pub epoch: u64,
    pub interface: u64,
    pub args: TyList,
    pub receiver: Ty,
}

/// The result of searching for an implementation.
#[derive(Debug, PartialEq)]
pub enum ImplSearch {
    /// the implementation at this position applies (for a generic
    /// implementation, with these bindings of its generics)
    Found(usize, Vec<Binding>),
    NotFound,
}

fn caps_contain_exec(l: &CapList, def_id: u64, args: &TyList) -> (r: bool)
    ensures
        r == caps_contain(*l, def_id, *args),
    decreases l,
{
    match l {
        CapList::Nil => false,
        CapList::Cons(d, a, t) => (*d == def_id && tys_match(a, args)) || caps_contain_exec(
            t,
            def_id,
            args,
        ),
    }
}

fn opt_is(o: Option<u64>, d: u64) -> (r: bool)
    ensures
        r == is_def(o, d),
{
    match o {
        Some(x) => x == d,
        None => false,
    }
}

/// `t` without the hidden state of opaque-state wrappers.
pub fn strip_opaque_state_for_lookup(t: &Ty) -> (r: Ty)
    ensures
        r == strip_opaque_state(*t),
    decreases t,
{
    match t {
        Ty::OpaqueState { base, .. } => strip_opaque_state_for_lookup(base),
        _ => copy_ty(t),
    }
}

impl TypeChecker {
    pub fn opaque_return_bounds_prove(&self, ty: &Ty, interface_def: u64, args: &TyList) -> (r:
        bool)
        ensures
            r == bounds_prove(*ty, interface_def, *args),
    {
        match ty {
            Ty::OpaqueReturn { bounds, .. } => caps_contain_exec(&bounds.positive, interface_def, args),
            _ => false,
        }
    }

    pub fn opaque_return_bounds_forbid(&self, ty: &Ty, interface_def: u64, args: &TyList) -> (r:
        bool)
        ensures
            r == bounds_forbid(*ty, interface_def, *args),
    {
        match ty {
            Ty::OpaqueReturn { bounds, .. } => caps_contain_exec(&bounds.negative, interface_def, args),
            _ => false,
        }
    }

    /// The first concrete implementation of `interface_def` for exactly the
    /// full arguments `interface_args` (receiver first).
    pub fn find_impl_by_full_args(&self, interface_def: u64, interface_args: &TyList) -> (r: Option<
        usize,
    >)
        ensures
            r matches Some(i) ==> i < self.program.impls@.len() && exact_impl(
                self.program.impls@[i as int],
                interface_def,
                *interface_args,
            ) && forall|j: int|
                0 <= j < i ==> !exact_impl(
                    #[trigger] self.program.impls@[j],
                    interface_def,
                    *interface_args,
                ),
            r is None ==> !has_exact_impl(self.program, interface_def, *interface_args),
    {
        let mut i: usize = 0;
        while i < self.program.impls.len()
            invariant
                i <= self.program.impls@.len(),
                forall|j: int|
                    0 <= j < i ==> !exact_impl(
                        #[trigger] self.program.impls@[j],
                        interface_def,
                        *interface_args,
                    ),
            decreases self.program.impls@.len() - i,
        {
            let imp = &self.program.impls[i];
            if imp.interface == interface_def && imp.generics.len() == 0 && tys_match(
                &imp.args,
                interface_args,
            ) {
                return Some(i);
            }
            i += 1;
        }
        None
    }

    /// The first concrete implementation of `interface_def<args>` for the
    /// receiver type.
    pub fn find_impl(&self, interface_def: u64, args: &TyList, receiver_ty: &Ty) -> (r: Option<
        usize,
    >)
        ensures
            r matches Some(i) ==> i < self.program.impls@.len() && exact_impl(
                self.program.impls@[i as int],
                interface_def,
                cons(*receiver_ty, *args),
            ) && forall|j: int|
                0 <= j < i ==> !exact_impl(
                    #[trigger] self.program.impls@[j],
                    interface_def,
                    cons(*receiver_ty, *args),
                ),
            r is None ==> !has_exact_impl(self.program, interface_def, cons(*receiver_ty, *args)),
    {
        let full = TyList::Cons(Box::new(copy_ty(receiver_ty)), Box::new(copy_tys(args)));
        self.find_impl_by_full_args(interface_def, &full)
    }

    /// Whether some generic implementation of `interface_def` matches the
    /// full arguments (its constraints are not consulted).
    pub fn generic_impl_matches_full(&self, interface_def: u64, full: &TyList) -> (r: bool)
        ensures
            r == has_generic_impl(self.program, interface_def, *full),
    {
        let mut i: usize = 0;
        while i < self.program.impls.len()
            invariant
                i <= self.program.impls@.len(),
                forall|j: int|
                    0 <= j < i ==> !generic_impl(
                        #[trigger] self.program.impls@[j],
                        interface_def,
                        *full,
                    ),
            decreases self.program.impls@.len() - i,
        {
            let imp = &self.program.impls[i];
            if imp.interface == interface_def && imp.generics.len() > 0 {
                let mut s: Vec<Binding> = Vec::new();
                if unify_list(&imp.args, full, &mut s) {
                    assert(generic_impl(self.program.impls@[i as int], interface_def, *full));
                    return true;
                }
            }
            i += 1;
        }
        false
    }

    /// Whether some generic implementation of `interface_def<args>` matches
    /// the receiver (its constraints are not consulted).
    pub fn generic_impl_matches_without_constraints(
        &self,
        interface_def: u64,
        non_receiver_args: &TyList,
        receiver_ty: &Ty,
    ) -> (r: bool)
        ensures
            r == has_generic_impl(self.program, interface_def, cons(*receiver_ty, *non_receiver_args)),
    {
        let full = TyList::Cons(
            Box::new(copy_ty(receiver_ty)),
            Box::new(copy_tys(non_receiver_args)),
        );
        self.generic_impl_matches_full(interface_def, &full)
    }

    /// Whether any implementation (concrete or generic) applies.
    pub fn has_impl_for(&self, interface_def: u64, full: &TyList) -> (r: bool)
        ensures
            r == has_impl(self.program, interface_def, *full),
    {
        self.find_impl_by_full_args(interface_def, full).is_some()
            || self.generic_impl_matches_full(interface_def, full)
    }

    /// Whether `interface_def` is an interface the compiler implements
    /// itself.
    pub fn is_compiler_provided_interface_def(&self, def_id: u64) -> (r: bool)
        ensures
            r == (is_def(self.program.std.error_witness, def_id) || is_def(
                self.program.std.fn_value_marker,
                def_id,
            ) || is_def(self.program.std.closure_value_marker, def_id)),
    {
        opt_is(self.program.std.error_witness, def_id) || opt_is(
            self.program.std.fn_value_marker,
            def_id,
        ) || opt_is(self.program.std.closure_value_marker, def_id)
    }

    /// Whether `def_id` is one of the marker interfaces (no methods).
    pub fn is_marker_interface_def(&self, def_id: u64) -> (r: bool)
        ensures
            r == (is_def(self.program.std.message_capability, def_id) || is_def(
                self.program.std.async_frame_opt_in,
                def_id,
            ) || is_def(self.program.std.spawnable_future, def_id) || is_def(
                self.program.std.fn_value_marker,
                def_id,
            ) || is_def(self.program.std.closure_value_marker, def_id)),
    {
        opt_is(self.program.std.message_capability, def_id) || opt_is(
            self.program.std.async_frame_opt_in,
            def_id,
        ) || opt_is(self.program.std.spawnable_future, def_id) || opt_is(
            self.program.std.fn_value_marker,
            def_id,
        ) || opt_is(self.program.std.closure_value_marker, def_id)
    }

    /// Whether the compiler itself provides `interface_def<args>` for the
    /// receiver (see [`compiler_provided`]).
    pub fn type_implements_compiler_provided_interface(
        &self,
        interface_def: u64,
        args: &TyList,
        receiver_ty: &Ty,
    ) -> (r: bool)
        ensures
            r == compiler_provided(self.program.std, interface_def, *args, *receiver_ty),
    {
        match args {
            TyList::Nil => {},
            _ => {
                return false;
            },
        }
        if opt_is(self.program.std.error_witness, interface_def) {
            return match receiver_ty {
                Ty::Unknown | Ty::Hole(_) => false,
                _ => true,
            };
        }
        (opt_is(self.program.std.fn_value_marker, interface_def) && match receiver_ty {
            Ty::Function { is_unsafe: false, c_abi: false, .. } => true,
            _ => false,
        }) || (opt_is(self.program.std.closure_value_marker, interface_def) && match receiver_ty {
            Ty::ClosureInstance { .. } => true,
            _ => false,
        })
    }

    pub(crate) fn spawnable_marker_holds(&self, interface_def: u64, ty: &Ty) -> (r: bool)
        ensures
            r == spawnable_marker(*self, interface_def, *ty),
    {
        let base = strip_opaque_state_for_lookup(ty);
        let generated = match &base {
            Ty::GeneratedFuture { .. } => true,
            _ => false,
        };
        let std_future = match &base {
            Ty::Named { name, .. } => opt_is(self.program.std.future_struct, *name),
            _ => false,
        };
        if generated || std_future {
            return true;
        }
        let full = TyList::Cons(Box::new(base), Box::new(TyList::Nil));
        self.has_impl_for(interface_def, &full)
    }

    /// Whether the receiver implements `interface_def<args>` (see
    /// [`implements`]); the answer is computed afresh.
    pub fn type_implements_capability_inner(
        &self,
        interface_def: u64,
        args: &TyList,
        receiver_ty: &Ty,
    ) -> (r: bool)
        ensures
            r == implements(*self, interface_def, *args, *receiver_ty),
        decreases receiver_ty,
    {
        let std = &self.program.std;
        if self.opaque_return_bounds_forbid(receiver_ty, interface_def, args) {
            return false;
        }
        if self.opaque_return_bounds_prove(receiver_ty, interface_def, args) {
            return true;
        }
        let marker = opt_is(std.message_capability, interface_def) || opt_is(
            std.message_clone,
            interface_def,
        ) || opt_is(std.share_handle, interface_def) || opt_is(std.spawnable_future, interface_def);
        if let Ty::OpaqueState { base, .. } = receiver_ty {
            if !marker {
                return self.type_implements_capability_inner(interface_def, args, base);
            }
        }
        let no_args = match args {
            TyList::Nil => true,
            _ => false,
        };
        let message_like = opt_is(std.message_clone, interface_def) || opt_is(
            std.share_handle,
            interface_def,
        ) || opt_is(std.message_capability, interface_def);
        if message_like && no_args && self.type_is_affine(receiver_ty) {
            return false;
        }
        if opt_is(std.message_capability, interface_def) && no_args {
            if let Ty::ClosureInstance { captures, .. } = receiver_ty {
                if !self.all_implement_capability(interface_def, args, captures) {
                    return false;
                }
            }
        }
        if opt_is(std.spawnable_future, interface_def) && no_args {
            return self.spawnable_marker_holds(interface_def, receiver_ty);
        }
        if self.type_implements_compiler_provided_interface(interface_def, args, receiver_ty) {
            return true;
        }
        if let Ty::GeneratedFuture { output, cancel_safe, abortable, .. } = receiver_ty {
            let awaitable = opt_is(std.awaitable_future, interface_def) && match args {
                TyList::Cons(h, t) => known_ty_matches(h, output) && match **t {
                    TyList::Nil => true,
                    _ => false,
                },
                TyList::Nil => false,
            };
            return awaitable || (opt_is(std.cancel_safe_future, interface_def) && no_args
                && *cancel_safe) || (opt_is(std.abort_future, interface_def) && no_args
                && *abortable);
        }
        let full = TyList::Cons(Box::new(copy_ty(receiver_ty)), Box::new(copy_tys(args)));
        self.has_impl_for(interface_def, &full)
    }

    fn all_implement_capability(&self, interface_def: u64, args: &TyList, l: &TyList) -> (r: bool)
        ensures
            r == all_implement(*self, interface_def, *args, *l),
        decreases l,
    {
        match l {
            TyList::Nil => true,
            TyList::Cons(h, t) => self.type_implements_capability_inner(interface_def, args, h)
                && self.all_implement_capability(interface_def, args, t),
        }
    }

    /// Whether the receiver implements `interface_def<args>`, computed
    /// afresh.
    pub fn type_implements_capability_for_receiver(
        &self,
        interface_def: u64,
        args: &TyList,
        receiver_ty: &Ty,
    ) -> (r: bool)
        ensures
            r == implements(*self, interface_def, *args, *receiver_ty),
    {
        self.type_implements_capability_inner(interface_def, args, receiver_ty)
    }

    /// Whether the receiver implements `interface_def<args>`, computed
    /// afresh.
    pub fn type_implements_capability_by_def_uncached(
        &self,
        interface_def: u64,
        args: &TyList,
        receiver_ty: &Ty,
    ) -> (r: bool)
        ensures
            r == implements(*self, interface_def, *args, *receiver_ty),
    {
        self.type_implements_capability_for_receiver(interface_def, args, receiver_ty)
    }

    /// The key under which the answer for this query may be remembered;
    /// none for queries about generic or not yet inferred types, or during
    /// symbolic resolution.
    pub fn capability_resolution_cache_key(
        &self,
        interface_def: u64,
        args: &TyList,
        receiver_ty: &Ty,
    ) -> (r: Option<CapabilityCacheKey>)
        ensures
            r is Some <==> cacheable(*self, *args, *receiver_ty),
            r matches Some(k) ==> k.epoch == self.capability_epoch && k.interface == interface_def
                && k.args == *args && k.receiver == *receiver_ty,
    {
        if self.state.symbolic_depth > 0 || contains_generic(receiver_ty) || contains_type_hole(
            receiver_ty,
        ) || list_contains_generic(args) || list_contains_type_hole(args) {
            return None;
        }
        Some(
            CapabilityCacheKey {
                epoch: self.capability_epoch,
                interface: interface_def,
                args: copy_tys(args),
                receiver: copy_ty(receiver_ty),
            },
        )
    }

    /// Forgets every remembered capability answer and starts a new epoch.
    pub fn bump_capability_resolution_epoch(&mut self)
        ensures
            final(self).capability_epoch == (if old(self).capability_epoch == u64::MAX {
                0
            } else {
                (old(self).capability_epoch + 1) as u64
            }),
            final(self).capability_cache@.len() == 0,
            final(self).program == old(self).program,
            final(self).state == old(self).state,
            final(self).diagnostics == old(self).diagnostics,
            cache_valid(*final(self)),
    {
        self.capability_epoch = self.capability_epoch.wrapping_add(1);
        self.capability_cache = Vec::new();
    }

    /// Whether the receiver implements `interface_def<args>`, using and
    /// extending the remembered answers.
    pub fn type_implements_capability_by_def(
        &mut self,
        interface_def: u64,
        args: &TyList,
        receiver_ty: &Ty,
    ) -> (r: bool)
        requires
            cache_valid(*old(self)),
        ensures
            r == implements(*old(self), interface_def, *args, *receiver_ty),
            final(self).same_program_and_state(*old(self)),
            final(self).diagnostics == old(self).diagnostics,
            final(self).capability_epoch == old(self).capability_epoch,
            final(self).capability_cache@ == if cacheable(*old(self), *args, *receiver_ty) && !cache_hit(
                old(self).capability_cache@,
                interface_def,
                *args,
                *receiver_ty,
            ) {
                old(self).capability_cache@.push(
                    CapabilityCacheEntry { interface: interface_def, args: *args, receiver: *receiver_ty, implements: r },
                )
            } else {
                old(self).capability_cache@
            },
            cache_valid(*final(self)),
    {
        let key = self.capability_resolution_cache_key(interface_def, args, receiver_ty);
        if key.is_some() {
            let mut i: usize = 0;
            while i < self.capability_cache.len()
                invariant
                    i <= self.capability_cache@.len(),
                    cache_valid(*self),
                    forall|j: int|
                        0 <= j < i ==> !entry_matches(
                            #[trigger] self.capability_cache@[j],
                            interface_def,
                            *args,
                            *receiver_ty,
                        ),
            decreases self.capability_cache@.len() - i,
            {
                let e = &self.capability_cache[i];
                if e.interface == interface_def && tys_match(&e.args, args) && known_ty_matches(
                    &e.receiver,
                    receiver_ty,
                ) {
                    assert(self.capability_cache@[i as int].implements == implements(
                        *self,
                        interface_def,
                        *args,
                        *receiver_ty,
                    ));
                    assert(entry_matches(self.capability_cache@[i as int], interface_def, *args, *receiver_ty));
                    return e.implements;
                }
                i += 1;
            }
        }
        let answer = self.type_implements_capability_by_def_uncached(
            interface_def,
            args,
            receiver_ty,
        );
        if key.is_some() {
            let ghost before = *self;
            self.capability_cache.push(
                CapabilityCacheEntry {
                    interface: interface_def,
                    args: copy_tys(args),
                    receiver: copy_ty(receiver_ty),
                    implements: answer,
                },
            );
            assert forall|i: int|
                0 <= i < self.capability_cache@.len() implies (#[trigger] self.capability_cache@[i]).implements
                == implements(
                *self,
                self.capability_cache@[i].interface,
                self.capability_cache@[i].args,
                self.capability_cache@[i].receiver,
            ) by {
                if i < before.capability_cache@.len() {
                    assert(self.capability_cache@[i] == before.capability_cache@[i]);
                    implements_depends_on_context(
                        before,
                        *self,
                        self.capability_cache@[i].interface,
                        self.capability_cache@[i].args,
                        self.capability_cache@[i].receiver,
                    );
                } else {
                    implements_depends_on_context(before, *self, interface_def, *args, *receiver_ty);
                }
            }
        }
        answer
    }
}

/// Remembered answers stay valid while the program, the checking state and
/// the remembered answers themselves are unchanged.
pub proof fn lemma_cache_valid_context(a: TypeChecker, b: TypeChecker)
    requires
        cache_valid(a),
        a.program == b.program,
        a.state.resource_generic_stack == b.state.resource_generic_stack,
        a.capability_cache == b.capability_cache,
    ensures
        cache_valid(b),
{
    assert forall|i: int| 0 <= i < b.capability_cache@.len() implies (#[trigger] b.capability_cache@[i]).implements
        == implements(b, b.capability_cache@[i].interface, b.capability_cache@[i].args, b.capability_cache@[i].receiver) by {
        assert(a.capability_cache@[i] == b.capability_cache@[i]);
        implements_depends_on_context(a, b, b.capability_cache@[i].interface, b.capability_cache@[i].args, b.capability_cache@[i].receiver);
    }
}

/// Whether a closure fits a shape depends only on the program.
pub proof fn lemma_closure_shape_context(a: TypeChecker, b: TypeChecker, ret: Ty, params: TyList, actual: Ty)
    requires
        a.program == b.program,
    ensures
        crate::checks::closure_shape(a, ret, params, actual) == crate::checks::closure_shape(b, ret, params, actual),
{
}

/// Capability answers depend only on the program and the checking state.
pub proof fn implements_depends_on_context(a: TypeChecker, b: TypeChecker, iface: u64, args: TyList, t: Ty)
    requires
        a.program == b.program,
        a.state.resource_generic_stack == b.state.resource_generic_stack,
    ensures
        implements(a, iface, args, t) == implements(b, iface, args, t),
    decreases t,
{
    lemma_affine_context(a, b, t);
    match t {
        Ty::OpaqueState { base, .. } => {
            implements_depends_on_context(a, b, iface, args, *base);
        },
        Ty::ClosureInstance { captures, .. } => {
            all_implement_depends_on_context(a, b, iface, args, captures);
        },
        _ => {},
    }
}

proof fn all_implement_depends_on_context(a: TypeChecker, b: TypeChecker, iface: u64, args: TyList, l: TyList)
    requires
        a.program == b.program,
        a.state.resource_generic_stack == b.state.resource_generic_stack,
    ensures
        all_implement(a, iface, args, l) == all_implement(b, iface, args, l),
    decreases l,
{
    match l {
        TyList::Nil => {},
        TyList::Cons(h, t) => {
            implements_depends_on_context(a, b, iface, args, *h);
            all_implement_depends_on_context(a, b, iface, args, *t);
        },
    }
}

pub proof fn lemma_affine_context_pub(a: TypeChecker, b: TypeChecker, t: Ty)
    requires
        a.program == b.program,
        a.state.resource_generic_stack == b.state.resource_generic_stack,
    ensures
        affine(a, t) == affine(b, t),
{
    lemma_affine_context(a, b, t);
}

proof fn lemma_affine_context(a: TypeChecker, b: TypeChecker, t: Ty)
    requires
        a.program == b.program,
        a.state.resource_generic_stack == b.state.resource_generic_stack,
    ensures
        affine(a, t) == affine(b, t),
    decreases t,
{
    match t {
        Ty::Array { elem, .. } => lemma_affine_context(a, b, *elem),
        Ty::OpaqueState { base, .. } => lemma_affine_context(a, b, *base),
        Ty::ClosureInstance { captures, .. } => lemma_affine_list_context(a, b, captures),
        _ => {},
    }
}

proof fn lemma_affine_list_context(a: TypeChecker, b: TypeChecker, l: TyList)
    requires
        a.program == b.program,
        a.state.resource_generic_stack == b.state.resource_generic_stack,
    ensures
        crate::affine::affine_list(a, l) == crate::affine::affine_list(b, l),
    decreases l,
{
    match l {
        TyList::Nil => {},
        TyList::Cons(h, t) => {
            lemma_affine_context(a, b, *h);
            lemma_affine_list_context(a, b, *t);
        },
    }
}

} // verus!
