//! Resource (affine) types: values that must be moved, never copied.
use vstd::prelude::*;
use crate::checker::{diag, FieldInfo, Program, TypeChecker};
use crate::diag::{DiagKind, Span};
use crate::lookup::{struct_instance_index, template_of};
use crate::props::{contains_generic, has_generic, has_generic_list, list_contains_generic};
use crate::ty::{copy_ty, Ty, TyList};

verus! {

pub open spec fn is_resource_handle(p: Program, t: Ty) -> bool {
    match t {
        Ty::Named { name, .. } => p.std.resource_handles@.contains(name),
        _ => false,
    }
}

/// Whether generic parameter `name` is declared resource-only in an
/// enclosing generic scope.
pub open spec fn generic_resource_only(tc: TypeChecker, name: u64) -> bool {
    exists|i: int|
        0 <= i < tc.state.resource_generic_stack@.len()
            && (#[trigger] tc.state.resource_generic_stack@[i])@.contains(name)
}

/// A type whose values are resources: a standard resource handle, a struct
/// declared `resource` (as an instance or, for generic arguments, as a
/// declaration), a resource-only generic parameter, or an array, closure
/// capture list or opaque state holding a resource, or a generated future
/// whose state holds a resource.
pub open spec fn affine(tc: TypeChecker, t: Ty) -> bool
    decreases t,
{
    match t {
        Ty::Named { name, args } => is_resource_handle(tc.program, t) || (match struct_instance_index(
            tc.program,
            name,
            args,
        ) {
            Some(i) => tc.program.structs@[i].is_resource,
            None => has_generic_list(args) && (match template_of(tc.program, name) {
                Some(tpl) => tpl.is_resource,
                None => false,
            }),
        }),
        Ty::Generic(n) => generic_resource_only(tc, n),
        Ty::Array { elem, .. } => affine(tc, *elem),
        Ty::ClosureInstance { captures, .. } => affine_list(tc, captures),
        Ty::OpaqueState { base, .. } => affine(tc, *base),
        Ty::GeneratedFuture { affine_state, .. } => affine_state,
        _ => false,
    }
}

pub open spec fn affine_list(tc: TypeChecker, l: TyList) -> bool
    decreases l,
{
    match l {
        TyList::Nil => false,
        TyList::Cons(h, t) => affine(tc, *h) || affine_list(tc, *t),
    }
}

/// Whether `x` occurs in `v`.
pub fn contains_u64(v: &Vec<u64>, x: u64) -> (r: bool)
    ensures
        r == v@.contains(x),
{
    let mut i: usize = 0;
    while i < v.len()
        invariant
            i <= v@.len(),
            forall|j: int| 0 <= j < i ==> v@[j] != x,
        decreases v@.len() - i,
    {
        if v[i] == x {
            assert(v@[i as int] == x);
            return true;
        }
        i += 1;
    }
    false
}

impl TypeChecker {
    pub fn type_is_resource_handle_leaf(&self, ty: &Ty) -> (r: bool)
        ensures
            r == is_resource_handle(self.program, *ty),
    {
        match ty {
            Ty::Named { name, .. } => contains_u64(&self.program.std.resource_handles, *name),
            _ => false,
        }
    }

    /// Whether generic parameter `name` is resource-only in some enclosing
    /// generic scope.
    pub fn generic_is_resource_only(&self, name: u64) -> (r: bool)
        ensures
            r == generic_resource_only(*self, name),
    {
        let stack = &self.state.resource_generic_stack;
        let mut i: usize = 0;
        while i < stack.len()
            invariant
                stack == &self.state.resource_generic_stack,
                i <= stack@.len(),
                forall|j: int| 0 <= j < i ==> !(#[trigger] stack@[j])@.contains(name),
            decreases stack@.len() - i,
        {
            if contains_u64(&stack[i], name) {
                return true;
            }
            i += 1;
        }
        false
    }

    /// The names of the resource-only generic parameters among `generics`
    /// (each given with whether it is resource-only).
    pub fn resource_generic_scope(generics: &Vec<(u64, bool)>) -> (r: Vec<u64>)
        ensures
            forall|n: u64|
                r@.contains(n) <==> exists|i: int|
                    0 <= i < generics@.len() && (#[trigger] generics@[i]) == (n, true),
    {
        let mut out: Vec<u64> = Vec::new();
        let mut i: usize = 0;
        while i < generics.len()
            invariant
                i <= generics@.len(),
                forall|n: u64|
                    out@.contains(n) <==> exists|j: int|
                        0 <= j < i && (#[trigger] generics@[j]) == (n, true),
            decreases generics@.len() - i,
        {
            let (name, is_resource) = generics[i];
            let ghost before = out@;
            if is_resource {
                out.push(name);
            }
            assert forall|n: u64|
                out@.contains(n) <==> exists|j: int|
                    0 <= j < i + 1 && (#[trigger] generics@[j]) == (n, true) by {
                if out@.contains(n) {
                    if before.contains(n) {
                    } else {
                        assert(generics@[i as int] == (n, true));
                    }
                }
                if exists|j: int| 0 <= j < i + 1 && (#[trigger] generics@[j]) == (n, true) {
                    let j = choose|j: int| 0 <= j < i + 1 && (#[trigger] generics@[j]) == (n, true);
                    if j < i {
                        assert(before.contains(n));
                        let k = choose|k: int| 0 <= k < before.len() && before[k] == n;
                        assert(out@[k] == n);
                    } else {
                        assert(out@[out@.len() - 1] == n);
                    }
                }
            }
            i += 1;
        }
        out
    }

    /// Whether values of `ty` are resources (see [`affine`]).
    pub fn type_is_affine(&self, ty: &Ty) -> (r: bool)
        ensures
            r == affine(*self, *ty),
        decreases ty,
    {
        match ty {
            Ty::Named { name, args } => {
                if self.type_is_resource_handle_leaf(ty) {
                    return true;
                }
                match self.find_struct_instance(*name, args) {
                    Some(i) => self.program.structs[i].is_resource,
                    None => list_contains_generic(args) && match self.find_struct_template(*name) {
                        Some(t) => self.program.struct_templates[t].is_resource,
                        None => false,
                    },
                }
            },
            Ty::Generic(n) => self.generic_is_resource_only(*n),
            Ty::Array { elem, .. } => self.type_is_affine(elem),
            Ty::ClosureInstance { captures, .. } => self.list_is_affine(captures),
            Ty::OpaqueState { base, .. } => self.type_is_affine(base),
            Ty::GeneratedFuture { affine_state, .. } => *affine_state,
            _ => false,
        }
    }

    pub fn list_is_affine(&self, l: &TyList) -> (r: bool)
        ensures
            r == affine_list(*self, *l),
        decreases l,
    {
        match l {
            TyList::Nil => false,
            TyList::Cons(h, t) => self.type_is_affine(h) || self.list_is_affine(t),
        }
    }

    /// Checks the fields of a struct declaration: a resource struct must own
    /// a resource (unless it is unsafe or a standard handle), and a struct
    /// that is not a resource cannot store one (unless it is generic).
    pub fn validate_resource_struct_fields(
        &mut self,
        ty: &Ty,
        is_resource_decl: bool,
        is_unsafe_decl: bool,
        fields: &Vec<FieldInfo>,
        span: Span,
    )
        ensures
            final(self).same_context(*old(self)),
            final(self).diagnostics@ == ({
                let has_affine_field = exists|i: int|
                    0 <= i < fields@.len() && affine(*old(self), (#[trigger] fields@[i]).ty);
                if is_resource_decl {
                    if !has_affine_field && !is_unsafe_decl && !is_resource_handle(
                        old(self).program,
                        *ty,
                    ) {
                        old(self).diagnostics@.push(
                            diag(span, DiagKind::ResourceStructWithoutResource { ty: *ty }),
                        )
                    } else {
                        old(self).diagnostics@
                    }
                } else if has_affine_field && !has_generic(*ty) {
                    old(self).diagnostics@.push(
                        diag(span, DiagKind::NonResourceStoresResource { ty: *ty }),
                    )
                } else {
                    old(self).diagnostics@
                }
            }),
    {
        let mut has_affine_field = false;
        let mut i: usize = 0;
        while i < fields.len()
            invariant
                i <= fields@.len(),
                has_affine_field == exists|j: int|
                    0 <= j < i && affine(*self, (#[trigger] fields@[j]).ty),
            decreases fields@.len() - i,
        {
            if self.type_is_affine(&fields[i].ty) {
                has_affine_field = true;
            }
            i += 1;
        }
        if is_resource_decl {
            if !has_affine_field && !is_unsafe_decl && !self.type_is_resource_handle_leaf(ty) {
                self.report(span, DiagKind::ResourceStructWithoutResource { ty: copy_ty(ty) });
            }
        } else if has_affine_field && !contains_generic(ty) {
            self.report(span, DiagKind::NonResourceStoresResource { ty: copy_ty(ty) });
        }
    }

    /// Rejects an implementation of `Clone` for messages, or of the
    /// share-handle marker, whose receiver is a resource: reports it and
    /// answers `true`; otherwise reports nothing and answers `false`.
    pub fn resource_handle_message_impl_forbidden(&mut self, span: Span, interface_def: u64, receiver_ty: Option<&Ty>) -> (r:
        bool)
        ensures
            r == (receiver_ty matches Some(t) && (old(self).program.std.message_clone == Some(interface_def)
                || old(self).program.std.share_handle == Some(interface_def)) && affine(*old(self), *t)),
            final(self).diagnostics@ == if r {
                old(self).diagnostics@.push(
                    diag(span, DiagKind::ResourceCannotImplement { ty: *receiver_ty.unwrap(), interface: interface_def }),
                )
            } else {
                old(self).diagnostics@
            },
            final(self).same_context(*old(self)),
    {
        let forbidden_interface = match self.program.std.message_clone {
            Some(d) => d == interface_def,
            None => false,
        } || match self.program.std.share_handle {
            Some(d) => d == interface_def,
            None => false,
        };
        if !forbidden_interface {
            return false;
        }
        let receiver = match receiver_ty {
            Some(t) => t,
            None => return false,
        };
        if !self.type_is_affine(receiver) {
            return false;
        }
        self.report(span, DiagKind::ResourceCannotImplement { ty: copy_ty(receiver), interface: interface_def });
        true
    }
}

} // verus!
