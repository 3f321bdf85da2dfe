//! Classification of types and structural queries over them.
use std::collections::HashSet;
use vstd::prelude::*;
use crate::ty::{CapList, Ty, TyList};

verus! {

pub open spec fn is_integer_ty(t: Ty) -> bool {
    match t {
        Ty::I8 | Ty::I16 | Ty::I32 | Ty::I64 | Ty::U8 | Ty::U16 | Ty::U32 | Ty::U64 | Ty::Usize => true,
        _ => false,
    }
}

pub open spec fn is_float_ty(t: Ty) -> bool {
    t is Float32 || t is Float64
}

pub open spec fn is_numeric_ty(t: Ty) -> bool {
    is_integer_ty(t) || is_float_ty(t)
}

pub open spec fn bit_width(t: Ty) -> Option<u32> {
    match t {
        Ty::I8 | Ty::U8 => Some(8),
        Ty::I16 | Ty::U16 => Some(16),
        Ty::I32 | Ty::U32 => Some(32),
        Ty::I64 | Ty::U64 | Ty::Usize => Some(64),
        _ => None,
    }
}

/// Values of these types carry no data at run time.
pub open spec fn is_erased_ty(t: Ty) -> bool {
    t is Void || t is Never
}

impl Ty {
    pub fn is_integer(&self) -> (r: bool)
        ensures
            r == is_integer_ty(*self),
    {
        match self {
            Ty::I8 | Ty::I16 | Ty::I32 | Ty::I64 | Ty::U8 | Ty::U16 | Ty::U32 | Ty::U64
            | Ty::Usize => true,
            _ => false,
        }
    }

    pub fn is_float(&self) -> (r: bool)
        ensures
            r == is_float_ty(*self),
    {
        match self {
            Ty::Float32 | Ty::Float64 => true,
            _ => false,
        }
    }

    pub fn is_numeric(&self) -> (r: bool)
        ensures
            r == is_numeric_ty(*self),
    {
        self.is_integer() || self.is_float()
    }

    pub fn integer_bit_width(&self) -> (r: Option<u32>)
        ensures
            r == bit_width(*self),
    {
        match self {
            Ty::I8 | Ty::U8 => Some(8),
            Ty::I16 | Ty::U16 => Some(16),
            Ty::I32 | Ty::U32 => Some(32),
            Ty::I64 | Ty::U64 | Ty::Usize => Some(64),
            _ => None,
        }
    }

    pub fn is_erased_value(&self) -> (r: bool)
        ensures
            r == is_erased_ty(*self),
    {
        match self {
            Ty::Void | Ty::Never => true,
            _ => false,
        }
    }

    pub fn is_never(&self) -> (r: bool)
        ensures
            r == (*self is Never),
    {
        match self {
            Ty::Never => true,
            _ => false,
        }
    }

    pub fn is_unknown(&self) -> (r: bool)
        ensures
            r == (*self is Unknown),
    {
        match self {
            Ty::Unknown => true,
            _ => false,
        }
    }
}

// ---------------------------------------------------------------------------
// Generic parameters and inference holes
// ---------------------------------------------------------------------------

pub open spec fn has_generic(t: Ty) -> bool
    decreases t,
{
    match t {
        Ty::Generic(_) => true,
        Ty::Pointer { inner, .. } => has_generic(*inner),
        Ty::Array { elem, .. } => has_generic(*elem),
        Ty::Slice { elem, .. } => has_generic(*elem),
        Ty::Named { args, .. } => has_generic_list(args),
        Ty::DynamicInterface { args, .. } => has_generic_list(args),
        Ty::Function { ret, params, .. } => has_generic(*ret) || has_generic_list(params),
        Ty::Closure { ret, params, .. } => has_generic(*ret) || has_generic_list(params),
        Ty::ClosureInstance { ret, params, captures, .. } => has_generic(*ret) || has_generic_list(
            params,
        ) || has_generic_list(captures),
        Ty::GeneratedFuture { output, .. } => has_generic(*output),
        Ty::OpaqueReturn { key_args, .. } => has_generic_list(key_args),
        Ty::OpaqueState { base, .. } => has_generic(*base),
        _ => false,
    }
}

pub open spec fn has_generic_list(l: TyList) -> bool
    decreases l,
{
    match l {
        TyList::Nil => false,
        TyList::Cons(h, t) => has_generic(*h) || has_generic_list(*t),
    }
}

pub fn contains_generic(t: &Ty) -> (r: bool)
    ensures
        r == has_generic(*t),
    decreases t,
{
    match t {
        Ty::Generic(_) => true,
        Ty::Pointer { inner, .. } => contains_generic(inner),
        Ty::Array { elem, .. } => contains_generic(elem),
        Ty::Slice { elem, .. } => contains_generic(elem),
        Ty::Named { args, .. } => list_contains_generic(args),
        Ty::DynamicInterface { args, .. } => list_contains_generic(args),
        Ty::Function { ret, params, .. } => contains_generic(ret) || list_contains_generic(params),
        Ty::Closure { ret, params, .. } => contains_generic(ret) || list_contains_generic(params),
        Ty::ClosureInstance { ret, params, captures, .. } => contains_generic(ret)
            || list_contains_generic(params) || list_contains_generic(captures),
        Ty::GeneratedFuture { output, .. } => contains_generic(output),
        Ty::OpaqueReturn { key_args, .. } => list_contains_generic(key_args),
        Ty::OpaqueState { base, .. } => contains_generic(base),
        _ => false,
    }
}

pub fn list_contains_generic(l: &TyList) -> (r: bool)
    ensures
        r == has_generic_list(*l),
    decreases l,
{
    match l {
        TyList::Nil => false,
        TyList::Cons(h, t) => contains_generic(h) || list_contains_generic(t),
    }
}

pub open spec fn has_hole(t: Ty) -> bool
    decreases t,
{
    match t {
        Ty::Hole(_) => true,
        Ty::Pointer { inner, .. } => has_hole(*inner),
        Ty::Array { elem, .. } => has_hole(*elem),
        Ty::Slice { elem, .. } => has_hole(*elem),
        Ty::Named { args, .. } => has_hole_list(args),
        Ty::DynamicInterface { args, .. } => has_hole_list(args),
        Ty::Function { ret, params, .. } => has_hole(*ret) || has_hole_list(params),
        Ty::Closure { ret, params, .. } => has_hole(*ret) || has_hole_list(params),
        Ty::ClosureInstance { ret, params, captures, .. } => has_hole(*ret) || has_hole_list(params)
            || has_hole_list(captures),
        Ty::GeneratedFuture { output, .. } => has_hole(*output),
        Ty::OpaqueReturn { key_args, .. } => has_hole_list(key_args),
        Ty::OpaqueState { base, .. } => has_hole(*base),
        _ => false,
    }
}

pub open spec fn has_hole_list(l: TyList) -> bool
    decreases l,
{
    match l {
        TyList::Nil => false,
        TyList::Cons(h, t) => has_hole(*h) || has_hole_list(*t),
    }
}

pub fn contains_type_hole(t: &Ty) -> (r: bool)
    ensures
        r == has_hole(*t),
    decreases t,
{
    match t {
        Ty::Hole(_) => true,
        Ty::Pointer { inner, .. } => contains_type_hole(inner),
        Ty::Array { elem, .. } => contains_type_hole(elem),
        Ty::Slice { elem, .. } => contains_type_hole(elem),
        Ty::Named { args, .. } => list_contains_type_hole(args),
        Ty::DynamicInterface { args, .. } => list_contains_type_hole(args),
        Ty::Function { ret, params, .. } => contains_type_hole(ret) || list_contains_type_hole(
            params,
        ),
        Ty::Closure { ret, params, .. } => contains_type_hole(ret) || list_contains_type_hole(
            params,
        ),
        Ty::ClosureInstance { ret, params, captures, .. } => contains_type_hole(ret)
            || list_contains_type_hole(params) || list_contains_type_hole(captures),
        Ty::GeneratedFuture { output, .. } => contains_type_hole(output),
        Ty::OpaqueReturn { key_args, .. } => list_contains_type_hole(key_args),
        Ty::OpaqueState { base, .. } => contains_type_hole(base),
        _ => false,
    }
}

pub fn list_contains_type_hole(l: &TyList) -> (r: bool)
    ensures
        r == has_hole_list(*l),
    decreases l,
{
    match l {
        TyList::Nil => false,
        TyList::Cons(h, t) => contains_type_hole(h) || list_contains_type_hole(t),
    }
}

// ---------------------------------------------------------------------------
// Closures and `never` values
// ---------------------------------------------------------------------------

pub open spec fn has_closure(t: Ty) -> bool
    decreases t,
{
    match t {
        Ty::Closure { .. } | Ty::ClosureInstance { .. } => true,
        Ty::Pointer { inner, .. } => has_closure(*inner),
        Ty::Array { elem, .. } => has_closure(*elem),
        Ty::Slice { elem, .. } => has_closure(*elem),
        Ty::GeneratedFuture { output, .. } => has_closure(*output),
        Ty::Named { args, .. } => has_closure_list(args),
        Ty::DynamicInterface { args, .. } => has_closure_list(args),
        Ty::OpaqueReturn { key_args, bounds, .. } => has_closure_list(key_args)
            || has_closure_caps(bounds.positive) || has_closure_caps(bounds.negative),
        Ty::Function { ret, params, .. } => has_closure(*ret) || has_closure_list(params),
        Ty::OpaqueState { base, .. } => has_closure(*base),
        _ => false,
    }
}

pub open spec fn has_closure_list(l: TyList) -> bool
    decreases l,
{
    match l {
        TyList::Nil => false,
        TyList::Cons(h, t) => has_closure(*h) || has_closure_list(*t),
    }
}

pub open spec fn has_closure_caps(l: CapList) -> bool
    decreases l,
{
    match l {
        CapList::Nil => false,
        CapList::Cons(_, args, t) => has_closure_list(*args) || has_closure_caps(*t),
    }
}

/// Whether a closure type occurs anywhere inside `t` (including the arguments
/// of opaque-return bounds).
pub fn type_contains_closure(t: &Ty) -> (r: bool)
    ensures
        r == has_closure(*t),
    decreases t,
{
    match t {
        Ty::Closure { .. } | Ty::ClosureInstance { .. } => true,
        Ty::Pointer { inner, .. } => type_contains_closure(inner),
        Ty::Array { elem, .. } => type_contains_closure(elem),
        Ty::Slice { elem, .. } => type_contains_closure(elem),
        Ty::GeneratedFuture { output, .. } => type_contains_closure(output),
        Ty::Named { args, .. } => list_contains_closure(args),
        Ty::DynamicInterface { args, .. } => list_contains_closure(args),
        Ty::OpaqueReturn { key_args, bounds, .. } => list_contains_closure(key_args)
            || caps_contain_closure(&bounds.positive) || caps_contain_closure(&bounds.negative),
        Ty::Function { ret, params, .. } => type_contains_closure(ret) || list_contains_closure(
            params,
        ),
        Ty::OpaqueState { base, .. } => type_contains_closure(base),
        _ => false,
    }
}

pub fn list_contains_closure(l: &TyList) -> (r: bool)
    ensures
        r == has_closure_list(*l),
    decreases l,
{
    match l {
        TyList::Nil => false,
        TyList::Cons(h, t) => type_contains_closure(h) || list_contains_closure(t),
    }
}

pub fn caps_contain_closure(l: &CapList) -> (r: bool)
    ensures
        r == has_closure_caps(*l),
    decreases l,
{
    match l {
        CapList::Nil => false,
        CapList::Cons(_, args, t) => list_contains_closure(args) || caps_contain_closure(t),
    }
}

pub open spec fn has_plain_never(t: Ty) -> bool
    decreases t,
{
    match t {
        Ty::Never => true,
        Ty::Array { elem, .. } => has_plain_never(*elem),
        Ty::Slice { elem, .. } => has_plain_never(*elem),
        Ty::GeneratedFuture { output, .. } => has_plain_never(*output),
        Ty::Function { params, .. } => has_plain_never_list(params),
        Ty::Closure { params, .. } => has_plain_never_list(params),
        Ty::ClosureInstance { params, .. } => has_plain_never_list(params),
        Ty::OpaqueState { base, .. } => has_plain_never(*base),
        _ => false,
    }
}

pub open spec fn has_plain_never_list(l: TyList) -> bool
    decreases l,
{
    match l {
        TyList::Nil => false,
        TyList::Cons(h, t) => has_plain_never(*h) || has_plain_never_list(*t),
    }
}

/// Whether `never` occurs as a stored value inside `t` (pointers and
/// aggregate names do not store their pointee or arguments by value).
pub fn type_contains_plain_never_value(t: &Ty) -> (r: bool)
    ensures
        r == has_plain_never(*t),
    decreases t,
{
    match t {
        Ty::Never => true,
        Ty::Array { elem, .. } => type_contains_plain_never_value(elem),
        Ty::Slice { elem, .. } => type_contains_plain_never_value(elem),
        Ty::GeneratedFuture { output, .. } => type_contains_plain_never_value(output),
        Ty::Function { params, .. } => list_contains_plain_never(params),
        Ty::Closure { params, .. } => list_contains_plain_never(params),
        Ty::ClosureInstance { params, .. } => list_contains_plain_never(params),
        Ty::OpaqueState { base, .. } => type_contains_plain_never_value(base),
        _ => false,
    }
}

pub fn list_contains_plain_never(l: &TyList) -> (r: bool)
    ensures
        r == has_plain_never_list(*l),
    decreases l,
{
    match l {
        TyList::Nil => false,
        TyList::Cons(h, t) => type_contains_plain_never_value(h) || list_contains_plain_never(t),
    }
}

// ---------------------------------------------------------------------------
// Generic parameter names
// ---------------------------------------------------------------------------

pub open spec fn generic_names(t: Ty) -> Set<u64>
    decreases t,
{
    match t {
        Ty::Generic(n) => set![n],
        Ty::Pointer { inner, .. } => generic_names(*inner),
        Ty::Array { elem, .. } => generic_names(*elem),
        Ty::Slice { elem, .. } => generic_names(*elem),
        Ty::Named { args, .. } => generic_names_list(args),
        Ty::DynamicInterface { args, .. } => generic_names_list(args),
        Ty::Function { ret, params, .. } => generic_names(*ret).union(generic_names_list(params)),
        Ty::Closure { ret, params, .. } => generic_names(*ret).union(generic_names_list(params)),
        Ty::ClosureInstance { ret, params, captures, .. } => generic_names(*ret).union(
            generic_names_list(params),
        ).union(generic_names_list(captures)),
        Ty::GeneratedFuture { output, .. } => generic_names(*output),
        _ => Set::empty(),
    }
}

pub open spec fn generic_names_list(l: TyList) -> Set<u64>
    decreases l,
{
    match l {
        TyList::Nil => Set::empty(),
        TyList::Cons(h, t) => generic_names(*h).union(generic_names_list(*t)),
    }
}

/// Adds the names of the generic parameters occurring in `t` to `names`.
pub fn collect_ty_generic_names(t: &Ty, names: &mut HashSet<u64>)
    ensures
        final(names)@ == old(names)@.union(generic_names(*t)),
    decreases t,
{
    broadcast use vstd::std_specs::hash::group_hash_axioms;

    let ghost s0 = names@;
    match t {
        Ty::Generic(n) => {
            names.insert(*n);
            assert(s0.insert(*n) =~= s0.union(set![*n]));
        },
        Ty::Pointer { inner, .. } => collect_ty_generic_names(inner, names),
        Ty::Array { elem, .. } => collect_ty_generic_names(elem, names),
        Ty::Slice { elem, .. } => collect_ty_generic_names(elem, names),
        Ty::Named { args, .. } => collect_list_generic_names(args, names),
        Ty::DynamicInterface { args, .. } => collect_list_generic_names(args, names),
        Ty::Function { ret, params, .. } => {
            collect_ty_generic_names(ret, names);
            collect_list_generic_names(params, names);
            assert(names@ =~= s0.union(generic_names(*t)));
        },
        Ty::Closure { ret, params, .. } => {
            collect_ty_generic_names(ret, names);
            collect_list_generic_names(params, names);
            assert(names@ =~= s0.union(generic_names(*t)));
        },
        Ty::ClosureInstance { ret, params, captures, .. } => {
            collect_ty_generic_names(ret, names);
            collect_list_generic_names(params, names);
            collect_list_generic_names(captures, names);
            assert(names@ =~= s0.union(generic_names(*t)));
        },
        Ty::GeneratedFuture { output, .. } => collect_ty_generic_names(output, names),
        _ => {
            assert(s0.union(Set::empty()) =~= s0);
        },
    }
}

/// Adds the names of the generic parameters occurring in the types of `l`
/// to `names`.
pub fn collect_list_generic_names(l: &TyList, names: &mut HashSet<u64>)
    ensures
        final(names)@ == old(names)@.union(generic_names_list(*l)),
    decreases l,
{
    let ghost s0 = names@;
    match l {
        TyList::Nil => {
            assert(s0.union(Set::empty()) =~= s0);
        },
        TyList::Cons(h, t) => {
            collect_ty_generic_names(h, names);
            collect_list_generic_names(t, names);
            assert(names@ =~= s0.union(generic_names_list(*l)));
        },
    }
}

/// The names of the generic parameters occurring in `t`.
pub fn ty_generic_names(t: &Ty) -> (r: HashSet<u64>)
    ensures
        r@ == generic_names(*t),
{
    let mut names: HashSet<u64> = HashSet::new();
    collect_ty_generic_names(t, &mut names);
    assert(Set::<u64>::empty().union(generic_names(*t)) =~= generic_names(*t));
    names
}

/// The receiver form of a value type: a pointer value stands for its
/// pointee; any other value for itself.
pub open spec fn receiver_of(t: Ty) -> Ty {
    match t {
        Ty::Pointer { inner, .. } => *inner,
        _ => t,
    }
}

/// The receiver form of a value type (see `receiver_of`).
pub fn receiver_ty_from_value_ty(t: &Ty) -> (r: Ty)
    ensures
        r == receiver_of(*t),
{
    match t {
        Ty::Pointer { inner, .. } => crate::ty::copy_ty(inner),
        _ => crate::ty::copy_ty(t),
    }
}

} // verus!
