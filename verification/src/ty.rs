//! The type language checked by the type checker.
//!
//! Names (of structs, generics, interfaces, fields, variants) are interned
//! identifiers.  Child lists are cons lists so that two types are equal exactly
//! when they are built the same way.
use vstd::prelude::*;

verus! {

/// Whether a pointer or slice view may be written through.
#[derive(Debug, Clone, Copy, PartialEq, Eq, Structural)]
pub enum ViewMutability {
    ReadOnly,
    Mutable,
}

/// The name of one entry of hidden future state carried by an opaque value.
#[derive(Debug, Clone, Copy, PartialEq, Eq, Structural)]
pub enum StateKey {
    /// state reached through a named struct field
    Field(u64),
    /// state reached through an array or slice element (`element N`)
    Element(u64),
    /// state reached through any element of an array or slice (`element *`)
    ElementAny,
    /// state taken from the argument at this position of a call
    Argument(u64),
    /// state of outside origin, named by the given label
    External(u64),
    /// state reached through a variant payload (`Variant#index`)
    Payload(u64, u64),
    /// state of the value itself
    Unnamed,
}

/// What a compiler-generated future was generated for.
#[derive(Debug, Clone, Copy, PartialEq, Eq, Structural)]
pub enum FutureOrigin {
    /// the body of an `async` function
    Function(u64),
    /// the body of an `async` closure instance
    Closure(u64),
    /// a timer future of the standard sleep operation
    Sleep,
}

#[derive(Debug, PartialEq)]
pub enum Ty {
    Void,
    Never,
    Bool,
    Char,
    I8,
    I16,
    I32,
    I64,
    U8,
    U16,
    U32,
    U64,
    Usize,
    Float32,
    Float64,
    Unknown,
    Hole(u64),
    Generic(u64),
    CSpelling(u64),
    Pointer { nullable: bool, mutability: ViewMutability, inner: Box<Ty> },
    Array { len: u64, elem: Box<Ty> },
    Slice { mutability: ViewMutability, elem: Box<Ty> },
    Named { name: u64, args: TyList },
    DynamicInterface { def_id: u64, args: TyList },
    Function { is_unsafe: bool, c_abi: bool, ret: Box<Ty>, params: TyList },
    Closure { ret: Box<Ty>, params: TyList, bounds: Bounds },
    ClosureInstance { id: u64, ret: Box<Ty>, params: TyList, captures: TyList },
    GeneratedFuture {
        origin: FutureOrigin,
        output: Box<Ty>,
        cancel_safe: bool,
        abortable: bool,
        affine_state: bool,
        state: StateList,
    },
    OpaqueReturn { def_id: u64, key_args: TyList, bounds: Bounds },
    OpaqueState { base: Box<Ty>, state: StateList },
}

#[derive(Debug, PartialEq)]
pub enum TyList {
    Nil,
    Cons(Box<Ty>, Box<TyList>),
}

#[derive(Debug, PartialEq)]
pub enum StateList {
    Nil,
    Cons(StateKey, Box<Ty>, Box<StateList>),
}

/// A list of capability references: interface definition and its arguments.
#[derive(Debug, PartialEq)]
pub enum CapList {
    Nil,
    Cons(u64, Box<TyList>, Box<CapList>),
}

/// Positive (required) and negative (forbidden) capability bounds.
#[derive(Debug, PartialEq)]
pub struct Bounds {
    pub positive: CapList,
    pub negative: CapList,
}

// ---------------------------------------------------------------------------
// List views
// ---------------------------------------------------------------------------

pub open spec fn tys_seq(l: TyList) -> Seq<Ty>
    decreases l,
{
    match l {
        TyList::Nil => Seq::empty(),
        TyList::Cons(h, t) => seq![*h].add(tys_seq(*t)),
    }
}

pub open spec fn tys_len(l: TyList) -> nat
    decreases l,
{
    match l {
        TyList::Nil => 0,
        TyList::Cons(_, t) => 1 + tys_len(*t),
    }
}

pub open spec fn tys_nth(l: TyList, n: nat) -> Option<Ty>
    decreases l,
{
    match l {
        TyList::Nil => None,
        TyList::Cons(h, t) => if n == 0 { Some(*h) } else { tys_nth(*t, (n - 1) as nat) },
    }
}

pub open spec fn tys_contains(l: TyList, ty: Ty) -> bool
    decreases l,
{
    match l {
        TyList::Nil => false,
        TyList::Cons(h, t) => *h == ty || tys_contains(*t, ty),
    }
}

// ---------------------------------------------------------------------------
// Exact copies
// ---------------------------------------------------------------------------

/// An exact copy of a type.
pub fn copy_ty(ty: &Ty) -> (r: Ty)
    ensures
        r == *ty,
    decreases ty,
{
    match ty {
        Ty::Void => Ty::Void,
        Ty::Never => Ty::Never,
        Ty::Bool => Ty::Bool,
        Ty::Char => Ty::Char,
        Ty::I8 => Ty::I8,
        Ty::I16 => Ty::I16,
        Ty::I32 => Ty::I32,
        Ty::I64 => Ty::I64,
        Ty::U8 => Ty::U8,
        Ty::U16 => Ty::U16,
        Ty::U32 => Ty::U32,
        Ty::U64 => Ty::U64,
        Ty::Usize => Ty::Usize,
        Ty::Float32 => Ty::Float32,
        Ty::Float64 => Ty::Float64,
        Ty::Unknown => Ty::Unknown,
        Ty::Hole(id) => Ty::Hole(*id),
        Ty::Generic(n) => Ty::Generic(*n),
        Ty::CSpelling(n) => Ty::CSpelling(*n),
        Ty::Pointer { nullable, mutability, inner } => Ty::Pointer {
            nullable: *nullable,
            mutability: *mutability,
            inner: Box::new(copy_ty(inner)),
        },
        Ty::Array { len, elem } => Ty::Array { len: *len, elem: Box::new(copy_ty(elem)) },
        Ty::Slice { mutability, elem } => Ty::Slice {
            mutability: *mutability,
            elem: Box::new(copy_ty(elem)),
        },
        Ty::Named { name, args } => Ty::Named { name: *name, args: copy_tys(args) },
        Ty::DynamicInterface { def_id, args } => Ty::DynamicInterface {
            def_id: *def_id,
            args: copy_tys(args),
        },
        Ty::Function { is_unsafe, c_abi, ret, params } => Ty::Function {
            is_unsafe: *is_unsafe,
            c_abi: *c_abi,
            ret: Box::new(copy_ty(ret)),
            params: copy_tys(params),
        },
        Ty::Closure { ret, params, bounds } => Ty::Closure {
            ret: Box::new(copy_ty(ret)),
            params: copy_tys(params),
            bounds: copy_bounds(bounds),
        },
        Ty::ClosureInstance { id, ret, params, captures } => Ty::ClosureInstance {
            id: *id,
            ret: Box::new(copy_ty(ret)),
            params: copy_tys(params),
            captures: copy_tys(captures),
        },
        Ty::GeneratedFuture { origin, output, cancel_safe, abortable, affine_state, state } =>
            Ty::GeneratedFuture {
            origin: *origin,
            output: Box::new(copy_ty(output)),
            cancel_safe: *cancel_safe,
            abortable: *abortable,
            affine_state: *affine_state,
            state: copy_state(state),
        },
        Ty::OpaqueReturn { def_id, key_args, bounds } => Ty::OpaqueReturn {
            def_id: *def_id,
            key_args: copy_tys(key_args),
            bounds: copy_bounds(bounds),
        },
        Ty::OpaqueState { base, state } => Ty::OpaqueState {
            base: Box::new(copy_ty(base)),
            state: copy_state(state),
        },
    }
}

/// An exact copy of a list of types.
pub fn copy_tys(l: &TyList) -> (r: TyList)
    ensures
        r == *l,
    decreases l,
{
    match l {
        TyList::Nil => TyList::Nil,
        TyList::Cons(h, t) => TyList::Cons(Box::new(copy_ty(h)), Box::new(copy_tys(t))),
    }
}

/// An exact copy of a hidden-state list.
pub fn copy_state(l: &StateList) -> (r: StateList)
    ensures
        r == *l,
    decreases l,
{
    match l {
        StateList::Nil => StateList::Nil,
        StateList::Cons(k, h, t) => StateList::Cons(
            *k,
            Box::new(copy_ty(h)),
            Box::new(copy_state(t)),
        ),
    }
}

/// An exact copy of a capability list.
pub fn copy_caps(l: &CapList) -> (r: CapList)
    ensures
        r == *l,
    decreases l,
{
    match l {
        CapList::Nil => CapList::Nil,
        CapList::Cons(d, a, t) => CapList::Cons(*d, Box::new(copy_tys(a)), Box::new(copy_caps(t))),
    }
}

/// An exact copy of capability bounds.
pub fn copy_bounds(b: &Bounds) -> (r: Bounds)
    ensures
        r == *b,
    decreases b,
{
    Bounds { positive: copy_caps(&b.positive), negative: copy_caps(&b.negative) }
}

// ---------------------------------------------------------------------------
// Structural equality
// ---------------------------------------------------------------------------

/// Whether two types are the same type.  (Generic parameters match by name,
/// aggregate types by name and arguments, and so on recursively.)
pub fn known_ty_matches(left: &Ty, right: &Ty) -> (r: bool)
    ensures
        r == (*left == *right),
    decreases left,
{
    match (left, right) {
        (Ty::Void, Ty::Void) => true,
        (Ty::Never, Ty::Never) => true,
        (Ty::Bool, Ty::Bool) => true,
        (Ty::Char, Ty::Char) => true,
        (Ty::I8, Ty::I8) => true,
        (Ty::I16, Ty::I16) => true,
        (Ty::I32, Ty::I32) => true,
        (Ty::I64, Ty::I64) => true,
        (Ty::U8, Ty::U8) => true,
        (Ty::U16, Ty::U16) => true,
        (Ty::U32, Ty::U32) => true,
        (Ty::U64, Ty::U64) => true,
        (Ty::Usize, Ty::Usize) => true,
        (Ty::Float32, Ty::Float32) => true,
        (Ty::Float64, Ty::Float64) => true,
        (Ty::Unknown, Ty::Unknown) => true,
        (Ty::Hole(a), Ty::Hole(b)) => *a == *b,
        (Ty::Generic(a), Ty::Generic(b)) => *a == *b,
        (Ty::CSpelling(a), Ty::CSpelling(b)) => *a == *b,
        (
            Ty::Pointer { nullable: n1, mutability: m1, inner: i1 },
            Ty::Pointer { nullable: n2, mutability: m2, inner: i2 },
        ) => *n1 == *n2 && *m1 == *m2 && known_ty_matches(i1, i2),
        (Ty::Array { len: l1, elem: e1 }, Ty::Array { len: l2, elem: e2 }) => *l1 == *l2
            && known_ty_matches(e1, e2),
        (Ty::Slice { mutability: m1, elem: e1 }, Ty::Slice { mutability: m2, elem: e2 }) => *m1
            == *m2 && known_ty_matches(e1, e2),
        (Ty::Named { name: n1, args: a1 }, Ty::Named { name: n2, args: a2 }) => *n1 == *n2
            && tys_match(a1, a2),
        (
            Ty::DynamicInterface { def_id: d1, args: a1 },
            Ty::DynamicInterface { def_id: d2, args: a2 },
        ) => *d1 == *d2 && tys_match(a1, a2),
        (
            Ty::Function { is_unsafe: u1, c_abi: c1, ret: r1, params: p1 },
            Ty::Function { is_unsafe: u2, c_abi: c2, ret: r2, params: p2 },
        ) => *u1 == *u2 && *c1 == *c2 && known_ty_matches(r1, r2) && tys_match(p1, p2),
        (
            Ty::Closure { ret: r1, params: p1, bounds: b1 },
            Ty::Closure { ret: r2, params: p2, bounds: b2 },
        ) => known_ty_matches(r1, r2) && tys_match(p1, p2) && bounds_match(b1, b2),
        (
            Ty::ClosureInstance { id: i1, ret: r1, params: p1, captures: c1 },
            Ty::ClosureInstance { id: i2, ret: r2, params: p2, captures: c2 },
        ) => *i1 == *i2 && known_ty_matches(r1, r2) && tys_match(p1, p2) && tys_match(c1, c2),
        (
            Ty::GeneratedFuture {
                origin: i1,
                output: o1,
                cancel_safe: c1,
                abortable: a1,
                affine_state: f1,
                state: s1,
            },
            Ty::GeneratedFuture {
                origin: i2,
                output: o2,
                cancel_safe: c2,
                abortable: a2,
                affine_state: f2,
                state: s2,
            },
        ) => *i1 == *i2 && *c1 == *c2 && *a1 == *a2 && *f1 == *f2 && known_ty_matches(o1, o2) && states_match(
            s1,
            s2,
        ),
        (
            Ty::OpaqueReturn { def_id: d1, key_args: k1, bounds: b1 },
            Ty::OpaqueReturn { def_id: d2, key_args: k2, bounds: b2 },
        ) => *d1 == *d2 && tys_match(k1, k2) && bounds_match(b1, b2),
        (Ty::OpaqueState { base: b1, state: s1 }, Ty::OpaqueState { base: b2, state: s2 }) =>
            known_ty_matches(b1, b2) && states_match(s1, s2),
        _ => false,
    }
}

/// Whether two type lists are equal element by element.
pub fn tys_match(left: &TyList, right: &TyList) -> (r: bool)
    ensures
        r == (*left == *right),
    decreases left,
{
    match (left, right) {
        (TyList::Nil, TyList::Nil) => true,
        (TyList::Cons(h1, t1), TyList::Cons(h2, t2)) => known_ty_matches(h1, h2) && tys_match(
            t1,
            t2,
        ),
        _ => false,
    }
}

/// Whether two hidden-state lists are equal entry by entry.
pub fn states_match(left: &StateList, right: &StateList) -> (r: bool)
    ensures
        r == (*left == *right),
    decreases left,
{
    match (left, right) {
        (StateList::Nil, StateList::Nil) => true,
        (StateList::Cons(k1, h1, t1), StateList::Cons(k2, h2, t2)) => *k1 == *k2
            && known_ty_matches(h1, h2) && states_match(t1, t2),
        _ => false,
    }
}

/// Whether two capability lists are equal entry by entry.
pub fn caps_match(left: &CapList, right: &CapList) -> (r: bool)
    ensures
        r == (*left == *right),
    decreases left,
{
    match (left, right) {
        (CapList::Nil, CapList::Nil) => true,
        (CapList::Cons(d1, a1, t1), CapList::Cons(d2, a2, t2)) => *d1 == *d2 && tys_match(a1, a2)
            && caps_match(t1, t2),
        _ => false,
    }
}

/// Whether two capability bounds are equal.
pub fn bounds_match(left: &Bounds, right: &Bounds) -> (r: bool)
    ensures
        r == (*left == *right),
    decreases left,
{
    caps_match(&left.positive, &right.positive) && caps_match(&left.negative, &right.negative)
}

} // verus!
