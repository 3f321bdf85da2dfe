//! Task boundaries: which values may be sent to another task, moved into a
//! spawned future, or kept across suspension points, and why not.
use vstd::prelude::*;
use crate::affine::{affine, is_resource_handle};
use crate::asyncty::{enum_instance_index, is_message, one};
use crate::capability::{cons, has_impl, implements};
use crate::checker::{generic_names, FieldInfo, GenericInfo, Program, StdDefs, TypeChecker, VariantInfo};
use crate::generic::{subst_list, subst_ty, substitute_list, substitute_ty, Binding};
use crate::lookup::{struct_instance_index, template_of};
use crate::opaque::lowered;
use crate::props::{contains_generic, contains_type_hole, has_generic, has_hole, is_erased_ty};
use crate::ty::{copy_ty, known_ty_matches, tys_len, StateKey, StateList, Ty, TyList, ViewMutability};

verus! {

/// How named types nested deeper than this are treated: as recursive.
pub const BOUNDARY_NESTING_LIMIT: u64 = 1024;

/// One step of the path from the checked value to an offending part.
#[derive(Debug, Clone, Copy, PartialEq, Eq, Structural)]
pub enum PathStep {
    /// the value being checked, named by the caller
    Root(u64),
    /// an entry of hidden future state
    State(StateKey),
    /// a member of a struct or enum value: a field, or a variant payload
    Member(StateKey),
    /// an element of an array
    Element,
}

/// Why a part of a value may not cross a task boundary.
#[derive(Debug, PartialEq)]
pub enum BoundaryReason {
    /// opaque future state without a proven `Message` boundary
    OpaqueFutureState,
    /// the type is recursive through `ty`
    Recursive { ty: Ty },
    /// a downcastable erased error, which is local to its task
    DowncastableError,
    /// a thread-local type
    ThreadLocal { ty: Ty },
    /// a resource without an ownership-transfer policy
    AffineWithoutTransferPolicy { ty: Ty },
    /// a resource without a `Message` policy
    AffineWithoutMessagePolicy { ty: Ty },
    /// a generic or not yet inferred type without a proven `Message` boundary
    GenericWithoutMessage { ty: Ty },
    /// an opaque C spelling type
    CSpelling { ty: Ty },
    /// a raw pointer
    RawPointer { ty: Ty, nullable: bool },
    /// a borrowed slice
    BorrowedSlice { ty: Ty, mutable: bool },
    /// a fixed-size array without a `Message` capability
    ArrayWithoutMessage { ty: Ty },
    /// a struct without a `Message` capability
    StructWithoutMessage { ty: Ty },
    /// an enum without a `Message` capability
    EnumWithoutMessage { ty: Ty },
    /// a nominal type that is neither a known struct nor a known enum
    NominalWithoutMessage { ty: Ty },
    /// a dynamic interface value
    DynamicInterface { ty: Ty },
    /// an opaque return value
    OpaqueReturn { ty: Ty },
    /// a function pointer
    FunctionPointer { ty: Ty },
    /// a closure value
    Closure { ty: Ty },
}

/// A part of a value that may not cross a task boundary, and why.
#[derive(Debug, PartialEq)]
pub struct BoundaryViolation {
    pub path: Vec<PathStep>,
    pub reason: BoundaryReason,
}

pub open spec fn violation_view(r: Option<BoundaryViolation>) -> Option<(Seq<PathStep>, BoundaryReason)> {
    match r {
        Some(v) => Some((v.path@, v.reason)),
        None => None,
    }
}

pub open spec fn is_future_state_marker(std: StdDefs, t: Ty) -> bool {
    match t {
        Ty::Named { name, .. } => std.future_state_marker == Some(name),
        _ => false,
    }
}

/// The standard downcastable erased error type.
pub open spec fn is_std_error_ty(std: StdDefs, t: Ty) -> bool {
    match t {
        Ty::Named { name, args } => args is Nil && std.dyn_error_struct == Some(name),
        _ => false,
    }
}

/// The standard future type `Future<Out>`.
pub open spec fn is_std_future(std: StdDefs, t: Ty) -> bool {
    match t {
        Ty::Named { name, args } => std.future_struct == Some(name) && match args {
            TyList::Cons(_, rest) => *rest is Nil,
            TyList::Nil => false,
        },
        _ => false,
    }
}

/// Whether a value of the type carries hidden future state.
pub open spec fn has_hidden_state(t: Ty) -> bool {
    t is OpaqueState
}

pub open spec fn thread_local(p: Program, t: Ty) -> bool {
    match p.std.thread_local {
        Some(d) => has_impl(p, d, cons(t, TyList::Nil)),
        None => false,
    }
}

pub open spec fn frame_opt_in(tc: TypeChecker, t: Ty) -> bool {
    match tc.program.std.async_frame_opt_in {
        Some(d) => implements(tc, d, TyList::Nil, t),
        None => false,
    }
}

/// Whether the type's meta representation `Repr<T>` is a message: the type
/// is cloneable structure by structure.
pub open spec fn structural_clone(tc: TypeChecker, t: Ty) -> bool {
    match tc.program.std.meta_repr_marker {
        Some(m) => is_message(tc, Ty::Named { name: m, args: one(t) }),
        None => false,
    }
}

/// Binds each generic parameter to the argument in the same position.
pub open spec fn bindings_of(generics: Seq<u64>, args: TyList) -> Seq<Binding>
    decreases args,
{
    match args {
        TyList::Nil => Seq::empty(),
        TyList::Cons(h, t) => if generics.len() == 0 {
            Seq::empty()
        } else {
            seq![Binding { name: generics[0], ty: *h }] + bindings_of(generics.drop_first(), *t)
        },
    }
}

pub open spec fn fields_items(fs: Seq<FieldInfo>) -> Seq<(StateKey, Ty)> {
    Seq::new(fs.len(), |i: int| (StateKey::Field(fs[i].name), fs[i].ty))
}

pub open spec fn fields_items_subst(fs: Seq<FieldInfo>, b: Seq<Binding>) -> Seq<(StateKey, Ty)> {
    Seq::new(fs.len(), |i: int| (StateKey::Field(fs[i].name), subst_ty(fs[i].ty, b)))
}

pub open spec fn next_index(i: u64) -> u64 {
    if i == u64::MAX {
        0
    } else {
        (i + 1) as u64
    }
}

pub open spec fn payload_items(v: u64, l: TyList, idx: u64) -> Seq<(StateKey, Ty)>
    decreases l,
{
    match l {
        TyList::Nil => Seq::empty(),
        TyList::Cons(h, t) => seq![(StateKey::Payload(v, idx), *h)] + payload_items(v, *t, next_index(idx)),
    }
}

/// The payloads of all variants, in order, each keyed by its variant and
/// position; with `Some(b)`, the payload types are substituted by `b`.
pub open spec fn variants_items(vs: Seq<VariantInfo>, b: Option<Seq<Binding>>) -> Seq<(StateKey, Ty)>
    decreases vs.len(),
{
    if vs.len() == 0 {
        Seq::empty()
    } else {
        let v = vs.last();
        variants_items(vs.drop_last(), b) + payload_items(
            v.name,
            match b {
                Some(b) => subst_list(v.payload, b),
                None => v.payload,
            },
            0,
        )
    }
}

pub open spec fn enum_template_index(p: Program, name: u64) -> Option<int> {
    if exists|i: int| 0 <= i < p.enum_templates@.len() && (#[trigger] p.enum_templates@[i]).name == name {
        Some(
            choose|i: int|
                0 <= i < p.enum_templates@.len() && (#[trigger] p.enum_templates@[i]).name == name
                    && forall|j: int| 0 <= j < i ==> (#[trigger] p.enum_templates@[j]).name != name,
        )
    } else {
        None
    }
}

/// The fields of struct `name<args>`: those of its checked instance, or
/// those of its generic declaration with the arguments substituted.
pub open spec fn struct_members(p: Program, name: u64, args: TyList) -> Option<Seq<(StateKey, Ty)>> {
    match struct_instance_index(p, name, args) {
        Some(i) => Some(fields_items(p.structs@[i].fields@)),
        None => match template_of(p, name) {
            Some(tpl) => if tpl.generics@.len() == tys_len(args) {
                Some(fields_items_subst(tpl.fields@, bindings_of(generic_names(tpl.generics@), args)))
            } else {
                None
            },
            None => None,
        },
    }
}

/// The variant payloads of enum `name<args>`: those of its checked
/// instance, or those of its generic declaration with the arguments
/// substituted.
pub open spec fn enum_members(p: Program, name: u64, args: TyList) -> Option<Seq<(StateKey, Ty)>> {
    match enum_instance_index(p, name, args) {
        Some(i) => Some(variants_items(p.enums@[i].variants@, None)),
        None => match enum_template_index(p, name) {
            Some(i) => {
                let tpl = p.enum_templates@[i];
                if tpl.generics@.len() == tys_len(args) {
                    Some(variants_items(tpl.variants@, Some(bindings_of(tpl.generics@, args))))
                } else {
                    None
                }
            },
            None => None,
        },
    }
}

/// The first part of a value of type `t` (reached by `path`) that may not
/// be sent to another task.  `visiting` holds the enclosing types being
/// examined; `allow_affine_move` admits resources with an
/// ownership-transfer policy and generated futures themselves (their state
/// is still examined).  Named types nested deeper than `fuel` are reported
/// as recursive.
pub open spec fn boundary_violation(
    tc: TypeChecker,
    t: Ty,
    path: Seq<PathStep>,
    visiting: Seq<Ty>,
    allow_affine_move: bool,
    fuel: nat,
) -> Option<(Seq<PathStep>, BoundaryReason)>
    decreases fuel, t, 2nat,
{
    if is_erased_ty(t) {
        None
    } else if is_future_state_marker(tc.program.std, t) {
        Some((path, BoundaryReason::OpaqueFutureState))
    } else {
        match t {
            Ty::OpaqueState { base, state } => {
                let from_base = if allow_affine_move {
                    None
                } else {
                    boundary_violation(tc, *base, path, visiting, false, fuel)
                };
                if from_base is Some {
                    from_base
                } else if visiting.contains(t) {
                    Some((path, BoundaryReason::Recursive { ty: t }))
                } else {
                    state_violation(tc, state, path, visiting.push(t), allow_affine_move, fuel)
                }
            },
            _ => if is_message(tc, t) {
                None
            } else if is_std_error_ty(tc.program.std, t) {
                Some((path, BoundaryReason::DowncastableError))
            } else if t is OpaqueReturn && lowered(tc, t) != t {
                if fuel == 0 {
                    Some((path, BoundaryReason::Recursive { ty: t }))
                } else {
                    boundary_violation(tc, lowered(tc, t), path, visiting, allow_affine_move, (fuel - 1) as nat)
                }
            } else if thread_local(tc.program, t) {
                Some((path, BoundaryReason::ThreadLocal { ty: t }))
            } else if affine(tc, t) && !(allow_affine_move && t is GeneratedFuture) {
                if allow_affine_move {
                    if affine_move_allowed(tc, t, Seq::empty(), fuel) {
                        None
                    } else {
                        Some((path, BoundaryReason::AffineWithoutTransferPolicy { ty: t }))
                    }
                } else {
                    Some((path, BoundaryReason::AffineWithoutMessagePolicy { ty: t }))
                }
            } else {
                shape_violation(tc, t, path, visiting, allow_affine_move, fuel)
            },
        }
    }
}

/// The part of `boundary_violation` that goes by the shape of the type.
pub open spec fn shape_violation(
    tc: TypeChecker,
    t: Ty,
    path: Seq<PathStep>,
    visiting: Seq<Ty>,
    allow_affine_move: bool,
    fuel: nat,
) -> Option<(Seq<PathStep>, BoundaryReason)>
    decreases fuel, t, 1nat,
{
    if !(allow_affine_move && t is GeneratedFuture) && (has_generic(t) || has_hole(t)) {
        Some((path, BoundaryReason::GenericWithoutMessage { ty: t }))
    } else {
        match t {
            Ty::CSpelling(_) => Some((path, BoundaryReason::CSpelling { ty: t })),
            Ty::Pointer { nullable, .. } => Some((path, BoundaryReason::RawPointer { ty: t, nullable })),
            Ty::Slice { mutability, .. } => Some(
                (path, BoundaryReason::BorrowedSlice { ty: t, mutable: mutability == ViewMutability::Mutable }),
            ),
            Ty::Array { elem, .. } => match boundary_violation(
                tc,
                *elem,
                path.push(PathStep::Element),
                visiting,
                allow_affine_move,
                fuel,
            ) {
                Some(r) => Some(r),
                None => if structural_clone(tc, t) {
                    None
                } else {
                    Some((path, BoundaryReason::ArrayWithoutMessage { ty: t }))
                },
            },
            Ty::GeneratedFuture { state, .. } => if visiting.contains(t) {
                Some((path, BoundaryReason::Recursive { ty: t }))
            } else {
                state_violation(tc, state, path, visiting.push(t), allow_affine_move, fuel)
            },
            Ty::Named { name, args } => if visiting.contains(t) || fuel == 0 {
                Some((path, BoundaryReason::Recursive { ty: t }))
            } else {
                match struct_members(tc.program, name, args) {
                    Some(items) => match members_violation(
                        tc,
                        items,
                        path,
                        visiting.push(t),
                        allow_affine_move,
                        (fuel - 1) as nat,
                    ) {
                        Some(r) => Some(r),
                        None => if structural_clone(tc, t) {
                            None
                        } else {
                            Some((path, BoundaryReason::StructWithoutMessage { ty: t }))
                        },
                    },
                    None => match enum_members(tc.program, name, args) {
                        Some(items) => match members_violation(
                            tc,
                            items,
                            path,
                            visiting.push(t),
                            allow_affine_move,
                            (fuel - 1) as nat,
                        ) {
                            Some(r) => Some(r),
                            None => if structural_clone(tc, t) {
                                None
                            } else {
                                Some((path, BoundaryReason::EnumWithoutMessage { ty: t }))
                            },
                        },
                        None => Some((path, BoundaryReason::NominalWithoutMessage { ty: t })),
                    },
                }
            },
            Ty::DynamicInterface { .. } => Some((path, BoundaryReason::DynamicInterface { ty: t })),
            Ty::OpaqueReturn { .. } => Some((path, BoundaryReason::OpaqueReturn { ty: t })),
            Ty::Function { .. } => Some((path, BoundaryReason::FunctionPointer { ty: t })),
            Ty::Closure { .. } => Some((path, BoundaryReason::Closure { ty: t })),
            Ty::ClosureInstance { .. } => Some((path, BoundaryReason::Closure { ty: t })),
            Ty::Generic(_) => Some((path, BoundaryReason::GenericWithoutMessage { ty: t })),
            _ => None,
        }
    }
}

pub open spec fn state_violation(
    tc: TypeChecker,
    s: StateList,
    path: Seq<PathStep>,
    visiting: Seq<Ty>,
    allow_affine_move: bool,
    fuel: nat,
) -> Option<(Seq<PathStep>, BoundaryReason)>
    decreases fuel, s, 0nat,
{
    match s {
        StateList::Nil => None,
        StateList::Cons(k, ty, rest) => match boundary_violation(
            tc,
            *ty,
            path.push(PathStep::State(k)),
            visiting,
            allow_affine_move,
            fuel,
        ) {
            Some(r) => Some(r),
            None => state_violation(tc, *rest, path, visiting, allow_affine_move, fuel),
        },
    }
}

pub open spec fn members_violation(
    tc: TypeChecker,
    items: Seq<(StateKey, Ty)>,
    path: Seq<PathStep>,
    visiting: Seq<Ty>,
    allow_affine_move: bool,
    fuel: nat,
) -> Option<(Seq<PathStep>, BoundaryReason)>
    decreases fuel, items, 0nat,
{
    if items.len() == 0 {
        None
    } else {
        proof {
            assert(decreases_to!(items => items[0]));
        }
        match boundary_violation(
            tc,
            items[0].1,
            path.push(PathStep::Member(items[0].0)),
            visiting,
            allow_affine_move,
            fuel,
        ) {
            Some(r) => Some(r),
            None => members_violation(
                tc,
                items.subrange(1, items.len() as int),
                path,
                visiting,
                allow_affine_move,
                fuel,
            ),
        }
    }
}

/// Whether a resource of type `t` may be moved into another task: it is a
/// resource handle, opts in to async frames, or is built only of parts that
/// may be moved or sent.
pub open spec fn affine_move_allowed(tc: TypeChecker, t: Ty, visiting: Seq<Ty>, fuel: nat) -> bool
    decreases fuel, t, 0nat,
{
    if is_erased_ty(t) || is_resource_handle(tc.program, t) || frame_opt_in(tc, t) {
        true
    } else {
        match t {
            Ty::Array { elem, .. } => affine_move_allowed(tc, *elem, visiting, fuel),
            Ty::OpaqueState { base, state } => (!affine(tc, *base) || affine_move_allowed(
                tc,
                *base,
                visiting,
                fuel,
            )) && state_move_allowed(tc, state, visiting, fuel),
            Ty::OpaqueReturn { .. } => lowered(tc, t) != t && fuel > 0 && affine_move_allowed(
                tc,
                lowered(tc, t),
                visiting,
                (fuel - 1) as nat,
            ),
            Ty::Named { name, args } => if is_std_future(tc.program.std, t) || visiting.contains(t) || fuel
                == 0 {
                false
            } else {
                (match struct_members(tc.program, name, args) {
                    Some(items) => members_move_allowed(tc, items, visiting.push(t), (fuel - 1) as nat),
                    None => false,
                }) || (match enum_members(tc.program, name, args) {
                    Some(items) => members_move_allowed(tc, items, visiting.push(t), (fuel - 1) as nat),
                    None => false,
                })
            },
            _ => false,
        }
    }
}

/// Whether a part of a future's state may be moved into another task: a
/// resource by `affine_move_allowed`, anything else by being sendable.
pub open spec fn component_move_allowed(tc: TypeChecker, t: Ty, visiting: Seq<Ty>, fuel: nat) -> bool
    decreases fuel, t, 3nat,
{
    if affine(tc, t) {
        affine_move_allowed(tc, t, visiting, fuel)
    } else {
        boundary_violation(tc, t, Seq::empty(), Seq::empty(), false, fuel) is None
    }
}

pub open spec fn state_move_allowed(tc: TypeChecker, s: StateList, visiting: Seq<Ty>, fuel: nat) -> bool
    decreases fuel, s, 0nat,
{
    match s {
        StateList::Nil => true,
        StateList::Cons(_, ty, rest) => component_move_allowed(tc, *ty, visiting, fuel) && state_move_allowed(
            tc,
            *rest,
            visiting,
            fuel,
        ),
    }
}

pub open spec fn members_move_allowed(
    tc: TypeChecker,
    items: Seq<(StateKey, Ty)>,
    visiting: Seq<Ty>,
    fuel: nat,
) -> bool
    decreases fuel, items, 0nat,
{
    if items.len() == 0 {
        true
    } else {
        proof {
            assert(decreases_to!(items => items[0]));
        }
        component_move_allowed(tc, items[0].1, visiting, fuel) && members_move_allowed(
            tc,
            items.subrange(1, items.len() as int),
            visiting,
            fuel,
        )
    }
}

/// The first part of a future's state (of type `t`, reached by `path`) that
/// may not be kept across a task boundary.
pub open spec fn escape_violation(
    tc: TypeChecker,
    t: Ty,
    path: Seq<PathStep>,
    visiting: Seq<Ty>,
    fuel: nat,
) -> Option<(Seq<PathStep>, BoundaryReason)>
    decreases t, 1nat,
{
    if is_erased_ty(t) || is_future_state_marker(tc.program.std, t) || frame_opt_in(tc, t) {
        None
    } else {
        match t {
            Ty::OpaqueState { state, .. } => if visiting.contains(t) {
                Some((path, BoundaryReason::Recursive { ty: t }))
            } else {
                escape_state_violation(tc, state, path, visiting.push(t), fuel)
            },
            Ty::GeneratedFuture { state, .. } => if visiting.contains(t) {
                Some((path, BoundaryReason::Recursive { ty: t }))
            } else {
                escape_state_violation(tc, state, path, visiting.push(t), fuel)
            },
            _ => boundary_violation(tc, t, path, visiting, true, fuel),
        }
    }
}

pub open spec fn escape_state_violation(
    tc: TypeChecker,
    s: StateList,
    path: Seq<PathStep>,
    visiting: Seq<Ty>,
    fuel: nat,
) -> Option<(Seq<PathStep>, BoundaryReason)>
    decreases s, 0nat,
{
    match s {
        StateList::Nil => None,
        StateList::Cons(k, ty, rest) => match escape_violation(tc, *ty, path.push(PathStep::State(k)), visiting, fuel) {
            Some(r) => Some(r),
            None => escape_state_violation(tc, *rest, path, visiting, fuel),
        },
    }
}

/// Whether `t` occurs in `v`.
pub fn contains_ty(v: &Vec<Ty>, t: &Ty) -> (r: bool)
    ensures
        r == v@.contains(*t),
{
    let mut i: usize = 0;
    while i < v.len()
        invariant
            i <= v@.len(),
            forall|j: int| 0 <= j < i ==> v@[j] != *t,
        decreases v@.len() - i,
    {
        if known_ty_matches(&v[i], t) {
            assert(v@[i as int] == *t);
            return true;
        }
        i += 1;
    }
    false
}

pub(crate) fn copy_path(path: &Vec<PathStep>) -> (r: Vec<PathStep>)
    ensures
        r@ == path@,
{
    let mut out: Vec<PathStep> = Vec::new();
    let mut i: usize = 0;
    while i < path.len()
        invariant
            i <= path@.len(),
            out@ =~= path@.subrange(0, i as int),
        decreases path@.len() - i,
    {
        out.push(path[i]);
        i += 1;
    }
    assert(out@ =~= path@);
    out
}

pub(crate) fn pushed_path(path: &Vec<PathStep>, step: PathStep) -> (r: Vec<PathStep>)
    ensures
        r@ == path@.push(step),
{
    let mut out = copy_path(path);
    out.push(step);
    out
}

pub(crate) fn pushed_tys(v: &Vec<Ty>, t: &Ty) -> (r: Vec<Ty>)
    ensures
        r@ == v@.push(*t),
{
    let mut out: Vec<Ty> = Vec::new();
    let mut i: usize = 0;
    while i < v.len()
        invariant
            i <= v@.len(),
            out@ =~= v@.subrange(0, i as int),
        decreases v@.len() - i,
    {
        out.push(copy_ty(&v[i]));
        i += 1;
    }
    out.push(copy_ty(t));
    assert(out@ =~= v@.push(*t));
    out
}

fn found(path: &Vec<PathStep>, reason: BoundaryReason) -> (r: Option<BoundaryViolation>)
    ensures
        violation_view(r) == Some((path@, reason)),
{
    Some(BoundaryViolation { path: copy_path(path), reason })
}

fn is_future_state_marker_exec(std: &StdDefs, t: &Ty) -> (r: bool)
    ensures
        r == is_future_state_marker(*std, *t),
{
    match t {
        Ty::Named { name, .. } => match std.future_state_marker {
            Some(m) => m == *name,
            None => false,
        },
        _ => false,
    }
}

fn is_std_error_ty_exec(std: &StdDefs, t: &Ty) -> (r: bool)
    ensures
        r == is_std_error_ty(*std, *t),
{
    match t {
        Ty::Named { name, args: TyList::Nil } => match std.dyn_error_struct {
            Some(m) => m == *name,
            None => false,
        },
        _ => false,
    }
}

pub(crate) fn is_std_future_exec(std: &StdDefs, t: &Ty) -> (r: bool)
    ensures
        r == is_std_future(*std, *t),
{
    match t {
        Ty::Named { name, args: TyList::Cons(_, rest) } => match std.future_struct {
            Some(m) => m == *name && match **rest {
                TyList::Nil => true,
                _ => false,
            },
            None => false,
        },
        _ => false,
    }
}

/// Binds each generic parameter from position `gi` on to the argument in
/// the same position of `args`, after the bindings already in `out`.
fn push_bindings(generics: &Vec<u64>, gi: usize, args: &TyList, out: &mut Vec<Binding>)
    requires
        gi <= generics@.len(),
    ensures
        final(out)@ == old(out)@ + bindings_of(generics@.subrange(gi as int, generics@.len() as int), *args),
    decreases args,
{
    let ghost g = generics@.subrange(gi as int, generics@.len() as int);
    match args {
        TyList::Nil => {
            assert(old(out)@ + bindings_of(g, *args) =~= old(out)@);
        },
        TyList::Cons(h, t) => {
            if gi == generics.len() {
                assert(g.len() == 0);
                assert(old(out)@ + bindings_of(g, *args) =~= old(out)@);
            } else {
                out.push(Binding { name: generics[gi], ty: copy_ty(h) });
                push_bindings(generics, gi + 1, t, out);
                assert(g.drop_first() =~= generics@.subrange(gi + 1, generics@.len() as int));
                assert(final(out)@ =~= old(out)@ + bindings_of(g, *args));
            }
        },
    }
}

pub(crate) fn bindings_for(generics: &Vec<u64>, args: &TyList) -> (r: Vec<Binding>)
    ensures
        r@ == bindings_of(generics@, *args),
{
    let mut out: Vec<Binding> = Vec::new();
    push_bindings(generics, 0, args, &mut out);
    assert(generics@.subrange(0, generics@.len() as int) =~= generics@);
    assert(out@ =~= bindings_of(generics@, *args));
    out
}

/// The names of generic parameters, in order.
pub(crate) fn generic_name_vec(g: &Vec<GenericInfo>) -> (r: Vec<u64>)
    ensures
        r@ == generic_names(g@),
{
    let mut r: Vec<u64> = Vec::new();
    let mut i: usize = 0;
    while i < g.len()
        invariant
            i <= g.len(),
            r@ =~= generic_names(g@.subrange(0, i as int)),
        decreases g.len() - i,
    {
        r.push(g[i].name);
        i += 1;
        assert(r@ =~= generic_names(g@.subrange(0, i as int)));
    }
    assert(g@.subrange(0, g.len() as int) =~= g@);
    r
}

/// Whether the list has exactly `n` elements.
pub(crate) fn list_len_is(l: &TyList, n: usize) -> (r: bool)
    ensures
        r == (tys_len(*l) == n),
    decreases l,
{
    match l {
        TyList::Nil => n == 0,
        TyList::Cons(_, t) => if n == 0 {
            false
        } else {
            list_len_is(t, n - 1)
        },
    }
}

pub(crate) fn push_field_items(fs: &Vec<FieldInfo>, b: Option<&Vec<Binding>>) -> (r: Vec<(StateKey, Ty)>)
    ensures
        r@ == match b {
            Some(b) => fields_items_subst(fs@, b@),
            None => fields_items(fs@),
        },
{
    let ghost want = match b {
        Some(b) => fields_items_subst(fs@, b@),
        None => fields_items(fs@),
    };
    let mut out: Vec<(StateKey, Ty)> = Vec::new();
    let mut i: usize = 0;
    while i < fs.len()
        invariant
            i <= fs@.len(),
            want.len() == fs@.len(),
            want == match b {
                Some(b) => fields_items_subst(fs@, b@),
                None => fields_items(fs@),
            },
            out@ =~= want.subrange(0, i as int),
        decreases fs@.len() - i,
    {
        let ty = match b {
            Some(b) => substitute_ty(&fs[i].ty, b),
            None => copy_ty(&fs[i].ty),
        };
        out.push((StateKey::Field(fs[i].name), ty));
        i += 1;
    }
    assert(out@ =~= want);
    out
}

pub(crate) fn push_payload_items(v: u64, l: &TyList, idx: u64, out: &mut Vec<(StateKey, Ty)>)
    ensures
        final(out)@ == old(out)@ + payload_items(v, *l, idx),
    decreases l,
{
    match l {
        TyList::Nil => {
            assert(final(out)@ =~= old(out)@ + payload_items(v, *l, idx));
        },
        TyList::Cons(h, t) => {
            out.push((StateKey::Payload(v, idx), copy_ty(h)));
            let next = if idx == u64::MAX {
                0
            } else {
                idx + 1
            };
            push_payload_items(v, t, next, out);
            assert(final(out)@ =~= old(out)@ + payload_items(v, *l, idx));
        },
    }
}

pub(crate) fn variant_items(vs: &Vec<VariantInfo>, b: Option<&Vec<Binding>>) -> (r: Vec<(StateKey, Ty)>)
    ensures
        r@ == variants_items(
            vs@,
            match b {
                Some(b) => Some(b@),
                None => None,
            },
        ),
{
    let ghost bb = match b {
        Some(b) => Some(b@),
        None => None,
    };
    let mut out: Vec<(StateKey, Ty)> = Vec::new();
    let mut i: usize = 0;
    assert(vs@.subrange(0, 0) =~= Seq::<VariantInfo>::empty());
    while i < vs.len()
        invariant
            i <= vs@.len(),
            bb == match b {
                Some(b) => Some(b@),
                None => None,
            },
            out@ == variants_items(vs@.subrange(0, i as int), bb),
        decreases vs@.len() - i,
    {
        let payload = match b {
            Some(b) => substitute_list(&vs[i].payload, b),
            None => crate::ty::copy_tys(&vs[i].payload),
        };
        push_payload_items(vs[i].name, &payload, 0, &mut out);
        proof {
            let pre = vs@.subrange(0, i + 1);
            assert(pre.drop_last() =~= vs@.subrange(0, i as int));
            assert(pre.last() == vs@[i as int]);
        }
        i += 1;
    }
    assert(vs@.subrange(0, vs@.len() as int) =~= vs@);
    out
}

pub open spec fn items_view(r: Option<Vec<(StateKey, Ty)>>) -> Option<Seq<(StateKey, Ty)>> {
    match r {
        Some(v) => Some(v@),
        None => None,
    }
}

impl TypeChecker {
    pub(crate) fn find_enum_template(&self, name: u64) -> (r: Option<usize>)
        ensures
            r matches Some(i) ==> enum_template_index(self.program, name) == Some(i as int) && i
                < self.program.enum_templates@.len(),
            r is None ==> enum_template_index(self.program, name) is None,
    {
        let mut i: usize = 0;
        while i < self.program.enum_templates.len()
            invariant
                i <= self.program.enum_templates@.len(),
                forall|j: int| 0 <= j < i ==> (#[trigger] self.program.enum_templates@[j]).name != name,
            decreases self.program.enum_templates@.len() - i,
        {
            if self.program.enum_templates[i].name == name {
                proof {
                    let k = enum_template_index(self.program, name)->0;
                    if k < i {
                        assert(self.program.enum_templates@[k].name != name);
                    }
                    if k > i {
                        assert(self.program.enum_templates@[i as int].name != name);
                    }
                }
                return Some(i);
            }
            i += 1;
        }
        None
    }

    pub(crate) fn struct_member_items(&self, name: u64, args: &TyList) -> (r: Option<Vec<(StateKey, Ty)>>)
        ensures
            items_view(r) == struct_members(self.program, name, *args),
    {
        match self.find_struct_instance(name, args) {
            Some(i) => Some(push_field_items(&self.program.structs[i].fields, None)),
            None => match self.find_struct_template(name) {
                Some(i) => {
                    let tpl = &self.program.struct_templates[i];
                    if list_len_is(args, tpl.generics.len()) {
                        let names = generic_name_vec(&tpl.generics);
                        let b = bindings_for(&names, args);
                        Some(push_field_items(&tpl.fields, Some(&b)))
                    } else {
                        None
                    }
                },
                None => None,
            },
        }
    }

    pub(crate) fn enum_member_items(&self, name: u64, args: &TyList) -> (r: Option<Vec<(StateKey, Ty)>>)
        ensures
            items_view(r) == enum_members(self.program, name, *args),
    {
        let named = Ty::Named { name, args: crate::ty::copy_tys(args) };
        match self.find_enum_of(&named) {
            Some(i) => Some(variant_items(&self.program.enums[i].variants, None)),
            None => match self.find_enum_template(name) {
                Some(i) => {
                    let tpl = &self.program.enum_templates[i];
                    if list_len_is(args, tpl.generics.len()) {
                        let b = bindings_for(&tpl.generics, args);
                        Some(variant_items(&tpl.variants, Some(&b)))
                    } else {
                        None
                    }
                },
                None => None,
            },
        }
    }

    fn is_message_now(&self, t: &Ty) -> (r: bool)
        ensures
            r == is_message(*self, *t),
    {
        if self.type_is_affine(t) {
            return false;
        }
        match self.program.std.message_clone {
            Some(d) => self.type_implements_capability_by_def_uncached(d, &TyList::Nil, t),
            None => false,
        }
    }

    fn frame_opt_in_now(&self, t: &Ty) -> (r: bool)
        ensures
            r == frame_opt_in(*self, *t),
    {
        match self.program.std.async_frame_opt_in {
            Some(d) => self.type_implements_capability_by_def_uncached(d, &TyList::Nil, t),
            None => false,
        }
    }

    fn structural_clone_now(&self, t: &Ty) -> (r: bool)
        ensures
            r == structural_clone(*self, *t),
    {
        match self.program.std.meta_repr_marker {
            Some(m) => {
                let marker = Ty::Named {
                    name: m,
                    args: TyList::Cons(Box::new(copy_ty(t)), Box::new(TyList::Nil)),
                };
                self.is_message_now(&marker)
            },
            None => false,
        }
    }

    fn violation_exec(
        &self,
        t: &Ty,
        path: &Vec<PathStep>,
        visiting: &Vec<Ty>,
        allow_affine_move: bool,
        fuel: u64,
    ) -> (r: Option<BoundaryViolation>)
        ensures
            violation_view(r) == boundary_violation(*self, *t, path@, visiting@, allow_affine_move, fuel as nat),
        decreases fuel, t, 2nat,
    {
        if t.is_erased_value() {
            return None;
        }
        if is_future_state_marker_exec(&self.program.std, t) {
            return found(path, BoundaryReason::OpaqueFutureState);
        }
        if let Ty::OpaqueState { base, state } = t {
            if !allow_affine_move {
                let from_base = self.violation_exec(base, path, visiting, false, fuel);
                if from_base.is_some() {
                    return from_base;
                }
            }
            if contains_ty(visiting, t) {
                return found(path, BoundaryReason::Recursive { ty: copy_ty(t) });
            }
            let inner = pushed_tys(visiting, t);
            return self.state_violation_exec(state, path, &inner, allow_affine_move, fuel);
        }
        if self.is_message_now(t) {
            return None;
        }
        if is_std_error_ty_exec(&self.program.std, t) {
            return found(path, BoundaryReason::DowncastableError);
        }
        if let Ty::OpaqueReturn { .. } = t {
            let concrete = self.lower_opaque_returns_in_ty(t);
            if !known_ty_matches(&concrete, t) {
                if fuel == 0 {
                    return found(path, BoundaryReason::Recursive { ty: copy_ty(t) });
                }
                return self.violation_exec(&concrete, path, visiting, allow_affine_move, fuel - 1);
            }
        }
        if self.type_implements_thread_local(t) {
            return found(path, BoundaryReason::ThreadLocal { ty: copy_ty(t) });
        }
        let is_future = match t {
            Ty::GeneratedFuture { .. } => true,
            _ => false,
        };
        if self.type_is_affine(t) && !(allow_affine_move && is_future) {
            if allow_affine_move {
                let empty: Vec<Ty> = Vec::new();
                assert(empty@ =~= Seq::<Ty>::empty());
                if self.affine_move_allowed_exec(t, &empty, fuel) {
                    return None;
                }
                return found(path, BoundaryReason::AffineWithoutTransferPolicy { ty: copy_ty(t) });
            }
            return found(path, BoundaryReason::AffineWithoutMessagePolicy { ty: copy_ty(t) });
        }
        self.shape_violation_exec(t, path, visiting, allow_affine_move, fuel)
    }

    fn shape_violation_exec(
        &self,
        t: &Ty,
        path: &Vec<PathStep>,
        visiting: &Vec<Ty>,
        allow_affine_move: bool,
        fuel: u64,
    ) -> (r: Option<BoundaryViolation>)
        ensures
            violation_view(r) == shape_violation(*self, *t, path@, visiting@, allow_affine_move, fuel as nat),
        decreases fuel, t, 1nat,
    {
        let is_future = match t {
            Ty::GeneratedFuture { .. } => true,
            _ => false,
        };
        if !(allow_affine_move && is_future) && (contains_generic(t) || contains_type_hole(t)) {
            return found(path, BoundaryReason::GenericWithoutMessage { ty: copy_ty(t) });
        }
        match t {
            Ty::CSpelling(_) => found(path, BoundaryReason::CSpelling { ty: copy_ty(t) }),
            Ty::Pointer { nullable, .. } => found(
                path,
                BoundaryReason::RawPointer { ty: copy_ty(t), nullable: *nullable },
            ),
            Ty::Slice { mutability, .. } => found(
                path,
                BoundaryReason::BorrowedSlice {
                    ty: copy_ty(t),
                    mutable: match mutability {
                        ViewMutability::Mutable => true,
                        ViewMutability::ReadOnly => false,
                    },
                },
            ),
            Ty::Array { elem, .. } => {
                let elem_path = pushed_path(path, PathStep::Element);
                let r = self.violation_exec(elem, &elem_path, visiting, allow_affine_move, fuel);
                if r.is_some() {
                    return r;
                }
                if self.structural_clone_now(t) {
                    None
                } else {
                    found(path, BoundaryReason::ArrayWithoutMessage { ty: copy_ty(t) })
                }
            },
            Ty::GeneratedFuture { state, .. } => {
                if contains_ty(visiting, t) {
                    return found(path, BoundaryReason::Recursive { ty: copy_ty(t) });
                }
                let inner = pushed_tys(visiting, t);
                self.state_violation_exec(state, path, &inner, allow_affine_move, fuel)
            },
            Ty::Named { name, args } => {
                if contains_ty(visiting, t) || fuel == 0 {
                    return found(path, BoundaryReason::Recursive { ty: copy_ty(t) });
                }
                let inner = pushed_tys(visiting, t);
                match self.struct_member_items(*name, args) {
                    Some(items) => {
                        let r = self.members_violation_exec(&items, path, &inner, allow_affine_move, fuel - 1);
                        if r.is_some() {
                            return r;
                        }
                        if self.structural_clone_now(t) {
                            None
                        } else {
                            found(path, BoundaryReason::StructWithoutMessage { ty: copy_ty(t) })
                        }
                    },
                    None => match self.enum_member_items(*name, args) {
                        Some(items) => {
                            let r = self.members_violation_exec(
                                &items,
                                path,
                                &inner,
                                allow_affine_move,
                                fuel - 1,
                            );
                            if r.is_some() {
                                return r;
                            }
                            if self.structural_clone_now(t) {
                                None
                            } else {
                                found(path, BoundaryReason::EnumWithoutMessage { ty: copy_ty(t) })
                            }
                        },
                        None => found(path, BoundaryReason::NominalWithoutMessage { ty: copy_ty(t) }),
                    },
                }
            },
            Ty::DynamicInterface { .. } => found(path, BoundaryReason::DynamicInterface { ty: copy_ty(t) }),
            Ty::OpaqueReturn { .. } => found(path, BoundaryReason::OpaqueReturn { ty: copy_ty(t) }),
            Ty::Function { .. } => found(path, BoundaryReason::FunctionPointer { ty: copy_ty(t) }),
            Ty::Closure { .. } => found(path, BoundaryReason::Closure { ty: copy_ty(t) }),
            Ty::ClosureInstance { .. } => found(path, BoundaryReason::Closure { ty: copy_ty(t) }),
            Ty::Generic(_) => found(path, BoundaryReason::GenericWithoutMessage { ty: copy_ty(t) }),
            _ => None,
        }
    }

    fn state_violation_exec(
        &self,
        s: &StateList,
        path: &Vec<PathStep>,
        visiting: &Vec<Ty>,
        allow_affine_move: bool,
        fuel: u64,
    ) -> (r: Option<BoundaryViolation>)
        ensures
            violation_view(r) == state_violation(*self, *s, path@, visiting@, allow_affine_move, fuel as nat),
        decreases fuel, s, 0nat,
    {
        match s {
            StateList::Nil => None,
            StateList::Cons(k, ty, rest) => {
                let entry_path = pushed_path(path, PathStep::State(*k));
                let r = self.violation_exec(ty, &entry_path, visiting, allow_affine_move, fuel);
                if r.is_some() {
                    return r;
                }
                self.state_violation_exec(rest, path, visiting, allow_affine_move, fuel)
            },
        }
    }

    fn members_violation_exec(
        &self,
        items: &Vec<(StateKey, Ty)>,
        path: &Vec<PathStep>,
        visiting: &Vec<Ty>,
        allow_affine_move: bool,
        fuel: u64,
    ) -> (r: Option<BoundaryViolation>)
        ensures
            violation_view(r) == members_violation(*self, items@, path@, visiting@, allow_affine_move, fuel as nat),
        decreases fuel, items@, 0nat,
    {
        let mut i: usize = 0;
        assert(items@.subrange(0, items@.len() as int) =~= items@);
        while i < items.len()
            invariant
                i <= items@.len(),
                members_violation(*self, items@, path@, visiting@, allow_affine_move, fuel as nat)
                    == members_violation(
                    *self,
                    items@.subrange(i as int, items@.len() as int),
                    path@,
                    visiting@,
                    allow_affine_move,
                    fuel as nat,
                ),
            decreases items@.len() - i,
        {
            let ghost rest = items@.subrange(i as int, items@.len() as int);
            proof {
                assert(rest[0] == items@[i as int]);
                assert(rest.subrange(1, rest.len() as int) =~= items@.subrange(i + 1, items@.len() as int));
                assert(decreases_to!(items@ => items@[i as int]));
                assert(decreases_to!(items@[i as int] => items@[i as int].1));
            }
            let member_path = pushed_path(path, PathStep::Member(items[i].0));
            let r = self.violation_exec(&items[i].1, &member_path, visiting, allow_affine_move, fuel);
            if r.is_some() {
                return r;
            }
            i += 1;
        }
        None
    }

    fn affine_move_allowed_exec(&self, t: &Ty, visiting: &Vec<Ty>, fuel: u64) -> (r: bool)
        ensures
            r == affine_move_allowed(*self, *t, visiting@, fuel as nat),
        decreases fuel, t, 0nat,
    {
        if t.is_erased_value() || self.type_is_resource_handle_leaf(t) || self.frame_opt_in_now(t) {
            return true;
        }
        match t {
            Ty::Array { elem, .. } => self.affine_move_allowed_exec(elem, visiting, fuel),
            Ty::OpaqueState { base, state } => (!self.type_is_affine(base) || self.affine_move_allowed_exec(
                base,
                visiting,
                fuel,
            )) && self.state_move_allowed_exec(state, visiting, fuel),
            Ty::OpaqueReturn { .. } => {
                let concrete = self.lower_opaque_returns_in_ty(t);
                !known_ty_matches(&concrete, t) && fuel > 0 && self.affine_move_allowed_exec(
                    &concrete,
                    visiting,
                    fuel - 1,
                )
            },
            Ty::Named { name, args } => {
                if is_std_future_exec(&self.program.std, t) || contains_ty(visiting, t) || fuel == 0 {
                    return false;
                }
                let inner = pushed_tys(visiting, t);
                let from_struct = match self.struct_member_items(*name, args) {
                    Some(items) => self.members_move_allowed_exec(&items, &inner, fuel - 1),
                    None => false,
                };
                from_struct || match self.enum_member_items(*name, args) {
                    Some(items) => self.members_move_allowed_exec(&items, &inner, fuel - 1),
                    None => false,
                }
            },
            _ => false,
        }
    }

    fn component_move_allowed_exec(&self, t: &Ty, visiting: &Vec<Ty>, fuel: u64) -> (r: bool)
        ensures
            r == component_move_allowed(*self, *t, visiting@, fuel as nat),
        decreases fuel, t, 3nat,
    {
        if self.type_is_affine(t) {
            self.affine_move_allowed_exec(t, visiting, fuel)
        } else {
            let path: Vec<PathStep> = Vec::new();
            let fresh: Vec<Ty> = Vec::new();
            assert(path@ =~= Seq::<PathStep>::empty());
            assert(fresh@ =~= Seq::<Ty>::empty());
            self.violation_exec(t, &path, &fresh, false, fuel).is_none()
        }
    }

    fn state_move_allowed_exec(&self, s: &StateList, visiting: &Vec<Ty>, fuel: u64) -> (r: bool)
        ensures
            r == state_move_allowed(*self, *s, visiting@, fuel as nat),
        decreases fuel, s, 0nat,
    {
        match s {
            StateList::Nil => true,
            StateList::Cons(_, ty, rest) => self.component_move_allowed_exec(ty, visiting, fuel)
                && self.state_move_allowed_exec(rest, visiting, fuel),
        }
    }

    fn members_move_allowed_exec(&self, items: &Vec<(StateKey, Ty)>, visiting: &Vec<Ty>, fuel: u64) -> (r:
        bool)
        ensures
            r == members_move_allowed(*self, items@, visiting@, fuel as nat),
        decreases fuel, items@, 0nat,
    {
        let mut i: usize = 0;
        assert(items@.subrange(0, items@.len() as int) =~= items@);
        while i < items.len()
            invariant
                i <= items@.len(),
                members_move_allowed(*self, items@, visiting@, fuel as nat) == members_move_allowed(
                    *self,
                    items@.subrange(i as int, items@.len() as int),
                    visiting@,
                    fuel as nat,
                ),
            decreases items@.len() - i,
        {
            let ghost rest = items@.subrange(i as int, items@.len() as int);
            proof {
                assert(rest[0] == items@[i as int]);
                assert(rest.subrange(1, rest.len() as int) =~= items@.subrange(i + 1, items@.len() as int));
                assert(decreases_to!(items@ => items@[i as int]));
                assert(decreases_to!(items@[i as int] => items@[i as int].1));
            }
            if !self.component_move_allowed_exec(&items[i].1, visiting, fuel) {
                return false;
            }
            i += 1;
        }
        true
    }
}

impl TypeChecker {
    fn escape_violation_exec(&self, t: &Ty, path: &Vec<PathStep>, visiting: &Vec<Ty>, fuel: u64) -> (r:
        Option<BoundaryViolation>)
        ensures
            violation_view(r) == escape_violation(*self, *t, path@, visiting@, fuel as nat),
        decreases t, 1nat,
    {
        if t.is_erased_value() || is_future_state_marker_exec(&self.program.std, t) || self.frame_opt_in_now(t) {
            return None;
        }
        match t {
            Ty::OpaqueState { state, .. } => {
                if contains_ty(visiting, t) {
                    return found(path, BoundaryReason::Recursive { ty: copy_ty(t) });
                }
                let inner = pushed_tys(visiting, t);
                self.escape_state_violation_exec(state, path, &inner, fuel)
            },
            Ty::GeneratedFuture { state, .. } => {
                if contains_ty(visiting, t) {
                    return found(path, BoundaryReason::Recursive { ty: copy_ty(t) });
                }
                let inner = pushed_tys(visiting, t);
                self.escape_state_violation_exec(state, path, &inner, fuel)
            },
            _ => self.violation_exec(t, path, visiting, true, fuel),
        }
    }

    fn escape_state_violation_exec(&self, s: &StateList, path: &Vec<PathStep>, visiting: &Vec<Ty>, fuel: u64) -> (r:
        Option<BoundaryViolation>)
        ensures
            violation_view(r) == escape_state_violation(*self, *s, path@, visiting@, fuel as nat),
        decreases s, 0nat,
    {
        match s {
            StateList::Nil => None,
            StateList::Cons(k, ty, rest) => {
                let entry_path = pushed_path(path, PathStep::State(*k));
                let r = self.escape_violation_exec(ty, &entry_path, visiting, fuel);
                if r.is_some() {
                    return r;
                }
                self.escape_state_violation_exec(rest, path, visiting, fuel)
            },
        }
    }

    /// The first part of a value of type `ty` (reached by `path`) that may
    /// not cross a task boundary, given the enclosing types in `visiting`;
    /// with `allow_affine_move`, resources that may be moved and generated
    /// futures themselves are admitted (their state is still examined).
    pub fn task_boundary_message_violation_inner(
        &mut self,
        ty: &Ty,
        path: &Vec<PathStep>,
        visiting: &mut Vec<Ty>,
        allow_affine_move: bool,
    ) -> (r: Option<BoundaryViolation>)
        ensures
            *final(self) == *old(self),
            final(visiting)@ == old(visiting)@,
            violation_view(r) == boundary_violation(
                *old(self),
                *ty,
                path@,
                old(visiting)@,
                allow_affine_move,
                BOUNDARY_NESTING_LIMIT as nat,
            ),
    {
        self.violation_exec(ty, path, visiting, allow_affine_move, BOUNDARY_NESTING_LIMIT)
    }

    /// The first part of a value of type `ty` that may not be sent to
    /// another task as a message.
    pub fn task_boundary_message_violation(&mut self, ty: &Ty, path: &Vec<PathStep>, visiting: &mut Vec<Ty>) -> (r:
        Option<BoundaryViolation>)
        ensures
            *final(self) == *old(self),
            final(visiting)@ == old(visiting)@,
            violation_view(r) == boundary_violation(
                *old(self),
                *ty,
                path@,
                old(visiting)@,
                false,
                BOUNDARY_NESTING_LIMIT as nat,
            ),
    {
        self.task_boundary_message_violation_inner(ty, path, visiting, false)
    }

    /// The first part of a future's state of type `ty` that may not be moved
    /// into another task.
    pub fn task_boundary_future_state_violation(
        &mut self,
        ty: &Ty,
        path: &Vec<PathStep>,
        visiting: &mut Vec<Ty>,
    ) -> (r: Option<BoundaryViolation>)
        ensures
            *final(self) == *old(self),
            final(visiting)@ == old(visiting)@,
            violation_view(r) == boundary_violation(
                *old(self),
                *ty,
                path@,
                old(visiting)@,
                true,
                BOUNDARY_NESTING_LIMIT as nat,
            ),
    {
        self.task_boundary_message_violation_inner(ty, path, visiting, true)
    }

    /// The first part of the state a value of type `ty` carries that may not
    /// escape into another task; types that opt in to async frames are
    /// admitted.
    pub fn future_state_escape_violation_inner(
        &mut self,
        ty: &Ty,
        path: &Vec<PathStep>,
        visiting: &mut Vec<Ty>,
    ) -> (r: Option<BoundaryViolation>)
        ensures
            *final(self) == *old(self),
            final(visiting)@ == old(visiting)@,
            violation_view(r) == escape_violation(*old(self), *ty, path@, old(visiting)@, BOUNDARY_NESTING_LIMIT as nat),
    {
        self.escape_violation_exec(ty, path, visiting, BOUNDARY_NESTING_LIMIT)
    }

    /// The first part of the state a value of type `ty` carries that may not
    /// escape into another task.
    pub fn future_state_escape_violation(&mut self, ty: &Ty, path: &Vec<PathStep>, visiting: &mut Vec<Ty>) -> (r:
        Option<BoundaryViolation>)
        ensures
            *final(self) == *old(self),
            final(visiting)@ == old(visiting)@,
            violation_view(r) == escape_violation(*old(self), *ty, path@, old(visiting)@, BOUNDARY_NESTING_LIMIT as nat),
    {
        self.future_state_escape_violation_inner(ty, path, visiting)
    }

    /// For a generated future or a value carrying hidden state, the first
    /// part of its state that may not be moved into a spawned task.
    pub fn spawnable_future_state_violation(&mut self, ty: &Ty, path: &Vec<PathStep>) -> (r: Option<
        BoundaryViolation,
    >)
        ensures
            *final(self) == *old(self),
            violation_view(r) == if *ty is GeneratedFuture || has_hidden_state(*ty) {
                boundary_violation(*old(self), *ty, path@, Seq::empty(), true, BOUNDARY_NESTING_LIMIT as nat)
            } else {
                None
            },
    {
        let carries_state = match ty {
            Ty::GeneratedFuture { .. } => true,
            Ty::OpaqueState { .. } => true,
            _ => false,
        };
        if carries_state {
            let mut visiting: Vec<Ty> = Vec::new();
            assert(visiting@ =~= Seq::<Ty>::empty());
            return self.task_boundary_future_state_violation(ty, path, &mut visiting);
        }
        None
    }

    /// Whether a resource of type `ty` may be moved into another task.
    pub fn task_boundary_affine_move_allowed(&mut self, ty: &Ty, visiting: &mut Vec<Ty>) -> (r: bool)
        ensures
            *final(self) == *old(self),
            final(visiting)@ == old(visiting)@,
            r == affine_move_allowed(*old(self), *ty, old(visiting)@, BOUNDARY_NESTING_LIMIT as nat),
    {
        self.affine_move_allowed_exec(ty, visiting, BOUNDARY_NESTING_LIMIT)
    }

    /// Whether a part of a future's state of type `ty` may be moved into
    /// another task.
    pub fn task_boundary_component_move_allowed(&mut self, ty: &Ty, visiting: &mut Vec<Ty>) -> (r: bool)
        ensures
            *final(self) == *old(self),
            final(visiting)@ == old(visiting)@,
            r == component_move_allowed(*old(self), *ty, old(visiting)@, BOUNDARY_NESTING_LIMIT as nat),
    {
        self.component_move_allowed_exec(ty, visiting, BOUNDARY_NESTING_LIMIT)
    }

    /// Whether `receiver_ty` is a spawnable future for the standard
    /// spawnable-future marker `interface_def`: its state may be moved into a
    /// spawned task, and it is a generated future, a standard future, or has
    /// an implementation of the marker.
    pub fn type_implements_spawnable_future_marker(&mut self, interface_def: u64, receiver_ty: &Ty) -> (r: bool)
        ensures
            *final(self) == *old(self),
            r == ((if *receiver_ty is GeneratedFuture || has_hidden_state(*receiver_ty) {
                boundary_violation(
                    *old(self),
                    *receiver_ty,
                    seq![PathStep::Root(interface_def)],
                    Seq::empty(),
                    true,
                    BOUNDARY_NESTING_LIMIT as nat,
                )
            } else {
                None
            }) is None && crate::capability::spawnable_marker(*old(self), interface_def, *receiver_ty)),
    {
        let mut path: Vec<PathStep> = Vec::new();
        path.push(PathStep::Root(interface_def));
        assert(path@ =~= seq![PathStep::Root(interface_def)]);
        if self.spawnable_future_state_violation(receiver_ty, &path).is_some() {
            return false;
        }
        self.spawnable_marker_holds(interface_def, receiver_ty)
    }

    /// Whether the meta representation of `ty` is a message, so values of
    /// `ty` can be cloned structure by structure.
    pub fn type_implements_structural_message_clone(&mut self, ty: &Ty) -> (r: bool)
        ensures
            *final(self) == *old(self),
            r == structural_clone(*old(self), *ty),
    {
        self.structural_clone_now(ty)
    }
}

} // verus!
