//! Hidden future state that flows with values: what a call's result, an
//! awaited output or an outside future may carry.
use vstd::prelude::*;
use crate::asyncty::{one, opaque_state_exec, opaque_state_of};
use crate::boundary::{
    contains_ty, enum_members, is_std_future, is_std_future_exec, pushed_tys, struct_members,
    BOUNDARY_NESTING_LIMIT,
};
use crate::checker::{StdDefs, TypeChecker};
use crate::texpr::TExpr;
use crate::ty::{copy_state, copy_ty, known_ty_matches, states_match, StateKey, StateList, Ty, TyList};

verus! {

/// The type standing for future state whose type is not known.
pub open spec fn marker_ty(std: StdDefs) -> Ty {
    match std.future_state_marker {
        Some(m) => Ty::Named { name: m, args: TyList::Nil },
        None => Ty::Unknown,
    }
}

/// The standard future type with the given output.
pub open spec fn std_future_of(std: StdDefs, output: Ty) -> Ty {
    match std.future_struct {
        Some(n) => Ty::Named { name: n, args: one(output) },
        None => Ty::Unknown,
    }
}

/// The type `t` with the future state `state` attached where values of `t`
/// can hold it: standard futures carry it themselves; arrays and slices
/// carry it for their elements; structs and enums for the members that can
/// hold it.  `visiting` holds the enclosing named types; named types nested
/// deeper than `fuel` are left as they are.
pub open spec fn with_state(tc: TypeChecker, t: Ty, state: StateList, visiting: Seq<Ty>, fuel: nat) -> Ty
    decreases fuel, t, 1nat,
{
    if state is Nil {
        t
    } else {
        match t {
            Ty::OpaqueState { base, state: existing } => opaque_state_of(
                with_state(tc, *base, state, visiting, fuel),
                existing,
            ),
            _ => if is_std_future(tc.program.std, t) {
                opaque_state_of(t, state)
            } else {
                match t {
                    Ty::Array { elem, .. } => {
                        let e = with_state(tc, *elem, state, visiting, fuel);
                        if e == *elem {
                            t
                        } else {
                            opaque_state_of(t, StateList::Cons(StateKey::ElementAny, Box::new(e), Box::new(StateList::Nil)))
                        }
                    },
                    Ty::Slice { elem, .. } => {
                        let e = with_state(tc, *elem, state, visiting, fuel);
                        if e == *elem {
                            t
                        } else {
                            opaque_state_of(t, StateList::Cons(StateKey::ElementAny, Box::new(e), Box::new(StateList::Nil)))
                        }
                    },
                    Ty::Named { name, args } => if visiting.contains(t) || fuel == 0 {
                        t
                    } else {
                        match struct_members(tc.program, name, args) {
                            Some(items) => opaque_state_of(
                                t,
                                hidden_members(tc, items, state, visiting.push(t), (fuel - 1) as nat),
                            ),
                            None => match enum_members(tc.program, name, args) {
                                Some(items) => opaque_state_of(
                                    t,
                                    hidden_members(tc, items, state, visiting.push(t), (fuel - 1) as nat),
                                ),
                                None => t,
                            },
                        }
                    },
                    _ => t,
                }
            },
        }
    }
}

/// The members that hold state once `state` is attached, with their new
/// types, in order.
pub open spec fn hidden_members(
    tc: TypeChecker,
    items: Seq<(StateKey, Ty)>,
    state: StateList,
    visiting: Seq<Ty>,
    fuel: nat,
) -> StateList
    decreases fuel, items, 0nat,
{
    if items.len() == 0 {
        StateList::Nil
    } else {
        proof {
            assert(decreases_to!(items => items[0]));
        }
        let w = with_state(tc, items[0].1, state, visiting, fuel);
        let rest = hidden_members(tc, items.subrange(1, items.len() as int), state, visiting, fuel);
        if w != items[0].1 {
            StateList::Cons(items[0].0, Box::new(w), Box::new(rest))
        } else {
            rest
        }
    }
}

/// The state a call's result takes from the arguments from position `i`
/// on: each argument that is not a function pointer, keyed by its position.
pub open spec fn argument_state(args: Seq<TExpr>, i: int) -> StateList
    decreases args.len() - i,
{
    if i < 0 || i >= args.len() {
        StateList::Nil
    } else if args[i].ty is Function {
        argument_state(args, i + 1)
    } else {
        StateList::Cons(StateKey::Argument(i as u64), Box::new(args[i].ty), Box::new(argument_state(args, i + 1)))
    }
}

/// The state of a future value: that of a generated future or of an opaque
/// value, else none.
pub open spec fn future_state(t: Ty) -> StateList {
    match t {
        Ty::GeneratedFuture { state, .. } => state,
        Ty::OpaqueState { state, .. } => state,
        _ => StateList::Nil,
    }
}

/// The flow type of a value of type `t` of outside origin: `t` carrying
/// state of unknown type under `label`, when that changes `t`.
pub open spec fn external_flow(tc: TypeChecker, t: Ty, label: u64) -> Option<Ty> {
    let state = StateList::Cons(StateKey::External(label), Box::new(marker_ty(tc.program.std)), Box::new(StateList::Nil));
    let w = with_state(tc, t, state, Seq::empty(), BOUNDARY_NESTING_LIMIT as nat);
    if w != t {
        Some(w)
    } else {
        None
    }
}

/// The type a variable stores for a value of type `t`, and the more
/// precise type of the value flowing in it when there is one.
pub open spec fn storage_and_flow(std: StdDefs, t: Ty) -> (Ty, Option<Ty>) {
    match t {
        Ty::GeneratedFuture { output, .. } => (std_future_of(std, *output), Some(t)),
        Ty::OpaqueState { base, .. } => (*base, Some(t)),
        _ => (t, None),
    }
}

impl TypeChecker {
    fn ty_with_future_state_entries(&self, t: &Ty, state: &StateList, visiting: &Vec<Ty>, fuel: u64) -> (r: Ty)
        ensures
            r == with_state(*self, *t, *state, visiting@, fuel as nat),
        decreases fuel, t, 1nat,
    {
        if let StateList::Nil = state {
            return copy_ty(t);
        }
        if let Ty::OpaqueState { base, state: existing } = t {
            let wrapped = self.ty_with_future_state_entries(base, state, visiting, fuel);
            return opaque_state_exec(wrapped, copy_state(existing));
        }
        if is_std_future_exec(&self.program.std, t) {
            return opaque_state_exec(copy_ty(t), copy_state(state));
        }
        match t {
            Ty::Array { elem, .. } => {
                let e = self.ty_with_future_state_entries(elem, state, visiting, fuel);
                if known_ty_matches(&e, elem) {
                    copy_ty(t)
                } else {
                    opaque_state_exec(copy_ty(t), StateList::Cons(StateKey::ElementAny, Box::new(e), Box::new(StateList::Nil)))
                }
            },
            Ty::Slice { elem, .. } => {
                let e = self.ty_with_future_state_entries(elem, state, visiting, fuel);
                if known_ty_matches(&e, elem) {
                    copy_ty(t)
                } else {
                    opaque_state_exec(copy_ty(t), StateList::Cons(StateKey::ElementAny, Box::new(e), Box::new(StateList::Nil)))
                }
            },
            Ty::Named { name, args } => {
                if contains_ty(visiting, t) || fuel == 0 {
                    return copy_ty(t);
                }
                let inner = pushed_tys(visiting, t);
                match self.struct_member_items(*name, args) {
                    Some(items) => {
                        let hidden = self.hidden_members_exec(&items, 0, state, &inner, fuel - 1);
                        assert(items@.subrange(0, items@.len() as int) =~= items@);
                        opaque_state_exec(copy_ty(t), hidden)
                    },
                    None => match self.enum_member_items(*name, args) {
                        Some(items) => {
                            let hidden = self.hidden_members_exec(&items, 0, state, &inner, fuel - 1);
                            assert(items@.subrange(0, items@.len() as int) =~= items@);
                            opaque_state_exec(copy_ty(t), hidden)
                        },
                        None => copy_ty(t),
                    },
                }
            },
            _ => copy_ty(t),
        }
    }

    fn hidden_members_exec(
        &self,
        items: &Vec<(StateKey, Ty)>,
        i: usize,
        state: &StateList,
        visiting: &Vec<Ty>,
        fuel: u64,
    ) -> (r: StateList)
        requires
            i <= items@.len(),
        ensures
            r == hidden_members(*self, items@.subrange(i as int, items@.len() as int), *state, visiting@, fuel as nat),
        decreases fuel, items@.subrange(i as int, items@.len() as int), 0nat,
    {
        let ghost rest = items@.subrange(i as int, items@.len() as int);
        if i >= items.len() {
            return StateList::Nil;
        }
        proof {
            assert(rest[0] == items@[i as int]);
            assert(rest.subrange(1, rest.len() as int) =~= items@.subrange(i + 1, items@.len() as int));
            assert(decreases_to!(rest => rest[0]));
            assert(decreases_to!(rest[0] => rest[0].1));
        }
        let w = self.ty_with_future_state_entries(&items[i].1, state, visiting, fuel);
        let tail = self.hidden_members_exec(items, i + 1, state, visiting, fuel);
        if !known_ty_matches(&w, &items[i].1) {
            StateList::Cons(items[i].0, Box::new(w), Box::new(tail))
        } else {
            tail
        }
    }

    fn argument_state_exec(args: &[TExpr], i: usize) -> (r: StateList)
        requires
            i <= args@.len(),
        ensures
            r == argument_state(args@, i as int),
        decreases args@.len() - i,
    {
        if i >= args.len() {
            return StateList::Nil;
        }
        match &args[i].ty {
            Ty::Function { .. } => Self::argument_state_exec(args, i + 1),
            _ => StateList::Cons(
                StateKey::Argument(i as u64),
                Box::new(copy_ty(&args[i].ty)),
                Box::new(Self::argument_state_exec(args, i + 1)),
            ),
        }
    }

    /// The flow type of a value of type `ty` of outside origin: `ty`
    /// carrying state of unknown type under `label`, when that changes it.
    pub fn external_future_flow_ty(&mut self, ty: &Ty, label: u64) -> (r: Option<Ty>)
        ensures
            *final(self) == *old(self),
            r == external_flow(*old(self), *ty, label),
    {
        let marker = match self.program.std.future_state_marker {
            Some(m) => Ty::Named { name: m, args: TyList::Nil },
            None => Ty::Unknown,
        };
        let state = StateList::Cons(StateKey::External(label), Box::new(marker), Box::new(StateList::Nil));
        let visiting: Vec<Ty> = Vec::new();
        assert(visiting@ =~= Seq::<Ty>::empty());
        let wrapped = self.ty_with_future_state_entries(ty, &state, &visiting, BOUNDARY_NESTING_LIMIT);
        if known_ty_matches(&wrapped, ty) {
            None
        } else {
            Some(wrapped)
        }
    }

    /// The type a variable stores for a value of type `ty` (a generated
    /// future is stored as a standard future of its output; an opaque value
    /// as its base type), and the type of the value flowing in it.
    pub fn storage_and_flow_ty(&self, ty: &Ty) -> (r: (Ty, Option<Ty>))
        ensures
            r == storage_and_flow(self.program.std, *ty),
    {
        match ty {
            Ty::GeneratedFuture { output, .. } => {
                let storage = match self.program.std.future_struct {
                    Some(n) => Ty::Named {
                        name: n,
                        args: TyList::Cons(Box::new(copy_ty(output)), Box::new(TyList::Nil)),
                    },
                    None => Ty::Unknown,
                };
                (storage, Some(copy_ty(ty)))
            },
            Ty::OpaqueState { base, .. } => (copy_ty(base), Some(copy_ty(ty))),
            _ => (copy_ty(ty), None),
        }
    }

    /// Like `storage_and_flow_ty`, with a value of outside origin carrying
    /// state of unknown type under `label` when nothing more is known.
    pub fn external_storage_and_flow_ty(&mut self, ty: &Ty, label: u64) -> (r: (Ty, Option<Ty>))
        ensures
            *final(self) == *old(self),
            r == ({
                let (storage, known) = storage_and_flow(old(self).program.std, *ty);
                (
                    storage,
                    match known {
                        Some(f) => Some(f),
                        None => external_flow(*old(self), storage, label),
                    },
                )
            }),
    {
        let (storage_ty, known_flow_ty) = self.storage_and_flow_ty(ty);
        let flow_ty = match known_flow_ty {
            Some(f) => Some(f),
            None => self.external_future_flow_ty(&storage_ty, label),
        };
        (storage_ty, flow_ty)
    }

    /// The type of a call's result, carrying as future state the arguments
    /// that are not function pointers.
    pub fn call_return_future_state_ty(&mut self, ret: &Ty, checked_args: &[TExpr]) -> (r: Ty)
        ensures
            *final(self) == *old(self),
            r == if checked_args@.len() == 0 {
                *ret
            } else {
                with_state(
                    *old(self),
                    *ret,
                    argument_state(checked_args@, 0),
                    Seq::empty(),
                    BOUNDARY_NESTING_LIMIT as nat,
                )
            },
    {
        if checked_args.len() == 0 {
            return copy_ty(ret);
        }
        let state = Self::argument_state_exec(checked_args, 0);
        let visiting: Vec<Ty> = Vec::new();
        assert(visiting@ =~= Seq::<Ty>::empty());
        self.ty_with_future_state_entries(ret, &state, &visiting, BOUNDARY_NESTING_LIMIT)
    }

    /// The type of an awaited output, carrying the state of the awaited
    /// future.
    pub fn awaited_output_future_state_ty(&mut self, future_ty: &Ty, output_ty: Ty) -> (r: Ty)
        ensures
            *final(self) == *old(self),
            r == if future_state(*future_ty) is Nil {
                output_ty
            } else {
                with_state(
                    *old(self),
                    output_ty,
                    future_state(*future_ty),
                    Seq::empty(),
                    BOUNDARY_NESTING_LIMIT as nat,
                )
            },
    {
        let state = match future_ty {
            Ty::GeneratedFuture { state, .. } => copy_state(state),
            Ty::OpaqueState { state, .. } => copy_state(state),
            _ => StateList::Nil,
        };
        if let StateList::Nil = state {
            return output_ty;
        }
        let visiting: Vec<Ty> = Vec::new();
        assert(visiting@ =~= Seq::<Ty>::empty());
        self.ty_with_future_state_entries(&output_ty, &state, &visiting, BOUNDARY_NESTING_LIMIT)
    }
}

} // verus!
