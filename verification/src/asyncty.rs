//! Types of the async runtime: futures, tasks, actors, channels and the
//! hidden state futures carry.
use vstd::prelude::*;
use crate::affine::affine;
use crate::assign::{can_assign, future_accepts_generated, std_async_future_accepts_generated};
use crate::capability::{cache_valid, implements};
use crate::checker::{diag, AsyncFunctionInfo, EnumInstance, Program, StdDefs, TypeChecker};
use crate::diag::{DiagKind, Diagnostic, Span};
use crate::props::{contains_generic, contains_type_hole, has_generic, has_hole, receiver_of, receiver_ty_from_value_ty};
use crate::ty::{copy_state, copy_ty, copy_tys, known_ty_matches, tys_match, FutureOrigin, StateKey, StateList, Ty, TyList};

verus! {

pub open spec fn one(t: Ty) -> TyList {
    TyList::Cons(Box::new(t), Box::new(TyList::Nil))
}

pub open spec fn two(a: Ty, b: Ty) -> TyList {
    TyList::Cons(Box::new(a), Box::new(one(b)))
}

pub open spec fn std_named(o: Option<u64>) -> Option<Ty> {
    match o {
        Some(n) => Some(Ty::Named { name: n, args: TyList::Nil }),
        None => None,
    }
}

/// `base` carrying hidden `state`, or `base` itself when there is none.
pub open spec fn opaque_state_of(base: Ty, state: StateList) -> Ty {
    match state {
        StateList::Nil => base,
        _ => Ty::OpaqueState { base: Box::new(base), state },
    }
}

/// Whether a state key belongs to the part selected by `key`; with
/// `any_element`, every element key belongs to it.
pub open spec fn key_selected(k: StateKey, key: StateKey, any_element: bool) -> bool {
    if any_element {
        k is Element || k is ElementAny
    } else {
        k == key
    }
}

/// The entries of `state` that belong to the part selected by `key`.
pub open spec fn select_state(state: StateList, key: StateKey, any_element: bool) -> StateList
    decreases state,
{
    match state {
        StateList::Nil => StateList::Nil,
        StateList::Cons(k, t, rest) => if key_selected(k, key, any_element) {
            StateList::Cons(k, t, Box::new(select_state(*rest, key, any_element)))
        } else {
            select_state(*rest, key, any_element)
        },
    }
}

/// The type of a part (`projected`) of an opaque value, given the hidden
/// state entries that belong to that part.
pub open spec fn project_state(std: StdDefs, projected: Ty, selected: StateList) -> Ty {
    match selected {
        StateList::Nil => projected,
        StateList::Cons(_, src, rest) => if *rest is Nil {
            match *src {
                Ty::OpaqueState { base, state } if can_assign(projected, *base) => opaque_state_of(
                    projected,
                    state,
                ),
                _ => if future_accepts_generated(std, projected, *src) || can_assign(projected, *src) {
                    *src
                } else {
                    opaque_state_of(projected, selected)
                },
            }
        } else {
            opaque_state_of(projected, selected)
        },
    }
}

pub open spec fn task_args(std: StdDefs, t: Ty) -> Option<(Ty, Ty)> {
    match t {
        Ty::Named { name, args } => match args {
            TyList::Cons(out, rest) => match *rest {
                TyList::Cons(err, end) => if std.task_struct == Some(name) && *end is Nil {
                    Some((*out, *err))
                } else {
                    None
                },
                _ => None,
            },
            _ => None,
        },
        _ => None,
    }
}

pub open spec fn actor_message(std: StdDefs, t: Ty) -> Option<Ty> {
    match t {
        Ty::Named { name, args } => match args {
            TyList::Cons(m, end) => if std.actor_struct == Some(name) && *end is Nil {
                Some(*m)
            } else {
                None
            },
            _ => None,
        },
        _ => None,
    }
}

pub open spec fn result_args(std: StdDefs, t: Ty) -> Option<(Ty, Ty)> {
    match t {
        Ty::Named { name, args } => match args {
            TyList::Cons(ok, rest) => match *rest {
                TyList::Cons(err, end) => if std.result_enum == Some(name) && *end is Nil {
                    Some((*ok, *err))
                } else {
                    None
                },
                _ => None,
            },
            _ => None,
        },
        _ => None,
    }
}

/// The type an awaitable value produces: a generated future's output, or the
/// output argument of a concrete awaitable implementation for the type.
pub open spec fn awaitable_impl_output(p: Program, t: Ty) -> Option<Ty> {
    if exists|i: int| 0 <= i < p.impls@.len() && is_awaitable_impl_for(p, #[trigger] p.impls@[i], t) {
        let i = choose|i: int| 0 <= i < p.impls@.len() && is_awaitable_impl_for(p, #[trigger] p.impls@[i], t)
            && forall|j: int| 0 <= j < i ==> !is_awaitable_impl_for(p, #[trigger] p.impls@[j], t);
        Some(*p.impls@[i].args->Cons_1->Cons_0)
    } else {
        None
    }
}

pub open spec fn is_awaitable_impl_for(p: Program, imp: crate::checker::ImplSig, t: Ty) -> bool {
    p.std.awaitable_future == Some(imp.interface) && imp.generics@.len() == 0 && match imp.args {
        TyList::Cons(recv, rest) => *recv == t && match *rest {
            TyList::Cons(_, end) => *end is Nil,
            _ => false,
        },
        _ => false,
    }
}

pub open spec fn awaitable_output(p: Program, t: Ty) -> Option<Ty> {
    match t {
        Ty::GeneratedFuture { output, .. } => Some(*output),
        _ => awaitable_impl_output(p, t),
    }
}

pub open spec fn payload_is(l: TyList, t: Option<Ty>) -> bool {
    match t {
        Some(t) => l == one(t),
        None => false,
    }
}

pub open spec fn is_std_error_value(std: StdDefs, t: Ty) -> bool {
    Some(t) == std_named(std.dyn_error_struct) || Some(t) == std_named(std.report_struct) || Some(t)
        == std_named(std.async_error_struct)
}

/// Whether an error enum instance has a variant carrying async runtime
/// failures.
pub open spec fn has_runtime_carrier(std: StdDefs, e: EnumInstance) -> bool {
    exists|i: int|
        0 <= i < e.variants@.len() && ({
            let v = #[trigger] e.variants@[i];
            ||| (v.name == std.runtime_variant && v.payload == one(Ty::I64))
            ||| ((v.name == std.async_variant || v.name == std.task_group_async_variant)
                && payload_is(v.payload, std_named(std.async_error_struct)))
            ||| (v.name == std.resource_variant && payload_is(v.payload, std_named(std.resource_error_struct)))
        })
}

/// Whether an error enum instance has a variant carrying message-clone
/// failures.
pub open spec fn has_message_clone_carrier(std: StdDefs, e: EnumInstance) -> bool {
    exists|i: int|
        0 <= i < e.variants@.len() && ({
            let v = #[trigger] e.variants@[i];
            ||| (v.name == std.message_clone_variant && payload_is(v.payload, std_named(std.report_struct)))
            ||| ((v.name == std.async_variant || v.name == std.task_group_async_variant)
                && payload_is(v.payload, std_named(std.async_error_struct)))
        })
}

pub open spec fn is_enum_instance(e: EnumInstance, name: u64, args: TyList) -> bool {
    e.name == name && e.args == args
}

/// The position of the first checked instance of enum `name<args>`.
pub open spec fn enum_instance_index(p: Program, name: u64, args: TyList) -> Option<int> {
    if exists|i: int| 0 <= i < p.enums@.len() && is_enum_instance(#[trigger] p.enums@[i], name, args) {
        Some(
            choose|i: int|
                0 <= i < p.enums@.len() && is_enum_instance(#[trigger] p.enums@[i], name, args)
                    && forall|j: int| 0 <= j < i ==> !is_enum_instance(#[trigger] p.enums@[j], name, args),
        )
    } else {
        None
    }
}

/// The first checked enum instance that a type names.
pub open spec fn enum_instance_of(p: Program, t: Ty) -> Option<EnumInstance> {
    match t {
        Ty::Named { name, args } => match enum_instance_index(p, name, args) {
            Some(i) => Some(p.enums@[i]),
            None => None,
        },
        _ => None,
    }
}

pub open spec fn represents_runtime_failure(p: Program, t: Ty) -> bool {
    is_std_error_value(p.std, t) || match enum_instance_of(p, t) {
        Some(e) => has_runtime_carrier(p.std, e),
        None => false,
    }
}

pub open spec fn represents_message_clone_failure(p: Program, t: Ty) -> bool {
    is_std_error_value(p.std, t) || match enum_instance_of(p, t) {
        Some(e) => has_message_clone_carrier(p.std, e),
        None => false,
    }
}

pub open spec fn is_message(tc: TypeChecker, t: Ty) -> bool {
    !affine(tc, t) && match tc.program.std.message_clone {
        Some(d) => implements(tc, d, TyList::Nil, t),
        None => false,
    }
}

pub open spec fn function_async_info(p: Program, def_id: u64) -> (bool, bool) {
    if exists|i: int| 0 <= i < p.async_functions@.len() && (#[trigger] p.async_functions@[i]).def_id == def_id {
        let i = choose|i: int| 0 <= i < p.async_functions@.len() && (#[trigger] p.async_functions@[i]).def_id == def_id
            && forall|j: int| 0 <= j < i ==> (#[trigger] p.async_functions@[j]).def_id != def_id;
        (p.async_functions@[i].cancel_safe, p.async_functions@[i].abortable)
    } else {
        (false, true)
    }
}

pub open spec fn zip_state(names: Seq<u64>, params: TyList) -> StateList
    decreases params,
{
    match params {
        TyList::Nil => StateList::Nil,
        TyList::Cons(h, t) => if names.len() == 0 {
            StateList::Nil
        } else {
            StateList::Cons(StateKey::Field(names[0]), h, Box::new(zip_state(names.drop_first(), *t)))
        },
    }
}

/// What `.await` produces.
#[derive(Debug, PartialEq)]
pub struct AwaitableInfo {
    pub output_ty: Ty,
}

fn is_some_eq(o: Option<u64>, n: u64) -> (r: bool)
    ensures
        r == (o == Some(n)),
{
    match o {
        Some(x) => x == n,
        None => false,
    }
}

fn std_named_exec(o: Option<u64>) -> (r: Option<Ty>)
    ensures
        r == std_named(o),
{
    match o {
        Some(n) => Some(Ty::Named { name: n, args: TyList::Nil }),
        None => None,
    }
}

pub(crate) fn opaque_state_exec(base: Ty, state: StateList) -> (r: Ty)
    ensures
        r == opaque_state_of(base, state),
{
    match state {
        StateList::Nil => base,
        _ => Ty::OpaqueState { base: Box::new(base), state },
    }
}

fn payload_is_exec(l: &TyList, t: &Option<Ty>) -> (r: bool)
    ensures
        r == payload_is(*l, *t),
{
    match t {
        Some(t) => match l {
            TyList::Cons(h, rest) => known_ty_matches(h, t) && match **rest {
                TyList::Nil => true,
                _ => false,
            },
            TyList::Nil => false,
        },
        None => false,
    }
}

fn opt_ty_eq(a: &Ty, b: &Option<Ty>) -> (r: bool)
    ensures
        r == (Some(*a) == *b),
{
    match b {
        Some(b) => known_ty_matches(a, b),
        None => false,
    }
}

impl TypeChecker {
    fn select_state_by(state: &StateList, key: StateKey, element_any: bool) -> (r: StateList)
        ensures
            r == select_state(*state, key, element_any),
        decreases state,
    {
        match state {
            StateList::Nil => StateList::Nil,
            StateList::Cons(k, t, rest) => {
                let keep = if element_any {
                    match k {
                        StateKey::Element(_) => true,
                        StateKey::ElementAny => true,
                        _ => false,
                    }
                } else {
                    *k == key
                };
                if keep {
                    StateList::Cons(*k, Box::new(copy_ty(t)), Box::new(Self::select_state_by(rest, key, element_any)))
                } else {
                    Self::select_state_by(rest, key, element_any)
                }
            },
        }
    }

    fn project_opaque_state_ty(&self, projected_ty: Ty, selected: StateList) -> (r: Ty)
        ensures
            r == project_state(self.program.std, projected_ty, selected),
    {
        match &selected {
            StateList::Nil => { return projected_ty; },
            StateList::Cons(_, src, rest) => {
                let single = match **rest {
                    StateList::Nil => true,
                    _ => false,
                };
                if single {
                    if let Ty::OpaqueState { base, state } = &**src {
                        if projected_ty.can_assign_from(base) {
                            return opaque_state_exec(projected_ty, copy_state(state));
                        }
                    }
                    if std_async_future_accepts_generated(&self.program.std, &projected_ty, src)
                        || projected_ty.can_assign_from(src) {
                        return copy_ty(src);
                    }
                }
            },
        }
        opaque_state_exec(projected_ty, selected)
    }

    /// The type of field `field` of an opaque value, given its hidden state.
    pub fn project_opaque_field_ty(&self, field_ty: Ty, state: &StateList, field: u64) -> (r: Ty)
        ensures
            r == project_state(
                self.program.std,
                field_ty,
                select_state(*state, StateKey::Field(field), false),
            ),
    {
        let selected = Self::select_state_by(state, StateKey::Field(field), false);
        self.project_opaque_state_ty(field_ty, selected)
    }

    /// The type of an element of an opaque array or slice value.
    pub fn project_opaque_index_ty(&self, elem_ty: Ty, state: &StateList) -> (r: Ty)
        ensures
            r == project_state(self.program.std, elem_ty, select_state(*state, StateKey::Unnamed, true)),
    {
        let selected = Self::select_state_by(state, StateKey::Unnamed, true);
        self.project_opaque_state_ty(elem_ty, selected)
    }

    /// The type of payload `physical_index` of variant `variant_name` of an
    /// opaque enum value.
    pub fn project_opaque_variant_payload_ty(
        &self,
        payload_ty: Ty,
        state: &StateList,
        variant_name: u64,
        physical_index: u64,
    ) -> (r: Ty)
        ensures
            r == project_state(
                self.program.std,
                payload_ty,
                select_state(*state, StateKey::Payload(variant_name, physical_index), false),
            ),
    {
        let key = StateKey::Payload(variant_name, physical_index);
        let selected = Self::select_state_by(state, key, false);
        self.project_opaque_state_ty(payload_ty, selected)
    }

    /// The output and error types of a standard task type.
    pub fn task_tys(&self, ty: &Ty) -> (r: Option<(Ty, Ty)>)
        ensures
            r == task_args(self.program.std, *ty),
    {
        if let Ty::Named { name, args } = ty {
            if let TyList::Cons(out, rest) = args {
                if let TyList::Cons(err, end) = &**rest {
                    if let TyList::Nil = &**end {
                        if is_some_eq(self.program.std.task_struct, *name) {
                            return Some((copy_ty(out), copy_ty(err)));
                        }
                    }
                }
            }
        }
        None
    }

    /// The task types behind a non-null pointer to a task.
    pub fn task_tys_from_pointer_ty(&self, ty: &Ty) -> (r: Option<(Ty, Ty)>)
        ensures
            r == match *ty {
                Ty::Pointer { nullable: false, inner, .. } => task_args(self.program.std, *inner),
                _ => None,
            },
    {
        match ty {
            Ty::Pointer { nullable: false, inner, .. } => self.task_tys(inner),
            _ => None,
        }
    }

    /// The ok and error types of the standard result type.
    pub fn result_ok_err_tys(&self, ty: &Ty) -> (r: Option<(Ty, Ty)>)
        ensures
            r == result_args(self.program.std, *ty),
    {
        if let Ty::Named { name, args } = ty {
            if let TyList::Cons(ok, rest) = args {
                if let TyList::Cons(err, end) = &**rest {
                    if let TyList::Nil = &**end {
                        if is_some_eq(self.program.std.result_enum, *name) {
                            return Some((copy_ty(ok), copy_ty(err)));
                        }
                    }
                }
            }
        }
        None
    }

    /// The message type of a standard actor type.
    pub fn actor_message_ty_from_actor_ty(&self, actor_ty: &Ty) -> (r: Option<Ty>)
        ensures
            r == actor_message(self.program.std, *actor_ty),
    {
        if let Ty::Named { name, args } = actor_ty {
            if let TyList::Cons(m, end) = args {
                if let TyList::Nil = &**end {
                    if is_some_eq(self.program.std.actor_struct, *name) {
                        return Some(copy_ty(m));
                    }
                }
            }
        }
        None
    }

    /// The message type of the actor an actor spawn is expected to produce
    /// (a result whose ok type is an actor).
    pub fn actor_message_ty_from_spawn_expected(&self, expected: Option<&Ty>) -> (r: Option<Ty>)
        ensures
            r == match expected {
                Some(e) => match result_args(self.program.std, *e) {
                    Some((ok, _)) => actor_message(self.program.std, ok),
                    None => None,
                },
                None => None,
            },
    {
        let e = match expected {
            Some(e) => e,
            None => return None,
        };
        match self.result_ok_err_tys(e) {
            Some((ok, _)) => self.actor_message_ty_from_actor_ty(&ok),
            None => None,
        }
    }

    /// The message type of an actor handle argument, which must be a
    /// non-null pointer to an actor.
    pub fn actor_message_ty_from_pointer(&mut self, actor_ty: &Ty, span: Span) -> (r: Option<Ty>)
        ensures
            final(self).same_context(*old(self)),
            r == match *actor_ty {
                Ty::Pointer { nullable: false, inner, .. } => actor_message(old(self).program.std, *inner),
                _ => None,
            },
            final(self).diagnostics@ == if r is None {
                old(self).diagnostics@.push(diag(span, DiagKind::ActorHandleArgument { ty: *actor_ty }))
            } else {
                old(self).diagnostics@
            },
    {
        let message = match actor_ty {
            Ty::Pointer { nullable: false, inner, .. } => self.actor_message_ty_from_actor_ty(inner),
            _ => None,
        };
        if message.is_none() {
            self.report(span, DiagKind::ActorHandleArgument { ty: copy_ty(actor_ty) });
        }
        message
    }

    /// The output type of the task a spawn is expected to produce: the
    /// expected type must be a result of a task with the standard async
    /// error.
    pub fn task_output_from_spawn_expected(&self, expected: Option<&Ty>) -> (r: Option<Ty>)
        ensures
            r == match expected {
                Some(e) => match result_args(self.program.std, *e) {
                    Some((ok, err)) => if Some(err) == std_named(self.program.std.async_error_struct) {
                        match task_args(self.program.std, ok) {
                            Some((out, _)) => Some(out),
                            None => None,
                        }
                    } else {
                        None
                    },
                    None => None,
                },
                None => None,
            },
    {
        let e = match expected {
            Some(e) => e,
            None => return None,
        };
        let (ok, err) = match self.result_ok_err_tys(e) {
            Some(p) => p,
            None => return None,
        };
        if !opt_ty_eq(&err, &std_named_exec(self.program.std.async_error_struct)) {
            return None;
        }
        match self.task_tys(&ok) {
            Some((out, _)) => Some(out),
            None => None,
        }
    }

    fn first_awaitable_impl(&self, ty: &Ty) -> (r: Option<Ty>)
        ensures
            r == awaitable_impl_output(self.program, *ty),
    {
        let mut i: usize = 0;
        while i < self.program.impls.len()
            invariant
                i <= self.program.impls@.len(),
                forall|j: int| 0 <= j < i ==> !is_awaitable_impl_for(self.program, #[trigger] self.program.impls@[j], *ty),
            decreases self.program.impls@.len() - i,
        {
            let imp = &self.program.impls[i];
            if is_some_eq(self.program.std.awaitable_future, imp.interface) && imp.generics.len() == 0 {
                if let TyList::Cons(recv, rest) = &imp.args {
                    if let TyList::Cons(out, end) = &**rest {
                        if let TyList::Nil = &**end {
                            if known_ty_matches(recv, ty) {
                                proof {
                                    assert(is_awaitable_impl_for(self.program, self.program.impls@[i as int], *ty));
                                    let k = choose|k: int| 0 <= k < self.program.impls@.len() && is_awaitable_impl_for(self.program, #[trigger] self.program.impls@[k], *ty)
                                        && forall|j: int| 0 <= j < k ==> !is_awaitable_impl_for(self.program, #[trigger] self.program.impls@[j], *ty);
                                    if k < i {
                                        assert(!is_awaitable_impl_for(self.program, self.program.impls@[k], *ty));
                                    }
                                    if k > i {
                                        assert(!is_awaitable_impl_for(self.program, self.program.impls@[i as int], *ty));
                                    }
                                }
                                return Some(copy_ty(out));
                            }
                        }
                    }
                }
            }
            i += 1;
        }
        None
    }

    /// What awaiting a value of type `ty` produces (see
    /// [`awaitable_output`]).
    pub fn awaitable_output_ty(&self, ty: &Ty, span: Span) -> (r: Option<Ty>)
        ensures
            r == awaitable_output(self.program, *ty),
    {
        match ty {
            Ty::GeneratedFuture { output, .. } => Some(copy_ty(output)),
            _ => self.first_awaitable_impl(ty),
        }
    }

    /// [`TypeChecker::awaitable_output_ty`], as awaiting information.
    pub fn awaitable_ty(&self, ty: &Ty, span: Span) -> (r: Option<AwaitableInfo>)
        ensures
            r is Some <==> awaitable_output(self.program, *ty) is Some,
            r matches Some(info) ==> Some(info.output_ty) == awaitable_output(self.program, *ty),
    {
        match self.awaitable_output_ty(ty, span) {
            Some(output_ty) => Some(AwaitableInfo { output_ty }),
            None => None,
        }
    }

    /// What a future produces when it may take part in a `select`: it must be
    /// awaitable, cancel-safe and abortable.
    pub fn selectable_future_output_ty(&mut self, ty: &Ty, span: Span) -> (r: Option<Ty>)
        requires
            cache_valid(*old(self)),
        ensures
            r == match awaitable_output(old(self).program, *ty) {
                Some(out) => if (match old(self).program.std.cancel_safe_future {
                    Some(d) => implements(*old(self), d, TyList::Nil, *ty),
                    None => false,
                }) && (match old(self).program.std.abort_future {
                    Some(d) => implements(*old(self), d, TyList::Nil, *ty),
                    None => false,
                }) {
                    Some(out)
                } else {
                    None
                },
                None => None,
            },
            final(self).same_program_and_state(*old(self)),
            final(self).diagnostics == old(self).diagnostics,
            cache_valid(*final(self)),
    {
        let output = match self.awaitable_output_ty(ty, span) {
            Some(o) => o,
            None => return None,
        };
        let ghost start = *self;
        let cancel_safe = self.is_cancel_safe_ty(ty);
        let ghost mid = *self;
        if !cancel_safe {
            return None;
        }
        let abortable = self.is_abortable_ty(ty);
        proof {
            match old(self).program.std.abort_future {
                Some(d) => crate::capability::implements_depends_on_context(mid, start, d, TyList::Nil, *ty),
                None => {},
            }
        }
        if abortable {
            Some(output)
        } else {
            None
        }
    }

    /// The future of the standard sleep operation: cancel-safe, abortable and
    /// without state.
    pub fn async_sleep_future_ty(&self, output_ty: Ty) -> (r: Ty)
        ensures
            r == (Ty::GeneratedFuture {
                origin: FutureOrigin::Sleep,
                output: Box::new(output_ty),
                cancel_safe: true,
                abortable: true,
                affine_state: false,
                state: StateList::Nil,
            }),
    {
        Ty::GeneratedFuture {
            origin: FutureOrigin::Sleep,
            output: Box::new(output_ty),
            cancel_safe: true,
            abortable: true,
            affine_state: false,
            state: StateList::Nil,
        }
    }

    fn async_function_info(&self, def_id: u64) -> (r: (bool, bool))
        ensures
            r == function_async_info(self.program, def_id),
    {
        let mut i: usize = 0;
        while i < self.program.async_functions.len()
            invariant
                i <= self.program.async_functions@.len(),
                forall|j: int| 0 <= j < i ==> (#[trigger] self.program.async_functions@[j]).def_id != def_id,
            decreases self.program.async_functions@.len() - i,
        {
            if self.program.async_functions[i].def_id == def_id {
                proof {
                    let k = choose|k: int| 0 <= k < self.program.async_functions@.len() && (#[trigger] self.program.async_functions@[k]).def_id == def_id
                        && forall|j: int| 0 <= j < k ==> (#[trigger] self.program.async_functions@[j]).def_id != def_id;
                    if k < i {
                        assert(self.program.async_functions@[k].def_id != def_id);
                    }
                    if k > i {
                        assert(self.program.async_functions@[i as int].def_id != def_id);
                    }
                }
                return (self.program.async_functions[i].cancel_safe, self.program.async_functions[i].abortable);
            }
            i += 1;
        }
        (false, true)
    }

    fn zip_state_exec(names: &Vec<u64>, start: usize, params: &TyList) -> (r: StateList)
        requires
            start <= names@.len(),
        ensures
            r == zip_state(names@.skip(start as int), *params),
        decreases params,
    {
        match params {
            TyList::Nil => StateList::Nil,
            TyList::Cons(h, t) => {
                if start >= names.len() {
                    return StateList::Nil;
                }
                assert(names@.skip(start as int).drop_first() =~= names@.skip(start + 1));
                StateList::Cons(StateKey::Field(names[start]), Box::new(copy_ty(h)), Box::new(Self::zip_state_exec(names, start + 1, t)))
            },
        }
    }

    /// The future of an `async` function: its parameters (named) are its
    /// state; its cancellation properties are recorded per function
    /// (by default not cancel-safe and abortable).
    pub fn async_function_future_ty(&self, def_id: u64, output_ty: Ty, params: &TyList, param_names: &Vec<u64>) -> (r: Ty)
        ensures
            r == (Ty::GeneratedFuture {
                origin: FutureOrigin::Function(def_id),
                output: Box::new(output_ty),
                cancel_safe: function_async_info(self.program, def_id).0,
                abortable: function_async_info(self.program, def_id).1,
                affine_state: crate::affine::affine_list(*self, *params),
                state: zip_state(param_names@, *params),
            }),
    {
        let affine_state = self.list_is_affine(params);
        let (cancel_safe, abortable) = self.async_function_info(def_id);
        assert(param_names@.skip(0) =~= param_names@);
        let state = Self::zip_state_exec(param_names, 0, params);
        Ty::GeneratedFuture {
            origin: FutureOrigin::Function(def_id),
            output: Box::new(output_ty),
            cancel_safe,
            abortable,
            affine_state,
            state,
        }
    }

    /// The future of an `async` closure instance.
    pub fn async_closure_future_ty(
        &self,
        id: u64,
        output_ty: Ty,
        cancel_safe: bool,
        abortable: bool,
        affine_state: bool,
        state: StateList,
    ) -> (r: Ty)
        ensures
            r == (Ty::GeneratedFuture {
                origin: FutureOrigin::Closure(id),
                output: Box::new(output_ty),
                cancel_safe,
                abortable,
                affine_state,
                state,
            }),
    {
        Ty::GeneratedFuture {
            origin: FutureOrigin::Closure(id),
            output: Box::new(output_ty),
            cancel_safe,
            abortable,
            affine_state,
            state,
        }
    }

    pub(crate) fn find_enum_of(&self, ty: &Ty) -> (r: Option<usize>)
        ensures
            r matches Some(i) ==> i < self.program.enums@.len() && enum_instance_of(self.program, *ty)
                == Some(self.program.enums@[i as int]),
            r is None ==> enum_instance_of(self.program, *ty) is None,
    {
        match ty {
            Ty::Named { name, args } => {
                let mut i: usize = 0;
                while i < self.program.enums.len()
                    invariant
                        *ty == (Ty::Named { name: *name, args: *args }),
                        i <= self.program.enums@.len(),
                        forall|j: int|
                            0 <= j < i ==> !is_enum_instance(#[trigger] self.program.enums@[j], *name, *args),
                    decreases self.program.enums@.len() - i,
                {
                    if self.program.enums[i].name == *name && tys_match(&self.program.enums[i].args, args) {
                        proof {
                            assert(is_enum_instance(self.program.enums@[i as int], *name, *args));
                            let k = enum_instance_index(self.program, *name, *args)->0;
                            if k < i {
                                assert(!is_enum_instance(self.program.enums@[k], *name, *args));
                            }
                            if k > i {
                                assert(!is_enum_instance(self.program.enums@[i as int], *name, *args));
                            }
                            assert(enum_instance_index(self.program, *name, *args) == Some(i as int));
                        }
                        return Some(i);
                    }
                    i += 1;
                }
                None
            },
            _ => None,
        }
    }

    fn is_std_error_value_exec(&self, ty: &Ty) -> (r: bool)
        ensures
            r == is_std_error_value(self.program.std, *ty),
    {
        opt_ty_eq(ty, &std_named_exec(self.program.std.dyn_error_struct))
            || opt_ty_eq(ty, &std_named_exec(self.program.std.report_struct))
            || opt_ty_eq(ty, &std_named_exec(self.program.std.async_error_struct))
    }

    /// Whether a task error type can carry async runtime failures: a
    /// standard error value, or an enum with a runtime, async or resource
    /// carrier variant.
    pub fn async_result_error_can_represent_runtime_failure(&self, err_ty: &Ty) -> (r: bool)
        ensures
            r == represents_runtime_failure(self.program, *err_ty),
    {
        if self.is_std_error_value_exec(err_ty) {
            return true;
        }
        let e = match self.find_enum_of(err_ty) {
            Some(e) => e,
            None => return false,
        };
        let variants = &self.program.enums[e].variants;
        let async_err = std_named_exec(self.program.std.async_error_struct);
        let resource_err = std_named_exec(self.program.std.resource_error_struct);
        let i64_ty = Some(Ty::I64);
        let mut i: usize = 0;
        while i < variants.len()
            invariant
                e < self.program.enums@.len(),
                enum_instance_of(self.program, *err_ty) == Some(self.program.enums@[e as int]),
                !is_std_error_value(self.program.std, *err_ty),
                variants@ == self.program.enums@[e as int].variants@,
                async_err == std_named(self.program.std.async_error_struct),
                resource_err == std_named(self.program.std.resource_error_struct),
                i64_ty == Some(Ty::I64),
                i <= variants@.len(),
                forall|j: int| 0 <= j < i ==> !({
                    let v = #[trigger] variants@[j];
                    ||| (v.name == self.program.std.runtime_variant && v.payload == one(Ty::I64))
                    ||| ((v.name == self.program.std.async_variant || v.name == self.program.std.task_group_async_variant)
                        && payload_is(v.payload, std_named(self.program.std.async_error_struct)))
                    ||| (v.name == self.program.std.resource_variant && payload_is(v.payload, std_named(self.program.std.resource_error_struct)))
                }),
            decreases variants@.len() - i,
        {
            let v = &variants[i];
            let std = &self.program.std;
            if (v.name == std.runtime_variant && payload_is_exec(&v.payload, &i64_ty))
                || ((v.name == std.async_variant || v.name == std.task_group_async_variant) && payload_is_exec(&v.payload, &async_err))
                || (v.name == std.resource_variant && payload_is_exec(&v.payload, &resource_err)) {
                assert(payload_is(v.payload, Some(Ty::I64)) == (v.payload == one(Ty::I64)));
                assert(self.program.enums@[e as int].variants@[i as int] == *v);
                return true;
            }
            assert(payload_is(v.payload, Some(Ty::I64)) == (v.payload == one(Ty::I64)));
            i += 1;
        }
        false
    }

    /// Whether a task error type can carry message-clone failures: a
    /// standard error value, or an enum with a message-clone, async or
    /// task-group carrier variant.
    pub fn async_result_error_can_represent_message_clone_failure(&self, err_ty: &Ty) -> (r: bool)
        ensures
            r == represents_message_clone_failure(self.program, *err_ty),
    {
        if self.is_std_error_value_exec(err_ty) {
            return true;
        }
        let e = match self.find_enum_of(err_ty) {
            Some(e) => e,
            None => return false,
        };
        let variants = &self.program.enums[e].variants;
        let async_err = std_named_exec(self.program.std.async_error_struct);
        let report = std_named_exec(self.program.std.report_struct);
        let mut i: usize = 0;
        while i < variants.len()
            invariant
                e < self.program.enums@.len(),
                enum_instance_of(self.program, *err_ty) == Some(self.program.enums@[e as int]),
                !is_std_error_value(self.program.std, *err_ty),
                variants@ == self.program.enums@[e as int].variants@,
                async_err == std_named(self.program.std.async_error_struct),
                report == std_named(self.program.std.report_struct),
                i <= variants@.len(),
                forall|j: int| 0 <= j < i ==> !({
                    let v = #[trigger] variants@[j];
                    ||| (v.name == self.program.std.message_clone_variant && payload_is(v.payload, std_named(self.program.std.report_struct)))
                    ||| ((v.name == self.program.std.async_variant || v.name == self.program.std.task_group_async_variant)
                        && payload_is(v.payload, std_named(self.program.std.async_error_struct)))
                }),
            decreases variants@.len() - i,
        {
            let v = &variants[i];
            let std = &self.program.std;
            if (v.name == std.message_clone_variant && payload_is_exec(&v.payload, &report))
                || ((v.name == std.async_variant || v.name == std.task_group_async_variant) && payload_is_exec(&v.payload, &async_err)) {
                assert(self.program.enums@[e as int].variants@[i as int] == *v);
                return true;
            }
            i += 1;
        }
        false
    }

    /// Reports a (known) task error type that cannot carry runtime failures
    /// or message-clone failures.
    pub fn check_task_error_carriers(&mut self, error_ty: &Ty, span: Span)
        ensures
            final(self).same_context(*old(self)),
            final(self).diagnostics@ == if has_generic(*error_ty) || has_hole(*error_ty) {
                old(self).diagnostics@
            } else {
                old(self).diagnostics@ + (if represents_runtime_failure(old(self).program, *error_ty) {
                    Seq::empty()
                } else {
                    seq![diag(span, DiagKind::TaskErrorWithoutRuntimeCarrier { ty: *error_ty })]
                }) + (if represents_message_clone_failure(old(self).program, *error_ty) {
                    Seq::empty()
                } else {
                    seq![diag(span, DiagKind::TaskErrorWithoutMessageCloneCarrier { ty: *error_ty })]
                })
            },
    {
        if contains_generic(error_ty) || contains_type_hole(error_ty) {
            return ;
        }
        let ghost d0 = self.diagnostics@;
        let runtime = self.async_result_error_can_represent_runtime_failure(error_ty);
        if !runtime {
            self.report(span, DiagKind::TaskErrorWithoutRuntimeCarrier { ty: copy_ty(error_ty) });
        }
        let clone = self.async_result_error_can_represent_message_clone_failure(error_ty);
        if !clone {
            self.report(span, DiagKind::TaskErrorWithoutMessageCloneCarrier { ty: copy_ty(error_ty) });
        }
        assert(self.diagnostics@ =~= d0 + (if runtime {
            Seq::empty()
        } else {
            seq![diag(span, DiagKind::TaskErrorWithoutRuntimeCarrier { ty: *error_ty })]
        }) + (if clone {
            Seq::empty()
        } else {
            seq![diag(span, DiagKind::TaskErrorWithoutMessageCloneCarrier { ty: *error_ty })]
        }));
    }

    /// Rejects erasing a nullable error receiver, or a resource (the value
    /// itself or, for a pointer, its pointee), into a dynamic error value;
    /// returns whether it was rejected.
    pub fn reject_error_erasure(&mut self, span: Span, concrete_ty: &Ty, target_ty: &Ty) -> (r: bool)
        ensures
            final(self).same_context(*old(self)),
            r == ((*concrete_ty matches Ty::Pointer { nullable: true, .. }) || affine(*old(self), *concrete_ty)
                || affine(*old(self), receiver_of(*concrete_ty))),
            final(self).diagnostics@ == if *concrete_ty matches Ty::Pointer { nullable: true, .. } {
                old(self).diagnostics@.push(diag(span, DiagKind::NullableErrorErasure { concrete: *concrete_ty, target: *target_ty }))
            } else if affine(*old(self), *concrete_ty) {
                old(self).diagnostics@.push(diag(span, DiagKind::ResourceErrorErasure { concrete: *concrete_ty, target: *target_ty }))
            } else if affine(*old(self), receiver_of(*concrete_ty)) {
                old(self).diagnostics@.push(
                    diag(span, DiagKind::ResourceErrorErasure { concrete: receiver_of(*concrete_ty), target: *target_ty }),
                )
            } else {
                old(self).diagnostics@
            },
    {
        if let Ty::Pointer { nullable: true, .. } = concrete_ty {
            self.report(span, DiagKind::NullableErrorErasure { concrete: copy_ty(concrete_ty), target: copy_ty(target_ty) });
            return true;
        }
        if self.type_is_affine(concrete_ty) {
            self.report(span, DiagKind::ResourceErrorErasure { concrete: copy_ty(concrete_ty), target: copy_ty(target_ty) });
            return true;
        }
        let receiver = receiver_ty_from_value_ty(concrete_ty);
        if self.type_is_affine(&receiver) {
            self.report(span, DiagKind::ResourceErrorErasure { concrete: receiver, target: copy_ty(target_ty) });
            return true;
        }
        false
    }

    /// Reports a task result (or error) type that cannot cross the task
    /// boundary because it is not a message.
    pub fn check_task_result_payload_boundary(&mut self, payload_ty: &Ty, is_error: bool, span: Span)
        requires
            cache_valid(*old(self)),
        ensures
            final(self).same_program_and_state(*old(self)),
            cache_valid(*final(self)),
            final(self).diagnostics@ == if is_message(*old(self), *payload_ty) {
                old(self).diagnostics@
            } else {
                old(self).diagnostics@.push(diag(span, DiagKind::TaskPayloadNotMessage { ty: *payload_ty, is_error }))
            },
    {
        if !self.type_implements_message(payload_ty) {
            let ghost before = *self;
            self.report(span, DiagKind::TaskPayloadNotMessage { ty: copy_ty(payload_ty), is_error });
            proof {
                crate::capability::lemma_cache_valid_context(before, *self);
            }
        }
    }

    /// Reports a channel payload type that is not a message.
    pub fn check_channel_payload_message(&mut self, payload_ty: &Ty, span: Span)
        requires
            cache_valid(*old(self)),
        ensures
            final(self).same_program_and_state(*old(self)),
            cache_valid(*final(self)),
            final(self).diagnostics@ == if is_message(*old(self), *payload_ty) {
                old(self).diagnostics@
            } else {
                old(self).diagnostics@.push(diag(span, DiagKind::ChannelPayloadNotMessage { ty: *payload_ty }))
            },
    {
        if !self.type_implements_message(payload_ty) {
            let ghost before = *self;
            self.report(span, DiagKind::ChannelPayloadNotMessage { ty: copy_ty(payload_ty) });
            proof {
                crate::capability::lemma_cache_valid_context(before, *self);
            }
        }
    }

    /// Checks awaiting a task: its result and error must be messages and its
    /// error type must carry runtime and message-clone failures.
    pub fn check_task_await_boundary(&mut self, task_ty: &Ty, span: Span)
        requires
            cache_valid(*old(self)),
        ensures
            final(self).same_program_and_state(*old(self)),
            cache_valid(*final(self)),
            final(self).diagnostics@ == match task_args(old(self).program.std, *task_ty) {
                None => old(self).diagnostics@,
                Some((out, err)) => old(self).diagnostics@
                    + (if is_message(*old(self), out) { Seq::empty() } else {
                        seq![diag(span, DiagKind::TaskPayloadNotMessage { ty: out, is_error: false })]
                    })
                    + (if is_message(*old(self), err) { Seq::empty() } else {
                        seq![diag(span, DiagKind::TaskPayloadNotMessage { ty: err, is_error: true })]
                    })
                    + (if has_generic(err) || has_hole(err) { Seq::empty() } else {
                        (if represents_runtime_failure(old(self).program, err) { Seq::empty() } else {
                            seq![diag(span, DiagKind::TaskErrorWithoutRuntimeCarrier { ty: err })]
                        }) + (if represents_message_clone_failure(old(self).program, err) { Seq::empty() } else {
                            seq![diag(span, DiagKind::TaskErrorWithoutMessageCloneCarrier { ty: err })]
                        })
                    }),
            },
    {
        let (out, err) = match self.task_tys(task_ty) {
            Some(p) => p,
            None => return ,
        };
        let ghost start = *self;
        self.check_task_result_payload_boundary(&out, false, span);
        let ghost m1 = *self;
        proof {
            lemma_is_message_context(start, m1, err);
        }
        self.check_task_result_payload_boundary(&err, true, span);
        let ghost m2 = *self;
        self.check_task_error_carriers(&err, span);
        proof {
            crate::capability::lemma_cache_valid_context(m2, *self);
            let d_out: Seq<Diagnostic> = if is_message(start, out) { Seq::empty() } else {
                seq![diag(span, DiagKind::TaskPayloadNotMessage { ty: out, is_error: false })]
            };
            let d_err: Seq<Diagnostic> = if is_message(start, err) { Seq::empty() } else {
                seq![diag(span, DiagKind::TaskPayloadNotMessage { ty: err, is_error: true })]
            };
            assert(m1.diagnostics@ =~= start.diagnostics@ + d_out);
            assert(m2.diagnostics@ =~= start.diagnostics@ + d_out + d_err);
        }
    }
}

proof fn lemma_is_message_context(a: TypeChecker, b: TypeChecker, t: Ty)
    requires
        a.program == b.program,
        a.state.resource_generic_stack == b.state.resource_generic_stack,
    ensures
        is_message(a, t) == is_message(b, t),
{
    crate::capability::lemma_affine_context_pub(a, b, t);
    if let Some(d) = a.program.std.message_clone {
        crate::capability::implements_depends_on_context(a, b, d, TyList::Nil, t);
    }
}

} // verus!
