use lib::capability::ImplSearch;
use lib::checker::GenericInfo;
use lib::checker::{
    CheckerState, FieldInfo, ImplSig, OpaqueBinding, OpaqueReturnState, Program, StdDefs,
    StructInstance, TypeChecker,
};
use lib::diag::{text_from_str, DiagKind, Diagnostic, IdList, Span};
use lib::checker::{ModuleInfo, NameEntry};
use lib::generic::Binding;
use lib::texpr::{TExpr, TExprKind};
use lib::ty::{Bounds, CapList, StateList, Ty, TyList, ViewMutability, FutureOrigin};

const MESSAGE: u64 = 900;
const THREAD_LOCAL: u64 = 901;
const FRAME_OPT_IN: u64 = 902;
const TASK: u64 = 910;
const RESULT: u64 = 911;
const FUTURE: u64 = 912;
const ERROR: u64 = 913;
const REPORT: u64 = 914;
const ASYNC_ERROR: u64 = 915;
const REPR: u64 = 916;
const MARKER: u64 = 917;
const ACTOR: u64 = 918;
const HANDLE: u64 = 920;

fn std_defs() -> StdDefs {
    StdDefs {
        message_clone: Some(MESSAGE),
        message_capability: None,
        share_handle: None,
        thread_local: Some(THREAD_LOCAL),
        async_frame_opt_in: Some(FRAME_OPT_IN),
        awaitable_future: None,
        cancel_safe_future: None,
        abort_future: None,
        spawnable_future: None,
        error_trait: None,
        error_witness: None,
        fn_value_marker: None,
        closure_value_marker: None,
        task_struct: Some(TASK),
        future_struct: Some(FUTURE),
        result_enum: Some(RESULT),
        dyn_error_struct: Some(ERROR),
        actor_struct: Some(ACTOR),
        report_struct: Some(REPORT),
        async_error_struct: Some(ASYNC_ERROR),
        resource_error_struct: None,
        runtime_variant: 1,
        async_variant: 2,
        task_group_async_variant: 3,
        resource_variant: 4,
        message_clone_variant: 5,
        future_state_marker: Some(MARKER),
        meta_repr_marker: Some(REPR),
        resource_handles: vec![HANDLE],
        ptr_field: 990,
        len_field: 991,
    }
}

fn program() -> Program {
    Program {
        structs: vec![],
        struct_templates: vec![],
        enums: vec![],
        enum_templates: vec![],
        opaque_structs: vec![],
        impls: vec![],
        functions: vec![],
        interfaces: vec![],
        receiver_selectors: vec![],
        modules: vec![],
        meta_sops: vec![],
        names: vec![],
        async_functions: vec![],
        std: std_defs(),
    }
}

fn checker(p: Program) -> TypeChecker {
    TypeChecker {
        program: p,
        state: CheckerState {
            unsafe_depth: 0,
            async_depth: 0,
            resource_generic_stack: vec![],
            hole_solutions: vec![],
            next_type_hole_id: 0,
            opaque_returns: vec![],
            current_opaque_return: None,
            symbolic_depth: 0,
            loop_depth: 0,
        },
        diagnostics: vec![],
        capability_cache: vec![],
        capability_epoch: 0,
    }
}

fn list(tys: Vec<Ty>) -> TyList {
    let mut l = TyList::Nil;
    for t in tys.into_iter().rev() {
        l = TyList::Cons(Box::new(t), Box::new(l));
    }
    l
}

fn named(name: u64, args: Vec<Ty>) -> Ty {
    Ty::Named { name, args: list(args) }
}

fn ptr(inner: Ty) -> Ty {
    Ty::Pointer { nullable: false, mutability: ViewMutability::Mutable, inner: Box::new(inner) }
}

fn sp(start: u32, end: u32) -> Span {
    Span { start, end }
}

fn expr(ty: Ty, kind: TExprKind) -> TExpr {
    TExpr { span: sp(0, 1), ty, kind }
}


fn message_impl(t: Ty) -> ImplSig {
    ImplSig { module: 0, interface: MESSAGE, args: list(vec![t]), generics: vec![] }
}


fn no_bounds() -> Bounds {
    Bounds { positive: CapList::Nil, negative: CapList::Nil }
}

fn requires_message() -> Bounds {
    Bounds { positive: CapList::Cons(MESSAGE, Box::new(TyList::Nil), Box::new(CapList::Nil)), negative: CapList::Nil }
}

fn opaque(def_id: u64, bounds: Bounds) -> Ty {
    Ty::OpaqueReturn { def_id, key_args: TyList::Nil, bounds }
}

// ---- inference holes ----

#[test]
fn unification_checks_list_lengths_before_binding() {
    let mut tc = checker(program());
    let e = named(1, vec![Ty::Hole(1), Ty::Hole(2)]);
    let a = named(1, vec![Ty::I32]);
    assert!(!tc.unify_type_holes(&e, &a));
    assert!(tc.state.hole_solutions.is_empty());
}

#[test]
fn holes_on_both_sides_are_solved_in_order() {
    let mut tc = checker(program());
    let e = named(1, vec![Ty::Hole(1), Ty::Bool]);
    let a = named(1, vec![Ty::I8, Ty::Hole(2)]);
    assert!(tc.unify_type_holes(&e, &a));
    assert_eq!(tc.resolve_type_holes(&e), named(1, vec![Ty::I8, Ty::Bool]));
    assert_eq!(tc.resolve_type_holes(&a), named(1, vec![Ty::I8, Ty::Bool]));
}

#[test]
fn conflicting_solutions_fail() {
    let mut tc = checker(program());
    assert!(tc.bind_type_hole(1, &Ty::I32));
    assert!(!tc.bind_type_hole(1, &Ty::Bool));
    assert_eq!(tc.resolve_type_holes(&Ty::Hole(1)), Ty::I32);
    assert!(tc.bind_type_hole(1, &Ty::Unknown));
}

#[test]
fn constraint_bound_arguments_are_resolved() {
    let mut tc = checker(program());
    tc.bind_type_hole(5, &Ty::U32);
    let b = Bounds {
        positive: CapList::Cons(7, Box::new(list(vec![Ty::Hole(5)])), Box::new(CapList::Nil)),
        negative: CapList::Nil,
    };
    let r = tc.resolve_constraint_bounds_type_holes(&b);
    assert_eq!(r.positive, CapList::Cons(7, Box::new(list(vec![Ty::U32])), Box::new(CapList::Nil)));
}

#[test]
fn partial_inference_gives_each_generic_one_hole() {
    let mut tc = checker(program());
    tc.state.next_type_hole_id = 10;
    let mut holes: Vec<Binding> = vec![];
    let t = named(1, vec![Ty::Generic(3), ptr(Ty::Generic(3)), Ty::Generic(4)]);
    let r = tc.partial_inference_ty(&t, &mut holes);
    assert_eq!(r, named(1, vec![Ty::Hole(10), ptr(Ty::Hole(10)), Ty::Hole(11)]));
    assert_eq!(tc.state.next_type_hole_id, 12);
    assert_eq!(holes.len(), 2);
    let again = tc.partial_inference_ty(&Ty::Generic(4), &mut holes);
    assert_eq!(again, Ty::Hole(11));
}

// ---- assignability and opaque returns ----

#[test]
fn assignability_mismatch_is_reported() {
    let mut tc = checker(program());
    tc.require_assignable(&Ty::I32, &Ty::Bool, sp(2, 3));
    assert_eq!(
        tc.diagnostics,
        vec![Diagnostic { span: sp(2, 3), kind: DiagKind::TypeMismatch { expected: Ty::I32, actual: Ty::Bool, argument: None } }]
    );
    tc.require_assignable_argument(&Ty::U8, &Ty::Bool, sp(4, 5), Some(9));
    assert_eq!(tc.diagnostics[1].kind, DiagKind::TypeMismatch { expected: Ty::U8, actual: Ty::Bool, argument: Some(9) });
}

#[test]
fn assignability_solves_holes() {
    let mut tc = checker(program());
    tc.require_assignable(&ptr(Ty::Hole(3)), &ptr(Ty::U16), sp(0, 1));
    assert!(tc.diagnostics.is_empty());
    assert_eq!(tc.resolve_type_holes(&Ty::Hole(3)), Ty::U16);
}

#[test]
fn opaque_returns_lower_to_their_recorded_type() {
    let mut tc = checker(program());
    tc.state.opaque_returns.push(OpaqueBinding { def_id: 4, key_args: TyList::Nil, concrete: Ty::I64 });
    let o = opaque(4, no_bounds());
    assert_eq!(tc.opaque_return_concrete_ty(&o), Some(Ty::I64));
    assert_eq!(tc.lower_opaque_returns_in_ty(&ptr(opaque(4, no_bounds()))), ptr(Ty::I64));
    assert_eq!(tc.lower_opaque_returns_in_ty(&opaque(5, no_bounds())), opaque(5, no_bounds()));
}

#[test]
fn first_concrete_type_of_an_opaque_return_is_recorded() {
    let mut p = program();
    p.impls.push(message_impl(Ty::I32));
    let mut tc = checker(p);
    tc.state.current_opaque_return = Some(OpaqueReturnState {
        opaque_ty: opaque(6, requires_message()),
        concrete_ty: None,
        saw_recursive_concrete_ty: false,
    });
    tc.record_opaque_return_ty(&opaque(6, requires_message()), &Ty::I32, sp(0, 1));
    assert!(tc.diagnostics.is_empty());
    assert_eq!(tc.state.current_opaque_return.as_ref().unwrap().concrete_ty, Some(Ty::I32));
    tc.record_opaque_return_ty(&opaque(6, requires_message()), &Ty::I32, sp(0, 1));
    assert!(tc.diagnostics.is_empty());
    tc.record_opaque_return_ty(&opaque(6, requires_message()), &Ty::Bool, sp(7, 8));
    assert_eq!(tc.diagnostics.len(), 2);
    assert_eq!(
        tc.diagnostics[1].kind,
        DiagKind::OpaqueReturnConflict { existing: Ty::I32, concrete: Ty::Bool }
    );
    assert_eq!(
        tc.diagnostics[0].kind,
        DiagKind::OpaqueReturnRequires { concrete: Ty::Bool, def_id: MESSAGE, args: TyList::Nil }
    );
}

// ---- capabilities ----

#[test]
fn ambiguous_generic_impls_are_reported() {
    let mut p = program();
    p.impls.push(ImplSig { module: 1, interface: 70, args: list(vec![ptr(Ty::Generic(1))]), generics: vec![GenericInfo { name: 1, is_resource: false, bounds: None }] });
    p.impls.push(ImplSig { module: 0, interface: 70, args: list(vec![Ty::Generic(2)]), generics: vec![GenericInfo { name: 2, is_resource: false, bounds: None }] });
    p.modules = vec![
        ModuleInfo { path: text_from_str("app"), imports: vec![] },
        ModuleInfo { path: text_from_str("app::net"), imports: vec![] },
    ];
    p.names = vec![NameEntry { id: 70, text: text_from_str("Codec") }];
    let mut tc = checker(p);
    let r = tc.instantiate_generic_impl(70, &list(vec![ptr(Ty::U8)]), sp(1, 2));
    assert!(matches!(r, ImplSearch::NotFound));
    let candidates = IdList::Cons(1, Box::new(IdList::Cons(0, Box::new(IdList::Nil))));
    assert_eq!(tc.diagnostics[0].kind, DiagKind::AmbiguousGenericImpls { interface: 70, candidates });
    assert_eq!(tc.diagnostic_message(&tc.diagnostics[0].kind), "ambiguous generic impls for interface `Codec`");
    assert_eq!(
        tc.diagnostic_notes(&tc.diagnostics[0].kind),
        vec![
            "candidate 1: generic impl declared in module `app::net`".to_string(),
            "candidate 2: generic impl declared in module `app`".to_string(),
        ]
    );
    let r = tc.instantiate_generic_impl(70, &list(vec![Ty::U8]), sp(1, 2));
    match r {
        ImplSearch::Found(i, s) => {
            assert_eq!(i, 1);
            assert_eq!(s, vec![Binding { name: 2, ty: Ty::U8 }]);
        }
        ImplSearch::NotFound => panic!("expected an implementation"),
    }
}

#[test]
fn exact_impls_win_over_generic_ones() {
    let mut p = program();
    p.impls.push(ImplSig { module: 0, interface: 71, args: list(vec![Ty::Generic(1)]), generics: vec![GenericInfo { name: 1, is_resource: false, bounds: None }] });
    p.impls.push(ImplSig { module: 0, interface: 71, args: list(vec![Ty::I16]), generics: vec![] });
    let mut tc = checker(p);
    match tc.instantiate_generic_impl_for_receiver(71, &TyList::Nil, &Ty::I16, sp(0, 1)) {
        ImplSearch::Found(i, s) => {
            assert_eq!(i, 1);
            assert!(s.is_empty());
        }
        ImplSearch::NotFound => panic!("expected an implementation"),
    }
    assert_eq!(tc.find_impl(71, &TyList::Nil, &Ty::I16), Some(1));
}

#[test]
fn closure_bounds_report_missing_capabilities() {
    let mut tc = checker(program());
    let ok = tc.closure_constraints_satisfied_by_ty(&requires_message(), &Ty::Bool, sp(0, 1), true);
    assert!(!ok);
    assert_eq!(
        tc.diagnostics,
        vec![Diagnostic {
            span: sp(0, 1),
            kind: DiagKind::ClosureConversionRequires { source: Ty::Bool, def_id: MESSAGE, args: TyList::Nil },
        }]
    );
    let ok = tc.closure_constraints_satisfied_by_ty(&requires_message(), &Ty::Bool, sp(0, 1), false);
    assert!(!ok);
    assert_eq!(tc.diagnostics.len(), 1);
}

#[test]
fn generic_arguments_must_satisfy_their_constraints() {
    let mut tc = checker(program());
    let generics = vec![
        GenericInfo { name: 1, is_resource: true, bounds: None },
        GenericInfo { name: 2, is_resource: false, bounds: Some(requires_message()) },
    ];
    let subst = vec![Binding { name: 1, ty: Ty::I32 }, Binding { name: 2, ty: Ty::Bool }];
    tc.check_generic_constraints(&generics, &subst, sp(3, 4));
    assert_eq!(tc.diagnostics[0].kind, DiagKind::NotResource { ty: Ty::I32 });
    assert_eq!(tc.diagnostics[1].kind, DiagKind::UnsatisfiedConstraint { ty: Ty::Bool, def_id: MESSAGE });
    assert_eq!(tc.diagnostics.len(), 2);
}

#[test]
fn thread_local_and_frame_markers_are_impls() {
    let mut p = program();
    p.impls.push(ImplSig { module: 0, interface: THREAD_LOCAL, args: list(vec![Ty::U64]), generics: vec![] });
    p.impls.push(ImplSig { module: 0, interface: FRAME_OPT_IN, args: list(vec![Ty::U64]), generics: vec![] });
    let mut tc = checker(p);
    assert!(tc.type_implements_thread_local(&Ty::U64));
    assert!(!tc.type_implements_thread_local(&Ty::U32));
    assert!(tc.type_implements_async_frame_opt_in(&Ty::U64));
}

// ---- values and resources ----

#[test]
fn never_typed_values_are_rejected() {
    let mut tc = checker(program());
    tc.reject_invalid_plain_value_type(&Ty::Never, sp(0, 1), 3);
    assert_eq!(tc.diagnostics[0].kind, DiagKind::NeverTypedValue { value_context: 3 });
    tc.reject_invalid_plain_value_type(&Ty::Array { len: 1, elem: Box::new(Ty::Never) }, sp(0, 1), 4);
    assert_eq!(tc.diagnostics[1].kind, DiagKind::ContainsNeverValue { value_context: 4 });
}

#[test]
fn resource_structs_need_a_resource_field() {
    let mut tc = checker(program());
    let fields = vec![FieldInfo { name: 1, ty: Ty::I32 }];
    tc.validate_resource_struct_fields(&named(12, vec![]), true, false, &fields, sp(0, 1));
    assert_eq!(tc.diagnostics[0].kind, DiagKind::ResourceStructWithoutResource { ty: named(12, vec![]) });
    let fields = vec![FieldInfo { name: 1, ty: named(HANDLE, vec![]) }];
    tc.validate_resource_struct_fields(&named(13, vec![]), false, false, &fields, sp(0, 1));
    assert_eq!(tc.diagnostics[1].kind, DiagKind::NonResourceStoresResource { ty: named(13, vec![]) });
    tc.validate_resource_struct_fields(&named(14, vec![]), true, false, &fields, sp(0, 1));
    assert_eq!(tc.diagnostics.len(), 2);
}

#[test]
fn erasing_nullable_or_resource_errors_is_rejected() {
    let mut tc = checker(program());
    let nullable = Ty::Pointer { nullable: true, mutability: ViewMutability::ReadOnly, inner: Box::new(Ty::I32) };
    assert!(tc.reject_error_erasure(sp(0, 1), &nullable, &named(ERROR, vec![])));
    assert!(matches!(tc.diagnostics[0].kind, DiagKind::NullableErrorErasure { .. }));
    assert!(tc.reject_error_erasure(sp(0, 1), &named(HANDLE, vec![]), &named(ERROR, vec![])));
    assert!(!tc.reject_error_erasure(sp(0, 1), &Ty::I32, &named(ERROR, vec![])));
    assert_eq!(tc.diagnostics.len(), 2);
}

// ---- async types ----

#[test]
fn generated_futures_await_to_their_output() {
    let tc = checker(program());
    let f = Ty::GeneratedFuture {
        origin: FutureOrigin::Sleep,
        output: Box::new(Ty::Bool),
        cancel_safe: true,
        abortable: true,
        affine_state: false,
        state: StateList::Nil,
    };
    assert_eq!(tc.awaitable_output_ty(&f, sp(0, 1)), Some(Ty::Bool));
    assert_eq!(tc.awaitable_output_ty(&Ty::I32, sp(0, 1)), None);
    assert_eq!(tc.async_sleep_future_ty(Ty::Bool), f);
}

#[test]
fn actor_handles_must_be_pointers_to_actors() {
    let mut tc = checker(program());
    assert_eq!(tc.actor_message_ty_from_pointer(&ptr(named(ACTOR, vec![Ty::U8])), sp(0, 1)), Some(Ty::U8));
    assert_eq!(tc.actor_message_ty_from_pointer(&named(ACTOR, vec![Ty::U8]), sp(0, 1)), None);
    assert_eq!(tc.diagnostics[0].kind, DiagKind::ActorHandleArgument { ty: named(ACTOR, vec![Ty::U8]) });
}

#[test]
fn awaited_tasks_need_message_payloads() {
    let mut p = program();
    p.impls.push(message_impl(Ty::I32));
    let mut tc = checker(p);
    tc.check_task_await_boundary(&named(TASK, vec![Ty::I32, named(ASYNC_ERROR, vec![])]), sp(0, 1));
    assert_eq!(
        tc.diagnostics,
        vec![Diagnostic {
            span: sp(0, 1),
            kind: DiagKind::TaskPayloadNotMessage { ty: named(ASYNC_ERROR, vec![]), is_error: true },
        }]
    );
    let _ = StructInstance { name: 0, args: TyList::Nil, fields: vec![], is_resource: false, is_unsafe: false };
}

#[test]
fn generic_impls_whose_constraints_fail_are_not_candidates() {
    let mut p = program();
    p.impls.push(ImplSig {
        module: 0,
        interface: 72,
        args: list(vec![Ty::Generic(1)]),
        generics: vec![GenericInfo { name: 1, is_resource: false, bounds: Some(requires_message()) }],
    });
    p.impls.push(ImplSig {
        module: 0,
        interface: 72,
        args: list(vec![ptr(Ty::Generic(2))]),
        generics: vec![GenericInfo { name: 2, is_resource: false, bounds: None }],
    });
    let mut tc = checker(p);
    match tc.instantiate_generic_impl(72, &list(vec![ptr(Ty::Bool)]), sp(0, 1)) {
        ImplSearch::Found(i, s) => {
            assert_eq!(i, 1);
            assert_eq!(s, vec![Binding { name: 2, ty: Ty::Bool }]);
        }
        ImplSearch::NotFound => panic!("expected an implementation"),
    }
    assert!(tc.diagnostics.is_empty());
}

// ---- generic inference ----

fn b(name: u64, ty: Ty) -> Binding {
    Binding { name, ty }
}

#[test]
fn inference_binds_generics_through_pointers() {
    let mut tc = checker(program());
    let mut g = vec![];
    assert!(tc.unify_ty_for_inference(&ptr(Ty::Generic(5)), &ptr(Ty::I32), &mut g));
    assert_eq!(g, vec![b(5, Ty::I32)]);
}

#[test]
fn inference_checks_existing_bindings() {
    let mut tc = checker(program());
    let mut g = vec![b(5, Ty::I32)];
    assert!(tc.unify_ty_for_inference(&Ty::Generic(5), &Ty::I32, &mut g));
    assert!(!tc.unify_ty_for_inference(&named(1, vec![Ty::Generic(5)]), &named(1, vec![Ty::Bool]), &mut g));
    assert_eq!(g, vec![b(5, Ty::I32)]);
}

#[test]
fn inference_solves_a_hole_a_binding_stands_for() {
    let mut tc = checker(program());
    let mut g = vec![b(5, Ty::Hole(7))];
    assert!(tc.unify_ty_for_inference(&Ty::Generic(5), &Ty::U8, &mut g));
    assert_eq!(g, vec![b(5, Ty::Hole(7))]);
    assert_eq!(tc.resolve_type_holes(&Ty::Hole(7)), Ty::U8);
}

#[test]
fn inference_rebinds_a_binding_to_its_resolved_form() {
    let mut tc = checker(program());
    let mut g = vec![b(5, Ty::Generic(6)), b(6, Ty::Hole(7))];
    assert!(tc.unify_ty_for_inference(&Ty::Generic(5), &Ty::U8, &mut g));
    assert_eq!(g, vec![b(5, Ty::Generic(6)), b(6, Ty::U8)]);
    assert_eq!(tc.resolve_type_holes(&Ty::Hole(7)), Ty::U8);
}

#[test]
fn inference_replaces_a_self_binding() {
    let mut tc = checker(program());
    let mut g = vec![b(3, Ty::Bool), b(5, Ty::Generic(5))];
    assert!(tc.unify_ty_for_inference(&Ty::Generic(5), &Ty::Char, &mut g));
    assert_eq!(g, vec![b(3, Ty::Bool), b(5, Ty::Char)]);
}

#[test]
fn inference_solves_pattern_holes_and_weakens_views() {
    let mut tc = checker(program());
    let mut g = vec![];
    let pat = Ty::Slice { mutability: ViewMutability::ReadOnly, elem: Box::new(Ty::Hole(2)) };
    let arr = Ty::Array { len: 3, elem: Box::new(Ty::I16) };
    assert!(tc.unify_ty_for_inference(&pat, &arr, &mut g));
    assert_eq!(tc.resolve_type_holes(&Ty::Hole(2)), Ty::I16);
    let writable = Ty::Slice { mutability: ViewMutability::Mutable, elem: Box::new(Ty::I16) };
    assert!(!tc.unify_ty_for_inference(&writable, &Ty::Slice { mutability: ViewMutability::ReadOnly, elem: Box::new(Ty::I16) }, &mut g));
    assert!(g.is_empty());
}

#[test]
fn inference_stops_at_the_first_disagreeing_argument() {
    let mut tc = checker(program());
    let mut g = vec![];
    let pat = named(1, vec![Ty::Generic(1), Ty::Bool, Ty::Generic(2)]);
    let act = named(1, vec![Ty::I8, Ty::I32, Ty::U64]);
    assert!(!tc.unify_ty_for_inference(&pat, &act, &mut g));
    assert_eq!(g, vec![b(1, Ty::I8)]);
}

#[test]
fn inference_matches_closure_bounds_by_candidate() {
    let mut tc = checker(program());
    let mut g = vec![];
    let want = Bounds {
        positive: CapList::Cons(40, Box::new(list(vec![Ty::Generic(9)])), Box::new(CapList::Nil)),
        negative: CapList::Nil,
    };
    let have = Bounds {
        positive: CapList::Cons(
            41,
            Box::new(list(vec![Ty::Bool])),
            Box::new(CapList::Cons(40, Box::new(list(vec![Ty::U16])), Box::new(CapList::Nil))),
        ),
        negative: CapList::Nil,
    };
    let pat = Ty::Closure { ret: Box::new(Ty::Void), params: TyList::Nil, bounds: want };
    let act = Ty::Closure { ret: Box::new(Ty::Void), params: TyList::Nil, bounds: have };
    assert!(tc.unify_ty_for_inference(&pat, &act, &mut g));
    assert_eq!(g, vec![b(9, Ty::U16)]);
}

#[test]
fn storage_equivalence_is_symmetric_on_examples() {
    let tc = checker(program());
    let st = || Ty::OpaqueState { base: Box::new(Ty::I32), state: StateList::Nil };
    let pairs = vec![(st(), Ty::I32), (ptr(st()), ptr(Ty::I64)), (Ty::Bool, Ty::Bool)];
    for (l, r) in pairs {
        assert_eq!(tc.meta_repr_storage_equivalent(&l, &r), tc.meta_repr_storage_equivalent(&r, &l));
    }
    assert!(tc.meta_repr_storage_equivalent(&Ty::I32, &st()));
}

#[test]
fn receiver_parameters_unify_through_pointers() {
    let mut tc = checker(program());
    let mut g = vec![];
    assert!(tc.unify_receiver_param_for_inference(&ptr(Ty::Generic(3)), &ptr(Ty::I32), &mut g));
    assert_eq!(g, vec![b(3, Ty::I32)]);
    let mut g2 = vec![];
    assert!(tc.unify_receiver_param_for_inference(&ptr(Ty::Generic(3)), &Ty::I64, &mut g2));
    assert_eq!(g2, vec![b(3, Ty::I64)]);
    let mut g3 = vec![];
    assert!(!tc.unify_receiver_param_for_inference(&Ty::Bool, &ptr(Ty::Bool), &mut g3));
}
