use lib::boundary::{BoundaryReason, BoundaryViolation, PathStep};
use lib::place::{Place, PlaceKind};
use lib::checker::NameEntry;
use lib::diag::text_from_str;
use lib::checker::{
    CheckerState, EnumInstance, FieldInfo, ImplSig, InterfaceSig, Program, ReceiverSelectorSig,
    SelectorCallable, StdDefs, StructInstance, TypeChecker, VariantInfo,
};
use lib::diag::{DiagKind, Diagnostic, Span};
use lib::lvalue::{
    lvalue_root_local, nullable_comparison_local, nullable_narrowings_from_condition, CheckedLvalue,
    ReadOnlyReason,
};
use lib::selector::{
    dedup_receiver_selectors, interface_receiver_is_input, receiver_selector_adaptation,
    selector_pattern_assignable, unify_receiver_param, ReceiverAdaptation,
};
use lib::generic::Binding;
use lib::texpr::{
    BinaryOp, InitState, Literal, LocalBinding, LocalScopes, LvalueAccess, TExpr, TExprKind,
};
use lib::ty::{FutureOrigin, StateKey, StateList, Ty, TyList, ViewMutability};

const MESSAGE: u64 = 900;
const THREAD_LOCAL: u64 = 901;
const FRAME_OPT_IN: u64 = 902;
const TASK: u64 = 910;
const RESULT: u64 = 911;
const FUTURE: u64 = 912;
const ERROR: u64 = 913;
const REPORT: u64 = 914;
const ASYNC_ERROR: u64 = 915;
const REPR: u64 = 916;
const MARKER: u64 = 917;
const ACTOR: u64 = 918;
const HANDLE: u64 = 920;

fn std_defs() -> StdDefs {
    StdDefs {
        message_clone: Some(MESSAGE),
        message_capability: None,
        share_handle: None,
        thread_local: Some(THREAD_LOCAL),
        async_frame_opt_in: Some(FRAME_OPT_IN),
        awaitable_future: None,
        cancel_safe_future: None,
        abort_future: None,
        spawnable_future: None,
        error_trait: None,
        error_witness: None,
        fn_value_marker: None,
        closure_value_marker: None,
        task_struct: Some(TASK),
        future_struct: Some(FUTURE),
        result_enum: Some(RESULT),
        dyn_error_struct: Some(ERROR),
        actor_struct: Some(ACTOR),
        report_struct: Some(REPORT),
        async_error_struct: Some(ASYNC_ERROR),
        resource_error_struct: None,
        runtime_variant: 1,
        async_variant: 2,
        task_group_async_variant: 3,
        resource_variant: 4,
        message_clone_variant: 5,
        future_state_marker: Some(MARKER),
        meta_repr_marker: Some(REPR),
        resource_handles: vec![HANDLE],
        ptr_field: 990,
        len_field: 991,
    }
}

fn program() -> Program {
    Program {
        structs: vec![],
        struct_templates: vec![],
        enums: vec![],
        enum_templates: vec![],
        opaque_structs: vec![],
        impls: vec![],
        functions: vec![],
        interfaces: vec![],
        receiver_selectors: vec![],
        modules: vec![],
        meta_sops: vec![],
        names: vec![],
        async_functions: vec![],
        std: std_defs(),
    }
}

fn checker(p: Program) -> TypeChecker {
    TypeChecker {
        program: p,
        state: CheckerState {
            unsafe_depth: 0,
            async_depth: 0,
            resource_generic_stack: vec![],
            hole_solutions: vec![],
            next_type_hole_id: 0,
            opaque_returns: vec![],
            current_opaque_return: None,
            symbolic_depth: 0,
            loop_depth: 0,
        },
        diagnostics: vec![],
        capability_cache: vec![],
        capability_epoch: 0,
    }
}

fn list(tys: Vec<Ty>) -> TyList {
    let mut l = TyList::Nil;
    for t in tys.into_iter().rev() {
        l = TyList::Cons(Box::new(t), Box::new(l));
    }
    l
}

fn named(name: u64, args: Vec<Ty>) -> Ty {
    Ty::Named { name, args: list(args) }
}

fn ptr(inner: Ty) -> Ty {
    Ty::Pointer { nullable: false, mutability: ViewMutability::Mutable, inner: Box::new(inner) }
}

fn sp(start: u32, end: u32) -> Span {
    Span { start, end }
}

fn expr(ty: Ty, kind: TExprKind) -> TExpr {
    TExpr { span: sp(0, 1), ty, kind }
}


fn message_impl(t: Ty) -> ImplSig {
    ImplSig { module: 0, interface: MESSAGE, args: list(vec![t]), generics: vec![] }
}


fn local(id: u64, ty: Ty) -> TExpr {
    expr(ty, TExprKind::Local(id))
}

fn binding(id: u64, ty: Ty, mutable: bool, init_state: InitState) -> LocalBinding {
    LocalBinding {
        id,
        name: 100 + id,
        ty,
        flow_ty: None,
        narrowed_ty: None,
        init_state,
        mutable,
        captured: false,
        declared_loop_depth: 0,
    }
}

fn handle() -> Ty {
    named(HANDLE, vec![])
}

fn state1(key: StateKey, ty: Ty) -> StateList {
    StateList::Cons(key, Box::new(ty), Box::new(StateList::Nil))
}

fn future(output: Ty, state: StateList) -> Ty {
    Ty::GeneratedFuture {
        origin: FutureOrigin::Function(1),
        output: Box::new(output),
        cancel_safe: false,
        abortable: true,
        affine_state: false,
        state,
    }
}

// ---- binary operators ----

#[test]
fn logical_operators_require_bool_operands() {
    let mut tc = checker(program());
    let r = tc.check_binary(BinaryOp::And, &local(1, Ty::Bool), &local(2, Ty::I32), sp(0, 9));
    assert_eq!(r, Ty::Bool);
    assert_eq!(
        tc.diagnostics,
        vec![Diagnostic {
            span: sp(0, 1),
            kind: DiagKind::TypeMismatch { expected: Ty::Bool, actual: Ty::I32, argument: None },
        }]
    );
}

#[test]
fn comparing_unrelated_types_is_reported() {
    let mut tc = checker(program());
    let r = tc.check_binary(BinaryOp::Eq, &local(1, Ty::Bool), &local(2, Ty::I32), sp(3, 9));
    assert_eq!(r, Ty::Bool);
    assert_eq!(tc.diagnostics[0].kind, DiagKind::CannotCompare { left: Ty::Bool, right: Ty::I32 });
    let slice = Ty::Slice { mutability: ViewMutability::ReadOnly, elem: Box::new(Ty::U8) };
    let mut tc = checker(program());
    tc.check_binary(BinaryOp::Ne, &local(1, ty_copy(&slice)), &local(2, slice), sp(3, 9));
    assert_eq!(tc.diagnostics, vec![Diagnostic { span: sp(3, 9), kind: DiagKind::AggregateComparison }]);
}

fn ty_copy(t: &Ty) -> Ty {
    lib::ty::copy_ty(t)
}

#[test]
fn arithmetic_keeps_the_left_type() {
    let mut tc = checker(program());
    let r = tc.check_binary(BinaryOp::Add, &local(1, Ty::I32), &local(2, Ty::I32), sp(0, 5));
    assert_eq!(r, Ty::I32);
    assert!(tc.diagnostics.is_empty());
    let r = tc.check_binary(BinaryOp::Rem, &local(1, Ty::Float64), &local(2, Ty::Float64), sp(0, 5));
    assert_eq!(r, Ty::Float64);
    assert_eq!(tc.diagnostics, vec![Diagnostic { span: sp(0, 1), kind: DiagKind::RemainderNeedsIntegers }]);
}

#[test]
fn bitwise_and_shift_operands_must_be_integers() {
    let mut tc = checker(program());
    tc.check_binary(BinaryOp::BitAnd, &local(1, Ty::Bool), &local(2, Ty::Bool), sp(0, 5));
    assert_eq!(tc.diagnostics[0].kind, DiagKind::BitwiseOperand { ty: Ty::Bool });
    let mut tc = checker(program());
    tc.check_binary(BinaryOp::Shl, &local(1, Ty::U8), &local(2, Ty::Bool), sp(0, 5));
    assert_eq!(tc.diagnostics, vec![Diagnostic { span: sp(0, 1), kind: DiagKind::ShiftCountNotInteger { ty: Ty::Bool } }]);
    let mut tc = checker(program());
    tc.check_binary(BinaryOp::Lt, &local(1, Ty::Bool), &local(2, Ty::Bool), sp(0, 5));
    assert_eq!(tc.diagnostics[0].kind, DiagKind::RelationalOperand { ty: Ty::Bool });
}

// ---- assignment targets and resource moves ----

fn scopes(bindings: Vec<LocalBinding>) -> LocalScopes {
    LocalScopes { bindings }
}

#[test]
fn immutable_locals_are_initialized_once() {
    let mut tc = checker(program());
    let s = scopes(vec![binding(1, Ty::I32, false, InitState::Unassigned), binding(2, Ty::I32, false, InitState::Assigned)]);
    let fresh = CheckedLvalue { expr: local(1, Ty::I32), access: LvalueAccess::ReadOnly, read_only_reason: None };
    assert!(tc.validate_assignment_target(&s, &fresh, sp(0, 1)));
    let again = CheckedLvalue { expr: local(2, Ty::I32), access: LvalueAccess::ReadOnly, read_only_reason: None };
    assert!(!tc.validate_assignment_target(&s, &again, sp(0, 1)));
    assert_eq!(tc.diagnostics, vec![Diagnostic { span: sp(0, 1), kind: DiagKind::InitImmutableTwice { name: 102 } }]);
    tc.state.loop_depth = 1;
    assert!(!tc.validate_assignment_target(&s, &fresh, sp(0, 1)));
    assert_eq!(tc.diagnostics[1].kind, DiagKind::InitImmutableInLoop { name: 101 });
}

#[test]
fn read_only_places_report_their_reason() {
    let mut tc = checker(program());
    let s = scopes(vec![]);
    let target = CheckedLvalue {
        expr: expr(Ty::I32, TExprKind::Other(vec![])),
        access: LvalueAccess::ReadOnly,
        read_only_reason: Some(ReadOnlyReason::ReadOnlyPointer),
    };
    assert!(!tc.validate_assignment_target(&s, &target, sp(4, 6)));
    assert_eq!(tc.diagnostics[0].kind, DiagKind::WriteThroughReadOnlyPointer);
    let writable = CheckedLvalue { expr: local(9, Ty::I32), access: LvalueAccess::Writable, read_only_reason: None };
    assert!(tc.validate_assignment_target(&s, &writable, sp(4, 6)));
}

#[test]
fn resource_parts_are_replaced_only_in_unsafe() {
    let mut tc = checker(program());
    let s = scopes(vec![]);
    let part = CheckedLvalue {
        expr: expr(handle(), TExprKind::Field { base: Box::new(local(1, Ty::I32)), field: 3 }),
        access: LvalueAccess::Writable,
        read_only_reason: None,
    };
    assert!(!tc.validate_assignment_target(&s, &part, sp(0, 2)));
    assert_eq!(tc.diagnostics[0].kind, DiagKind::ReplaceResourceSubvalue { ty: handle() });
    tc.state.unsafe_depth = 1;
    assert!(tc.validate_assignment_target(&s, &part, sp(0, 2)));
}

#[test]
fn moving_a_resource_local_marks_it_moved() {
    let mut tc = checker(program());
    let mut s = scopes(vec![binding(1, handle(), true, InitState::Assigned)]);
    let r = tc.consume_affine_expr(&mut s, local(1, handle()), false);
    assert_eq!(r, expr(handle(), TExprKind::Move(Box::new(local(1, handle())))));
    assert_eq!(s.bindings[0].init_state, InitState::Moved);
    assert!(tc.diagnostics.is_empty());
    tc.diagnose_prechecked_affine_expr_moved(&s, &local(1, handle()));
    assert_eq!(tc.diagnostics, vec![Diagnostic { span: sp(0, 1), kind: DiagKind::UseOfMovedResource { name: 101 } }]);
}

#[test]
fn resources_declared_outside_a_loop_stay_put() {
    let mut tc = checker(program());
    tc.state.loop_depth = 1;
    let mut s = scopes(vec![binding(1, handle(), true, InitState::Assigned)]);
    tc.consume_affine_expr(&mut s, local(1, handle()), false);
    assert_eq!(s.bindings[0].init_state, InitState::Assigned);
    assert_eq!(tc.diagnostics[0].kind, DiagKind::ResourceMovedInLoop { name: 101 });
    tc.consume_affine_expr(&mut s, local(1, handle()), true);
    assert_eq!(s.bindings[0].init_state, InitState::Moved);
}

#[test]
fn plain_values_are_used_as_they_are() {
    let mut tc = checker(program());
    let mut s = scopes(vec![binding(1, Ty::I32, true, InitState::Assigned)]);
    let r = tc.consume_affine_expr(&mut s, local(1, Ty::I32), false);
    assert_eq!(r, local(1, Ty::I32));
    assert_eq!(s.bindings[0].init_state, InitState::Assigned);
}

#[test]
fn resource_fields_move_only_in_unsafe_blocks() {
    let mut tc = checker(program());
    let mut s = scopes(vec![]);
    let field = expr(handle(), TExprKind::Field { base: Box::new(local(1, Ty::I32)), field: 2 });
    let block = expr(handle(), TExprKind::UnsafeBlock { statements: vec![], value: Some(Box::new(field)) });
    let r = tc.consume_affine_expr(&mut s, block, false);
    assert!(tc.diagnostics.is_empty());
    assert_eq!(tc.state.unsafe_depth, 0);
    match r.kind {
        TExprKind::UnsafeBlock { value: Some(v), .. } => assert!(matches!(v.kind, TExprKind::Move(_))),
        _ => panic!("unsafe block expected"),
    }
    let field = expr(handle(), TExprKind::Field { base: Box::new(local(1, Ty::I32)), field: 2 });
    tc.consume_affine_expr(&mut s, field, false);
    assert_eq!(tc.diagnostics[0].kind, DiagKind::MoveResourceSubvalue { ty: handle() });
}

// ---- nullable narrowing ----

fn nullable_ptr() -> Ty {
    Ty::Pointer { nullable: true, mutability: ViewMutability::Mutable, inner: Box::new(Ty::I32) }
}

fn null() -> TExpr {
    expr(Ty::Unknown, TExprKind::Literal(Literal::Null))
}

fn cmp(op: BinaryOp, left: TExpr, right: TExpr) -> TExpr {
    expr(Ty::Bool, TExprKind::Binary { op, left: Box::new(left), right: Box::new(right) })
}

#[test]
fn comparisons_with_null_narrow_pointers() {
    let narrowed = Ty::Pointer { nullable: false, mutability: ViewMutability::Mutable, inner: Box::new(Ty::I32) };
    let ne = cmp(BinaryOp::Ne, local(1, nullable_ptr()), null());
    assert_eq!(nullable_narrowings_from_condition(&ne, true), vec![(1, lib::ty::copy_ty(&narrowed))]);
    assert!(nullable_narrowings_from_condition(&ne, false).is_empty());
    let eq = cmp(BinaryOp::Eq, null(), local(2, nullable_ptr()));
    assert_eq!(nullable_narrowings_from_condition(&eq, false), vec![(2, lib::ty::copy_ty(&narrowed))]);
    let both = cmp(BinaryOp::And, ne, cmp(BinaryOp::Ne, local(3, nullable_ptr()), null()));
    let found = nullable_narrowings_from_condition(&both, true);
    assert_eq!(found.iter().map(|(id, _)| *id).collect::<Vec<_>>(), vec![1, 3]);
    assert!(nullable_comparison_local(&local(4, Ty::I32), &null()).is_none());
}

#[test]
fn place_roots_are_found_through_fields() {
    let place = expr(Ty::I32, TExprKind::Field { base: Box::new(local(7, Ty::I32)), field: 1 });
    assert_eq!(lvalue_root_local(&place), Some(7));
    assert_eq!(lvalue_root_local(&null()), None);
}

// ---- selector helpers ----

#[test]
fn receivers_fit_directly_or_by_address() {
    let param = ptr(named(50, vec![Ty::Generic(1)]));
    assert_eq!(receiver_selector_adaptation(&param, &ptr(named(50, vec![Ty::I32]))), Some(ReceiverAdaptation::Direct));
    assert_eq!(receiver_selector_adaptation(&param, &named(50, vec![Ty::I32])), Some(ReceiverAdaptation::Address));
    assert_eq!(receiver_selector_adaptation(&param, &Ty::I32), None);
    let read_only = Ty::Pointer { nullable: false, mutability: ViewMutability::ReadOnly, inner: Box::new(Ty::Generic(1)) };
    let mut s: Vec<Binding> = vec![];
    assert!(selector_pattern_assignable(&read_only, &ptr(Ty::U8), &mut s));
    assert_eq!(s, vec![Binding { name: 1, ty: Ty::U8 }]);
}

#[test]
fn receiver_parameters_match_through_one_pointer() {
    let mut s: Vec<Binding> = vec![];
    assert!(unify_receiver_param(&ptr(Ty::Generic(2)), &Ty::Bool, &mut s));
    assert_eq!(s, vec![Binding { name: 2, ty: Ty::Bool }]);
}

#[test]
fn repeated_selector_declarations_are_dropped() {
    let sel = |module: u64, start: u32| ReceiverSelectorSig {
        selector: 1,
        module,
        callable: SelectorCallable::Function(4),
        receiver_index: 0,
        exported: false,
        span: sp(start, start + 1),
    };
    let mut v = vec![sel(0, 1), sel(0, 2), sel(1, 3)];
    dedup_receiver_selectors(&mut v);
    assert_eq!(v.iter().map(|s| s.span.start).collect::<Vec<_>>(), vec![1, 3]);
}

#[test]
fn interface_receivers_are_inputs_when_parameters_mention_them() {
    let i = InterfaceSig { def_id: 1, generics: vec![5], params: list(vec![ptr(Ty::Generic(5))]) };
    assert!(interface_receiver_is_input(&i));
    let j = InterfaceSig { def_id: 1, generics: vec![5], params: list(vec![Ty::I32]) };
    assert!(!interface_receiver_is_input(&j));
}

// ---- task boundaries ----

fn root() -> Vec<PathStep> {
    vec![PathStep::Root(1)]
}

#[test]
fn messages_and_scalars_cross_task_boundaries() {
    let mut p = program();
    p.impls.push(message_impl(Ty::I32));
    let mut tc = checker(p);
    let mut visiting = vec![];
    assert!(tc.task_boundary_message_violation(&Ty::I32, &root(), &mut visiting).is_none());
    assert!(tc.task_boundary_message_violation(&Ty::Bool, &root(), &mut visiting).is_none());
    let v = tc.task_boundary_message_violation(&ptr(Ty::I32), &root(), &mut visiting).unwrap();
    assert_eq!(v.path, root());
    assert_eq!(v.reason, BoundaryReason::RawPointer { ty: ptr(Ty::I32), nullable: false });
}

#[test]
fn struct_fields_are_examined_first() {
    let mut p = program();
    p.structs.push(StructInstance {
        name: 30,
        args: TyList::Nil,
        fields: vec![FieldInfo { name: 1, ty: Ty::I32 }, FieldInfo { name: 2, ty: ptr(Ty::U8) }],
        is_resource: false,
        is_unsafe: false,
    });
    let mut tc = checker(p);
    let mut visiting = vec![];
    let v = tc.task_boundary_message_violation(&named(30, vec![]), &root(), &mut visiting).unwrap();
    assert_eq!(v.path, vec![PathStep::Root(1), PathStep::Member(StateKey::Field(2))]);
    assert_eq!(v.reason, BoundaryReason::RawPointer { ty: ptr(Ty::U8), nullable: false });
    assert!(visiting.is_empty());
}

#[test]
fn structs_without_message_capability_are_rejected() {
    let mut p = program();
    p.structs.push(StructInstance {
        name: 31,
        args: TyList::Nil,
        fields: vec![FieldInfo { name: 1, ty: Ty::Bool }],
        is_resource: false,
        is_unsafe: false,
    });
    let mut tc = checker(p);
    let mut visiting = vec![];
    let v = tc.task_boundary_message_violation(&named(31, vec![]), &root(), &mut visiting).unwrap();
    assert_eq!(v.reason, BoundaryReason::StructWithoutMessage { ty: named(31, vec![]) });
    tc.program.impls.push(message_impl(named(REPR, vec![named(31, vec![])])));
    assert!(tc.type_implements_structural_message_clone(&named(31, vec![])));
    assert!(tc.task_boundary_message_violation(&named(31, vec![]), &root(), &mut visiting).is_none());
}

#[test]
fn recursive_types_are_reported() {
    let mut p = program();
    p.structs.push(StructInstance {
        name: 32,
        args: TyList::Nil,
        fields: vec![FieldInfo { name: 1, ty: named(32, vec![]) }],
        is_resource: false,
        is_unsafe: false,
    });
    let mut tc = checker(p);
    let mut visiting = vec![];
    let v = tc.task_boundary_message_violation(&named(32, vec![]), &root(), &mut visiting).unwrap();
    assert_eq!(v.reason, BoundaryReason::Recursive { ty: named(32, vec![]) });
    assert_eq!(v.path.len(), 2);
}

#[test]
fn resources_need_a_policy_to_cross() {
    let mut tc = checker(program());
    let mut visiting = vec![];
    let v = tc.task_boundary_message_violation(&handle(), &root(), &mut visiting).unwrap();
    assert_eq!(v.reason, BoundaryReason::AffineWithoutMessagePolicy { ty: handle() });
    assert!(tc.task_boundary_future_state_violation(&handle(), &root(), &mut visiting).is_none());
    assert!(tc.task_boundary_affine_move_allowed(&handle(), &mut visiting));
    assert!(tc.task_boundary_component_move_allowed(&handle(), &mut visiting));
}

#[test]
fn future_state_is_examined_entry_by_entry() {
    let mut tc = checker(program());
    let f = future(Ty::I32, state1(StateKey::Field(4), ptr(Ty::I32)));
    let v = tc.spawnable_future_state_violation(&f, &root()).unwrap();
    assert_eq!(v.path, vec![PathStep::Root(1), PathStep::State(StateKey::Field(4))]);
    assert!(tc.spawnable_future_state_violation(&Ty::I32, &root()).is_none());
    let mut visiting = vec![];
    let v = tc.future_state_escape_violation(&f, &root(), &mut visiting).unwrap();
    assert_eq!(v.reason, BoundaryReason::RawPointer { ty: ptr(Ty::I32), nullable: false });
}

#[test]
fn erased_and_marker_state_is_handled() {
    let mut tc = checker(program());
    let mut visiting = vec![];
    assert!(tc.task_boundary_message_violation(&Ty::Void, &root(), &mut visiting).is_none());
    let v = tc.task_boundary_message_violation(&named(MARKER, vec![]), &root(), &mut visiting).unwrap();
    assert_eq!(v.reason, BoundaryReason::OpaqueFutureState);
    assert!(tc.future_state_escape_violation(&named(MARKER, vec![]), &root(), &mut visiting).is_none());
    let v = tc.task_boundary_message_violation(&named(ERROR, vec![]), &root(), &mut visiting).unwrap();
    assert_eq!(v.reason, BoundaryReason::DowncastableError);
}

// ---- future state flow ----

#[test]
fn call_results_carry_their_arguments_as_state() {
    let mut tc = checker(program());
    let fut = named(FUTURE, vec![Ty::I32]);
    let args = vec![
        local(1, ptr(Ty::U8)),
        local(2, Ty::Function { is_unsafe: false, c_abi: false, ret: Box::new(Ty::Void), params: TyList::Nil }),
    ];
    let r = tc.call_return_future_state_ty(&fut, &args);
    assert_eq!(r, Ty::OpaqueState { base: Box::new(named(FUTURE, vec![Ty::I32])), state: state1(StateKey::Argument(0), ptr(Ty::U8)) });
    assert_eq!(tc.call_return_future_state_ty(&Ty::I32, &args), Ty::I32);
    assert_eq!(tc.call_return_future_state_ty(&fut, &[]), named(FUTURE, vec![Ty::I32]));
}

#[test]
fn awaited_outputs_carry_the_future_state() {
    let mut tc = checker(program());
    let f = future(Ty::I32, state1(StateKey::Field(1), Ty::Bool));
    assert_eq!(tc.awaited_output_future_state_ty(&f, Ty::I32), Ty::I32);
    let out = named(FUTURE, vec![Ty::U8]);
    let r = tc.awaited_output_future_state_ty(&f, lib::ty::copy_ty(&out));
    assert_eq!(r, Ty::OpaqueState { base: Box::new(out), state: state1(StateKey::Field(1), Ty::Bool) });
}

#[test]
fn generated_futures_are_stored_as_standard_futures() {
    let mut tc = checker(program());
    let f = future(Ty::I32, StateList::Nil);
    let (storage, flow) = tc.storage_and_flow_ty(&f);
    assert_eq!(storage, named(FUTURE, vec![Ty::I32]));
    assert_eq!(flow, Some(future(Ty::I32, StateList::Nil)));
    let (storage, flow) = tc.external_storage_and_flow_ty(&named(FUTURE, vec![Ty::U8]), 7);
    assert_eq!(storage, named(FUTURE, vec![Ty::U8]));
    assert_eq!(
        flow,
        Some(Ty::OpaqueState {
            base: Box::new(named(FUTURE, vec![Ty::U8])),
            state: state1(StateKey::External(7), named(MARKER, vec![])),
        })
    );
    assert_eq!(tc.external_future_flow_ty(&Ty::I32, 7), None);
}

#[test]
fn arrays_of_futures_carry_element_state() {
    let mut tc = checker(program());
    let arr = Ty::Array { len: 2, elem: Box::new(named(FUTURE, vec![Ty::I32])) };
    let r = tc.external_future_flow_ty(&arr, 3).unwrap();
    match r {
        Ty::OpaqueState { state: StateList::Cons(StateKey::ElementAny, _, _), .. } => {}
        other => panic!("unexpected {:?}", other),
    }
}

#[test]
fn enums_are_examined_by_payload() {
    let mut p = program();
    p.enums.push(EnumInstance {
        name: 40,
        args: TyList::Nil,
        variants: vec![VariantInfo { name: 8, payload: list(vec![Ty::I32, ptr(Ty::I8)]) }],
    });
    let mut tc = checker(p);
    let mut visiting = vec![];
    let v = tc.task_boundary_message_violation(&named(40, vec![]), &root(), &mut visiting).unwrap();
    assert_eq!(v.path, vec![PathStep::Root(1), PathStep::Member(StateKey::Payload(8, 1))]);
}

#[test]
fn boundary_violations_read_as_paths() {
    let mut p = program();
    p.names = vec![
        NameEntry { id: 1, text: text_from_str("task payload") },
        NameEntry { id: 2, text: text_from_str("raw") },
        NameEntry { id: 30, text: text_from_str("Holder") },
        NameEntry { id: 40, text: text_from_str("Some") },
    ];
    p.structs.push(StructInstance {
        name: 30,
        args: TyList::Nil,
        fields: vec![FieldInfo { name: 2, ty: ptr(Ty::U8) }],
        is_resource: false,
        is_unsafe: false,
    });
    let mut tc = checker(p);
    let mut visiting = vec![];
    let v = tc.task_boundary_message_violation(&named(30, vec![]), &root(), &mut visiting).unwrap();
    assert_eq!(tc.boundary_violation_message(&v), "task payload.raw has raw pointer type `*u8`");
    let v2 = BoundaryViolation {
        path: vec![
            PathStep::Root(1),
            PathStep::State(StateKey::ElementAny),
            PathStep::Member(StateKey::Payload(40, 0)),
            PathStep::Element,
            PathStep::State(StateKey::Unnamed),
        ],
        reason: BoundaryReason::Recursive { ty: named(30, vec![]) },
    };
    assert_eq!(
        tc.boundary_violation_message(&v2),
        "task payload state `element *`.Some#0 element state is recursive through `Holder`"
    );
    let v3 = BoundaryViolation {
        path: vec![PathStep::Root(1)],
        reason: BoundaryReason::BorrowedSlice { ty: Ty::Slice { mutability: ViewMutability::Mutable, elem: Box::new(Ty::I8) }, mutable: true },
    };
    assert_eq!(tc.boundary_violation_message(&v3), "task payload has borrowed mutable slice type `[]i8`");
}

// ---- places ----

fn name_place(local: Option<u64>, display: u64) -> Place {
    Place { span: sp(4, 5), kind: PlaceKind::Name { local, display } }
}

fn scopes_of(bindings: Vec<LocalBinding>) -> LocalScopes {
    LocalScopes { bindings }
}

#[test]
fn names_are_places_by_their_binding() {
    let mut tc = checker(program());
    let scopes = scopes_of(vec![binding(1, Ty::I32, true, InitState::Assigned), binding(2, Ty::I32, false, InitState::Assigned)]);
    let r = tc.check_lvalue(&scopes, name_place(Some(1), 7), true).unwrap();
    assert_eq!(r, CheckedLvalue { expr: TExpr { span: sp(4, 5), ty: Ty::I32, kind: TExprKind::Local(1) }, access: LvalueAccess::Writable, read_only_reason: None });
    let r = tc.check_lvalue(&scopes, name_place(Some(2), 7), true).unwrap();
    assert_eq!(r.access, LvalueAccess::ReadOnly);
    assert_eq!(r.read_only_reason, Some(ReadOnlyReason::ImmutableBinding(102)));
    assert!(tc.diagnostics.is_empty());
    assert!(tc.check_lvalue(&scopes, name_place(None, 7), true).is_none());
    assert!(tc.check_lvalue(&scopes, name_place(Some(9), 8), true).is_none());
    assert_eq!(tc.diagnostics.len(), 2);
    assert_eq!(tc.diagnostics[0].kind, DiagKind::UnresolvedLocal { name: 7 });
    assert_eq!(tc.diagnostics[1].kind, DiagKind::UnresolvedLocal { name: 8 });
}

#[test]
fn unassigned_names_are_reported_when_required() {
    let mut tc = checker(program());
    let scopes = scopes_of(vec![binding(1, handle(), true, InitState::Moved), binding(2, Ty::I32, true, InitState::Unassigned)]);
    assert!(tc.check_lvalue(&scopes, name_place(Some(1), 7), true).is_some());
    assert!(tc.check_lvalue(&scopes, name_place(Some(2), 7), true).is_some());
    assert!(tc.check_lvalue(&scopes, name_place(Some(2), 7), false).is_some());
    assert_eq!(tc.diagnostics.len(), 2);
    assert_eq!(tc.diagnostics[0].kind, DiagKind::UseOfMovedResource { name: 101 });
    assert_eq!(tc.diagnostics[1].kind, DiagKind::NotDefinitelyAssigned { name: 102 });
}

#[test]
fn fields_share_the_access_of_their_base() {
    let mut tc = checker(program());
    let slice = Ty::Slice { mutability: ViewMutability::Mutable, elem: Box::new(Ty::U8) };
    let scopes = scopes_of(vec![binding(1, slice, false, InitState::Assigned)]);
    let pl = Place { span: sp(0, 9), kind: PlaceKind::Field { base: Box::new(name_place(Some(1), 7)), field: 991, field_span: sp(6, 9) } };
    let r = tc.check_lvalue(&scopes, pl, false).unwrap();
    assert_eq!(r.expr.ty, Ty::Usize);
    assert_eq!(r.access, LvalueAccess::ReadOnly);
    assert_eq!(r.read_only_reason, Some(ReadOnlyReason::ImmutableBinding(101)));
    let bad = Place { span: sp(0, 9), kind: PlaceKind::Field { base: Box::new(name_place(Some(1), 7)), field: 5, field_span: sp(6, 9) } };
    assert!(tc.check_lvalue(&scopes, bad, false).is_none());
    assert_eq!(tc.diagnostics.len(), 1);
}

#[test]
fn arrows_need_non_null_pointers() {
    let mut tc = checker(program());
    let scopes = scopes_of(vec![]);
    let nullable = Ty::Pointer { nullable: true, mutability: ViewMutability::Mutable, inner: Box::new(Ty::I32) };
    let pl = Place { span: sp(0, 4), kind: PlaceKind::Arrow { pointer: Some(local(3, nullable)), field: 1, field_span: sp(3, 4) } };
    assert!(tc.check_lvalue(&scopes, pl, false).is_none());
    assert!(matches!(tc.diagnostics[0].kind, DiagKind::ArrowNeedsNonNullPointer { .. }));
    let none = Place { span: sp(0, 4), kind: PlaceKind::Arrow { pointer: None, field: 1, field_span: sp(3, 4) } };
    assert!(tc.check_lvalue(&scopes, none, false).is_none());
    assert_eq!(tc.diagnostics.len(), 1);
}

#[test]
fn elements_of_slices_and_arrays() {
    let mut tc = checker(program());
    let arr = Ty::Array { len: 4, elem: Box::new(Ty::I16) };
    let ro = Ty::Slice { mutability: ViewMutability::ReadOnly, elem: Box::new(Ty::I16) };
    let scopes = scopes_of(vec![binding(1, Ty::Array { len: 4, elem: Box::new(Ty::I16) }, true, InitState::Assigned)]);
    let slice_pl = Place {
        span: sp(0, 6),
        kind: PlaceKind::Index { base: Box::new(Place { span: sp(0, 1), kind: PlaceKind::Other }), base_value: Some(local(2, ro)), index: Some(local(5, Ty::Usize)) },
    };
    let r = tc.check_lvalue(&scopes, slice_pl, false).unwrap();
    assert_eq!(r.expr.ty, Ty::I16);
    assert_eq!(r.read_only_reason, Some(ReadOnlyReason::ReadOnlySlice));
    let arr_pl = Place {
        span: sp(0, 6),
        kind: PlaceKind::Index { base: Box::new(name_place(Some(1), 7)), base_value: Some(local(1, arr)), index: Some(local(5, Ty::Bool)) },
    };
    let r = tc.check_lvalue(&scopes, arr_pl, false).unwrap();
    assert_eq!(r.access, LvalueAccess::Writable);
    assert_eq!(tc.diagnostics.len(), 1);
    assert_eq!(tc.diagnostics[0].kind, DiagKind::IndexMustBeInteger);
    let bad = Place {
        span: sp(0, 6),
        kind: PlaceKind::Index { base: Box::new(name_place(Some(1), 7)), base_value: Some(local(1, Ty::I32)), index: Some(local(5, Ty::Usize)) },
    };
    assert!(tc.check_lvalue(&scopes, bad, false).is_none());
    assert_eq!(tc.diagnostics[1].kind, DiagKind::CannotIndex { ty: Ty::I32 });
}

#[test]
fn dereferences_and_other_expressions() {
    let mut tc = checker(program());
    let scopes = scopes_of(vec![]);
    let nullable = Ty::Pointer { nullable: true, mutability: ViewMutability::Mutable, inner: Box::new(Ty::I32) };
    let pl = Place { span: sp(0, 2), kind: PlaceKind::Deref { operand: Some(local(3, nullable)) } };
    let r = tc.check_lvalue(&scopes, pl, false).unwrap();
    assert_eq!(r.expr.ty, Ty::Unknown);
    assert_eq!(r.read_only_reason, Some(ReadOnlyReason::ReadOnlyPointer));
    let ok = Place { span: sp(0, 2), kind: PlaceKind::Deref { operand: Some(local(3, ptr(Ty::I8))) } };
    let r = tc.check_lvalue(&scopes, ok, false).unwrap();
    assert_eq!(r.expr.ty, Ty::I8);
    assert_eq!(r.access, LvalueAccess::Writable);
    assert!(tc.check_lvalue(&scopes, Place { span: sp(0, 2), kind: PlaceKind::Other }, false).is_none());
    assert_eq!(tc.diagnostics.len(), 2);
    assert!(matches!(tc.diagnostics[0].kind, DiagKind::DerefNeedsNonNullPointer { .. }));
    assert_eq!(tc.diagnostics[1].kind, DiagKind::NotAssignable);
    assert_eq!(tc.diagnostic_message(&tc.diagnostics[1].kind), "expression is not assignable");
}
