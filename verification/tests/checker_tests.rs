use std::collections::HashSet;
use lib::props::ty_generic_names;
use lib::checker::{
    CheckerState, EnumInstance, FieldInfo, FunctionSig, GenericInfo, HoleBinding, ImplSig, ImportInfo, InterfaceSig, MetaSop,
    ModuleInfo,
    NameEntry, Program, StructTemplate,
    ReceiverSelectorSig, SelectorCallable, StdDefs, StructInstance, TypeChecker, VariantInfo,
};
use lib::checks::CastCheck;
use lib::diag::{text_from_str, Text, ActorCallableRole, DiagKind, Diagnostic, OperatorContext, Span, UnsafeReason};
use lib::generic::{substitute_ty, unify_ty, Binding};
use lib::literal::{decode_char_literal_byte, integer_abs_limits, parse_integer_literal_u128};
use lib::scope::dedup_modules;
use lib::selector::{parameter_names_note, selector_path_span, Ident, TypeArg};
use lib::texpr::{
    InitState, Literal, LocalBinding, LocalScopes, LvalueAccess, TExpr, TExprKind, UnaryOp,
};
use lib::ty::{
    FutureOrigin, copy_ty, known_ty_matches, Bounds, CapList, StateKey, StateList, Ty, TyList, ViewMutability,
};

const MESSAGE: u64 = 900;
const THREAD_LOCAL: u64 = 901;
const FRAME_OPT_IN: u64 = 902;
const TASK: u64 = 910;
const RESULT: u64 = 911;
const FUTURE: u64 = 912;
const ERROR: u64 = 913;
const REPORT: u64 = 914;
const ASYNC_ERROR: u64 = 915;
const REPR: u64 = 916;
const MARKER: u64 = 917;
const ACTOR: u64 = 918;
const HANDLE: u64 = 920;

fn std_defs() -> StdDefs {
    StdDefs {
        message_clone: Some(MESSAGE),
        message_capability: None,
        share_handle: None,
        thread_local: Some(THREAD_LOCAL),
        async_frame_opt_in: Some(FRAME_OPT_IN),
        awaitable_future: None,
        cancel_safe_future: None,
        abort_future: None,
        spawnable_future: None,
        error_trait: None,
        error_witness: None,
        fn_value_marker: None,
        closure_value_marker: None,
        task_struct: Some(TASK),
        future_struct: Some(FUTURE),
        result_enum: Some(RESULT),
        dyn_error_struct: Some(ERROR),
        actor_struct: Some(ACTOR),
        report_struct: Some(REPORT),
        async_error_struct: Some(ASYNC_ERROR),
        resource_error_struct: None,
        runtime_variant: 1,
        async_variant: 2,
        task_group_async_variant: 3,
        resource_variant: 4,
        message_clone_variant: 5,
        future_state_marker: Some(MARKER),
        meta_repr_marker: Some(REPR),
        resource_handles: vec![HANDLE],
        ptr_field: 990,
        len_field: 991,
    }
}

fn program() -> Program {
    Program {
        structs: vec![],
        struct_templates: vec![],
        enums: vec![],
        enum_templates: vec![],
        opaque_structs: vec![],
        impls: vec![],
        functions: vec![],
        interfaces: vec![],
        receiver_selectors: vec![],
        modules: vec![],
        meta_sops: vec![],
        names: vec![],
        async_functions: vec![],
        std: std_defs(),
    }
}

fn checker(p: Program) -> TypeChecker {
    TypeChecker {
        program: p,
        state: CheckerState {
            unsafe_depth: 0,
            async_depth: 0,
            resource_generic_stack: vec![],
            hole_solutions: vec![],
            next_type_hole_id: 0,
            opaque_returns: vec![],
            current_opaque_return: None,
            symbolic_depth: 0,
            loop_depth: 0,
        },
        diagnostics: vec![],
        capability_cache: vec![],
        capability_epoch: 0,
    }
}

fn list(tys: Vec<Ty>) -> TyList {
    let mut l = TyList::Nil;
    for t in tys.into_iter().rev() {
        l = TyList::Cons(Box::new(t), Box::new(l));
    }
    l
}

fn named(name: u64, args: Vec<Ty>) -> Ty {
    Ty::Named { name, args: list(args) }
}

fn ptr(inner: Ty) -> Ty {
    Ty::Pointer { nullable: false, mutability: ViewMutability::Mutable, inner: Box::new(inner) }
}

fn sp(start: u32, end: u32) -> Span {
    Span { start, end }
}

fn expr(ty: Ty, kind: TExprKind) -> TExpr {
    TExpr { span: sp(0, 1), ty, kind }
}

fn int_lit(raw: &str, ty: Ty) -> TExpr {
    expr(ty, TExprKind::Literal(Literal::Integer(raw.to_string())))
}

fn plain_fn(def_id: u64, params: TyList) -> FunctionSig {
    FunctionSig {
        def_id,
        name: def_id,
        params,
        ret: Ty::Void,
        generics: vec![],
        c_abi: false,
        has_body: true,
        is_unsafe: false,
        is_async: false,
        exported: false,
        span: sp(0, 0),
    }
}

fn message_impl(t: Ty) -> ImplSig {
    ImplSig { module: 0, interface: MESSAGE, args: list(vec![t]), generics: vec![] }
}

// ---- literals ----

#[test]
fn integer_literal_values_parse() {
    assert_eq!(parse_integer_literal_u128("255"), Some(255));
    assert_eq!(parse_integer_literal_u128("1_000"), Some(1000));
    assert_eq!(parse_integer_literal_u128("0x1f"), Some(31));
    assert_eq!(parse_integer_literal_u128("abc"), None);
}

#[test]
fn integer_limits_follow_the_type() {
    assert_eq!(integer_abs_limits(&Ty::I8), Some((128, 127)));
    assert_eq!(integer_abs_limits(&Ty::U8), Some((0, 255)));
    assert_eq!(integer_abs_limits(&Ty::Bool), None);
}

#[test]
fn integer_literal_out_of_range_is_reported() {
    let mut tc = checker(program());
    tc.check_integer_literal_range(sp(1, 4), "256", &Ty::U8, false);
    assert_eq!(
        tc.diagnostics,
        vec![Diagnostic { span: sp(1, 4), kind: DiagKind::IntegerLiteralOutOfRange { literal: text_from_str("256"), ty: Ty::U8 } }]
    );
}

#[test]
fn negated_literal_uses_the_negative_bound() {
    let mut tc = checker(program());
    tc.check_integer_literal_range(sp(0, 3), "128", &Ty::I8, true);
    assert!(tc.diagnostics.is_empty());
    tc.check_integer_literal_range(sp(0, 3), "128", &Ty::I8, false);
    assert_eq!(tc.diagnostics.len(), 1);
}

#[test]
fn invalid_integer_literal_is_reported() {
    let mut tc = checker(program());
    tc.check_integer_literal_range(sp(0, 2), "zz", &Ty::I32, false);
    assert_eq!(tc.diagnostics[0].kind, DiagKind::IntegerLiteralInvalid);
}

#[test]
fn char_literals_must_be_single_bytes() {
    assert_eq!(decode_char_literal_byte("'a'"), Some(b'a'));
    assert_eq!(decode_char_literal_byte("'\\n'"), Some(b'\n'));
    let mut tc = checker(program());
    tc.check_char_literal_range(sp(0, 4), "'ab'");
    assert_eq!(tc.diagnostics[0].kind, DiagKind::CharLiteralNotSingleByte { literal: text_from_str("'ab'") });
}

#[test]
fn integer_literal_takes_expected_integer_type() {
    let mut tc = checker(program());
    let lit = Literal::Integer("300".to_string());
    let e = tc.check_literal(sp(2, 5), &lit, Some(&Ty::U8)).unwrap();
    assert_eq!(e.ty, Ty::U8);
    assert_eq!(e.kind, TExprKind::Literal(Literal::Integer("300".to_string())));
    assert_eq!(tc.diagnostics[0].kind, DiagKind::IntegerLiteralOutOfRange { literal: text_from_str("300"), ty: Ty::U8 });
}

#[test]
fn integer_literal_defaults_to_i64() {
    let mut tc = checker(program());
    let e = tc.check_literal(sp(0, 1), &Literal::Integer("7".to_string()), Some(&Ty::Bool)).unwrap();
    assert_eq!(e.ty, Ty::I64);
    assert!(tc.diagnostics.is_empty());
}

#[test]
fn string_literal_may_be_a_byte_view() {
    let mut tc = checker(program());
    let expected = Ty::Slice { mutability: ViewMutability::ReadOnly, elem: Box::new(Ty::U8) };
    let e = tc.check_literal(sp(0, 1), &Literal::String("hi".to_string()), Some(&expected)).unwrap();
    assert_eq!(e.ty, expected);
    let e = tc.check_literal(sp(0, 1), &Literal::String("hi".to_string()), None).unwrap();
    assert_eq!(e.ty, Ty::Slice { mutability: ViewMutability::ReadOnly, elem: Box::new(Ty::Char) });
}

#[test]
fn null_needs_an_expected_pointer() {
    let mut tc = checker(program());
    let e = tc.check_literal(sp(0, 4), &Literal::Null, None).unwrap();
    assert_eq!(e.ty, Ty::Unknown);
    assert_eq!(tc.diagnostics[0].kind, DiagKind::NullWithoutPointer);
    let expected = ptr(Ty::I32);
    let e = tc.check_literal(sp(0, 4), &Literal::Null, Some(&expected)).unwrap();
    assert_eq!(
        e.ty,
        Ty::Pointer { nullable: true, mutability: ViewMutability::Mutable, inner: Box::new(Ty::I32) }
    );
    assert_eq!(tc.diagnostics.len(), 1);
}

#[test]
fn float_literal_type_defaults_to_f64() {
    let mut tc = checker(program());
    let e = tc.check_literal(sp(0, 3), &Literal::Float("1.5".to_string()), Some(&Ty::Float32)).unwrap();
    assert_eq!(e.ty, Ty::Float32);
    let e = tc.check_literal(sp(0, 3), &Literal::Float("1.5".to_string()), None).unwrap();
    assert_eq!(e.ty, Ty::Float64);
}

// ---- casts and unsafe ----

#[test]
fn cast_to_same_type_is_silent() {
    let mut tc = checker(program());
    let t = named(1, vec![Ty::I32]);
    tc.check_cast_allowed(&t, &copy_ty(&t), sp(0, 1));
    assert!(tc.diagnostics.is_empty());
}

#[test]
fn bool_casts_are_rejected() {
    let mut tc = checker(program());
    tc.check_cast_allowed(&Ty::Bool, &Ty::I32, sp(3, 4));
    assert_eq!(
        tc.diagnostics[0].kind,
        DiagKind::CannotCastBool { source: Ty::Bool, target: Ty::I32 }
    );
    let _ = CastCheck::Allowed;
}

#[test]
fn unsafe_is_required_outside_unsafe_blocks_only() {
    let mut tc = checker(program());
    tc.require_unsafe(sp(0, 1), UnsafeReason::RawStorageFromPointer);
    assert_eq!(tc.diagnostics[0].kind, DiagKind::RequiresUnsafe(UnsafeReason::RawStorageFromPointer));
    tc.state.unsafe_depth = 1;
    tc.require_unsafe(sp(0, 1), UnsafeReason::RawStorageFromPointer);
    assert_eq!(tc.diagnostics.len(), 1);
}

#[test]
fn shift_count_beyond_width_is_reported() {
    let mut tc = checker(program());
    let left = expr(Ty::U8, TExprKind::Local(0));
    tc.check_constant_shift_count(&left, &int_lit("8", Ty::I32));
    assert_eq!(
        tc.diagnostics[0].kind,
        DiagKind::ShiftCountOutOfRange { ty: Ty::U8, count: text_from_str("8"), max: 7 }
    );
    tc.check_constant_shift_count(&left, &int_lit("7", Ty::I32));
    assert_eq!(tc.diagnostics.len(), 1);
    let negated = expr(
        Ty::I32,
        TExprKind::Unary { op: UnaryOp::Neg, expr: Box::new(int_lit("1", Ty::I32)) },
    );
    tc.check_constant_shift_count(&left, &negated);
    assert_eq!(tc.diagnostics[1].kind, DiagKind::ShiftCountOutOfRange { ty: Ty::U8, count: text_from_str("-1"), max: 7 });
}

#[test]
fn mixed_integer_operands_are_reported() {
    let mut tc = checker(program());
    let l = expr(Ty::I32, TExprKind::Local(0));
    let r = expr(Ty::I64, TExprKind::Local(1));
    tc.require_same_integer_type(OperatorContext::Bitwise, &l, &r, sp(0, 5));
    assert_eq!(
        tc.diagnostics[0].kind,
        DiagKind::MismatchedIntegerTypes { operator: OperatorContext::Bitwise, left: Ty::I32, right: Ty::I64 }
    );
}

// ---- generics ----

#[test]
fn unify_binds_generics_and_substitution_reproduces() {
    let pattern = named(7, vec![Ty::Generic(1), ptr(Ty::Generic(2))]);
    let actual = named(7, vec![Ty::I32, ptr(Ty::Bool)]);
    let mut s: Vec<Binding> = vec![];
    assert!(unify_ty(&pattern, &actual, &mut s));
    assert_eq!(s.len(), 2);
    assert_eq!(substitute_ty(&pattern, &s), actual);
}

#[test]
fn unify_rejects_inconsistent_bindings() {
    let pattern = named(7, vec![Ty::Generic(1), Ty::Generic(1)]);
    let actual = named(7, vec![Ty::I32, Ty::Bool]);
    let mut s: Vec<Binding> = vec![];
    assert!(!unify_ty(&pattern, &actual, &mut s));
}

#[test]
fn substituting_nothing_changes_nothing() {
    let t = named(3, vec![Ty::Generic(5), Ty::U8]);
    assert_eq!(substitute_ty(&t, &vec![]), t);
}

#[test]
fn known_types_match_structurally() {
    assert!(known_ty_matches(&named(1, vec![Ty::I8]), &named(1, vec![Ty::I8])));
    assert!(!known_ty_matches(&named(1, vec![Ty::I8]), &named(1, vec![Ty::U8])));
}

// ---- lookups, resources and capabilities ----

fn struct_instance(name: u64, fields: Vec<(u64, Ty)>, is_resource: bool) -> StructInstance {
    StructInstance {
        name,
        args: TyList::Nil,
        fields: fields.into_iter().map(|(name, ty)| FieldInfo { name, ty }).collect(),
        is_resource,
        is_unsafe: false,
    }
}

#[test]
fn struct_instances_are_found_by_name_and_arguments() {
    let mut p = program();
    p.structs.push(struct_instance(10, vec![(1, Ty::I32)], false));
    let tc = checker(p);
    assert_eq!(tc.find_struct_instance(10, &TyList::Nil), Some(0));
    assert_eq!(tc.find_struct_instance(10, &list(vec![Ty::I32])), None);
}

#[test]
fn resource_handles_and_resource_structs_are_affine() {
    let mut p = program();
    p.structs.push(struct_instance(11, vec![(1, named(HANDLE, vec![]))], true));
    let tc = checker(p);
    assert!(tc.type_is_affine(&named(HANDLE, vec![])));
    assert!(tc.type_is_affine(&named(11, vec![])));
    assert!(tc.type_is_affine(&Ty::Array { len: 2, elem: Box::new(named(11, vec![])) }));
    assert!(!tc.type_is_affine(&Ty::I32));
}

#[test]
fn capability_answers_are_remembered_and_agree() {
    let mut p = program();
    p.impls.push(message_impl(Ty::I32));
    let mut tc = checker(p);
    assert!(tc.type_implements_capability_by_def(MESSAGE, &TyList::Nil, &Ty::I32));
    assert_eq!(tc.capability_cache.len(), 1);
    assert!(tc.type_implements_capability_by_def(MESSAGE, &TyList::Nil, &Ty::I32));
    assert!(!tc.type_implements_capability_by_def(MESSAGE, &TyList::Nil, &Ty::Bool));
    assert!(tc.type_implements_capability_by_def_uncached(MESSAGE, &TyList::Nil, &Ty::I32));
    tc.bump_capability_resolution_epoch();
    assert!(tc.capability_cache.is_empty());
    assert_eq!(tc.capability_epoch, 1);
}

#[test]
fn resources_are_not_messages() {
    let mut p = program();
    p.impls.push(message_impl(named(HANDLE, vec![])));
    let mut tc = checker(p);
    assert!(!tc.type_implements_message(&named(HANDLE, vec![])));
}

// ---- inference holes ----

#[test]
fn bound_holes_resolve_to_their_solution() {
    let mut tc = checker(program());
    assert!(tc.bind_type_hole(3, &Ty::I32));
    assert_eq!(tc.resolve_type_holes(&ptr(Ty::Hole(3))), ptr(Ty::I32));
    assert!(tc.bind_type_hole(3, &Ty::I32));
    assert_eq!(tc.state.hole_solutions.len(), 1);
}

#[test]
fn unifying_holes_solves_them() {
    let mut tc = checker(program());
    assert!(tc.unify_type_holes(&named(1, vec![Ty::Hole(4)]), &named(1, vec![Ty::U16])));
    assert_eq!(tc.resolve_type_holes(&Ty::Hole(4)), Ty::U16);
}

// ---- places, assignments, suspension ----

fn scopes() -> LocalScopes {
    LocalScopes {
        bindings: vec![
            LocalBinding {
                id: 1,
                name: 100,
                ty: Ty::I32,
                flow_ty: None,
                narrowed_ty: None,
                init_state: InitState::Unassigned,
                mutable: true,
                captured: false,
                declared_loop_depth: 0,
            },
            LocalBinding {
                id: 2,
                name: 101,
                ty: Ty::I32,
                flow_ty: None,
                narrowed_ty: None,
                init_state: InitState::Assigned,
                mutable: false,
                captured: false,
                declared_loop_depth: 0,
            },
        ],
    }
}

#[test]
fn mutable_locals_are_writable_places() {
    let tc = checker(program());
    let s = scopes();
    assert_eq!(tc.texpr_lvalue_access(&s, &expr(Ty::I32, TExprKind::Local(1))), Some(LvalueAccess::Writable));
    assert_eq!(tc.texpr_lvalue_access(&s, &expr(Ty::I32, TExprKind::Local(2))), Some(LvalueAccess::ReadOnly));
    assert_eq!(tc.texpr_lvalue_access(&s, &expr(Ty::I32, TExprKind::Local(9))), None);
    let through_view = expr(
        Ty::I32,
        TExprKind::Unary {
            op: UnaryOp::Deref,
            expr: Box::new(expr(
                Ty::Pointer { nullable: false, mutability: ViewMutability::ReadOnly, inner: Box::new(Ty::I32) },
                TExprKind::Local(1),
            )),
        },
    );
    assert_eq!(tc.texpr_lvalue_access(&s, &through_view), Some(LvalueAccess::ReadOnly));
}

#[test]
fn completing_an_assignment_marks_the_local_and_keeps_access() {
    let mut tc = checker(program());
    let mut s = scopes();
    let target = expr(Ty::I32, TExprKind::Local(1));
    let before = tc.texpr_lvalue_access(&s, &target);
    tc.mark_assignment_complete(&mut s, &target, &Ty::I32);
    assert_eq!(s.bindings[0].init_state, InitState::Assigned);
    assert_eq!(s.bindings[0].flow_ty, None);
    assert_eq!(tc.texpr_lvalue_access(&s, &target), before);
}

#[test]
fn awaits_outside_closures_suspend() {
    let tc = checker(program());
    let await_expr = expr(Ty::I32, TExprKind::Await(Box::new(expr(Ty::I32, TExprKind::Local(1)))));
    let nested = expr(Ty::I32, TExprKind::Other(vec![expr(Ty::I32, TExprKind::Local(2)), await_expr]));
    assert!(tc.expr_contains_async_suspension(&nested));
    let in_closure = expr(
        Ty::I32,
        TExprKind::Closure(Box::new(expr(Ty::I32, TExprKind::Await(Box::new(expr(Ty::I32, TExprKind::Local(1))))))),
    );
    assert!(!tc.expr_contains_async_suspension(&in_closure));
}

// ---- selectors ----

#[test]
fn overlapping_selectors_in_one_module_conflict() {
    let mut p = program();
    p.functions.push(plain_fn(1, list(vec![ptr(named(50, vec![]))])));
    p.functions.push(plain_fn(2, list(vec![named(50, vec![])])));
    p.functions.push(plain_fn(3, list(vec![named(51, vec![])])));
    let sel = |callable: u64, module: u64, span: u32| ReceiverSelectorSig {
        selector: 77,
        module,
        callable: SelectorCallable::Function(callable),
        receiver_index: 0,
        exported: false,
        span: sp(span, span + 1),
    };
    p.receiver_selectors = vec![sel(1, 0, 10), sel(2, 0, 20), sel(3, 0, 30), sel(2, 1, 40)];
    let mut tc = checker(p);
    let (a, b) = (&tc.program.receiver_selectors[0], &tc.program.receiver_selectors[1]);
    assert!(tc.receiver_selector_patterns_overlap(a, b));
    assert_eq!(tc.receiver_selector_patterns_overlap(b, a), tc.receiver_selector_patterns_overlap(a, b));
    tc.validate_receiver_selector_conflicts();
    assert_eq!(
        tc.diagnostics,
        vec![Diagnostic {
            span: sp(20, 21),
            kind: DiagKind::ConflictingSelector { selector: 77, receiver: named(50, vec![]) },
        }]
    );
}

#[test]
fn selector_path_covers_first_to_last_segment() {
    let path = vec![Ident { name: 1, span: sp(4, 7) }, Ident { name: 2, span: sp(8, 12) }];
    assert_eq!(selector_path_span(&path), Some(sp(4, 12)));
    assert_eq!(selector_path_span(&[]), None);
}

#[test]
fn parameter_note_lists_at_most_the_expected_parameters() {
    let params = vec![Ty::I32, Ty::Bool, Ty::U8];
    let names: Vec<u64> = vec![1, 2, 3];
    let muts = vec![true, false, false];
    let note = parameter_names_note(&params, Some(&names), Some(&muts), 2).unwrap();
    assert_eq!(note.len(), 2);
    assert_eq!((note[1].name, note[1].mutable), (2, false));
    assert_eq!(note[1].ty, Ty::Bool);
    assert!(parameter_names_note(&params, None, Some(&muts), 2).is_none());
    assert!(parameter_names_note(&params, Some(&names), Some(&muts), 0).is_none());
}

#[test]
fn too_many_payload_type_arguments_are_reported() {
    let mut tc = checker(program());
    let args = vec![TypeArg { ty: Ty::I32, span: sp(1, 2) }, TypeArg { ty: Ty::U8, span: sp(3, 4) }];
    assert_eq!(tc.explicit_async_payload_ty(5, sp(0, 9), &args), Some(Ty::Unknown));
    assert_eq!(tc.diagnostics[0], Diagnostic { span: sp(3, 4), kind: DiagKind::TooManyTypeArguments { label: 5 } });
    assert_eq!(tc.explicit_async_payload_ty(5, sp(0, 9), &args[..1]), Some(Ty::I32));
    assert_eq!(tc.explicit_async_payload_ty(5, sp(0, 9), &[]), None);
}

// ---- async types ----

#[test]
fn task_and_result_arguments_are_read() {
    let tc = checker(program());
    assert_eq!(tc.task_tys(&named(TASK, vec![Ty::I32, Ty::Bool])), Some((Ty::I32, Ty::Bool)));
    assert_eq!(tc.task_tys(&named(TASK, vec![Ty::I32])), None);
    assert_eq!(tc.result_ok_err_tys(&named(RESULT, vec![Ty::U8, Ty::I8])), Some((Ty::U8, Ty::I8)));
}

#[test]
fn task_error_without_carriers_is_reported() {
    let mut p = program();
    p.enums.push(EnumInstance {
        name: 60,
        args: TyList::Nil,
        variants: vec![VariantInfo { name: 1, payload: list(vec![Ty::I64]) }],
    });
    let mut tc = checker(p);
    tc.check_task_error_carriers(&named(60, vec![]), sp(0, 1));
    assert_eq!(
        tc.diagnostics,
        vec![Diagnostic {
            span: sp(0, 1),
            kind: DiagKind::TaskErrorWithoutMessageCloneCarrier { ty: named(60, vec![]) },
        }]
    );
    assert!(tc.async_result_error_can_represent_runtime_failure(&named(60, vec![])));
    assert!(tc.async_result_error_can_represent_message_clone_failure(&named(REPORT, vec![])));
}

#[test]
fn hidden_state_of_a_field_is_projected() {
    let tc = checker(program());
    let state = StateList::Cons(StateKey::Field(1), Box::new(Ty::I32), Box::new(StateList::Nil));
    assert_eq!(tc.project_opaque_field_ty(Ty::I32, &state, 1), Ty::I32);
    assert_eq!(tc.project_opaque_field_ty(Ty::U8, &StateList::Nil, 1), Ty::U8);
    let other = tc.project_opaque_field_ty(Ty::U8, &state, 1);
    assert_eq!(other, Ty::OpaqueState { base: Box::new(Ty::U8), state });
}

#[test]
fn interfaces_resolve_receiver_patterns() {
    let mut p = program();
    p.interfaces.push(InterfaceSig { def_id: 8, generics: vec![1], params: list(vec![ptr(Ty::Generic(1))]) });
    let tc = checker(p);
    let sel = ReceiverSelectorSig {
        selector: 1,
        module: 0,
        callable: SelectorCallable::Interface(8),
        receiver_index: 0,
        exported: false,
        span: sp(0, 1),
    };
    assert_eq!(tc.receiver_selector_pattern_ty(&sel), Some(ptr(Ty::Generic(1))));
}


// ---- C ABI declarations ----

fn c_fn(def_id: u64, name: u64, params: TyList, ret: Ty, span: u32) -> FunctionSig {
    FunctionSig {
        def_id,
        name,
        params,
        ret,
        generics: vec![],
        c_abi: true,
        has_body: true,
        is_unsafe: false,
        is_async: false,
        exported: true,
        span: sp(span, span + 1),
    }
}

#[test]
fn well_formed_c_functions_are_accepted() {
    let mut p = program();
    p.functions.push(c_fn(1, 100, list(vec![Ty::I32, ptr(Ty::Void)]), Ty::I32, 10));
    let mut imported = c_fn(2, 101, list(vec![]), Ty::Void, 20);
    imported.has_body = false;
    imported.is_unsafe = true;
    p.functions.push(imported);
    let mut tc = checker(p);
    tc.validate_c_abi_functions();
    assert!(tc.diagnostics.is_empty());
}

#[test]
fn single_c_declaration_errors_in_order() {
    let mut p = program();
    let mut imported = c_fn(1, 100, list(vec![Ty::Void]), Ty::I32, 10);
    imported.has_body = false;
    imported.is_async = true;
    p.functions.push(imported);
    let mut body = c_fn(2, 101, list(vec![]), Ty::Void, 20);
    body.exported = false;
    body.generics = vec![7];
    p.functions.push(body);
    let closure = Ty::Closure {
        ret: Box::new(Ty::Void),
        params: TyList::Nil,
        bounds: Bounds { positive: CapList::Nil, negative: CapList::Nil },
    };
    p.functions.push(c_fn(3, 102, list(vec![closure]), Ty::Void, 30));
    // a function without the C ABI is not checked here
    let mut plain = plain_fn(4, list(vec![Ty::Void]));
    plain.has_body = false;
    p.functions.push(plain);
    let mut tc = checker(p);
    tc.validate_c_abi_functions();
    let kinds: Vec<(DiagKind, u32)> =
        tc.diagnostics.into_iter().map(|d| (d.kind, d.span.start)).collect();
    assert_eq!(
        kinds,
        vec![
            (DiagKind::ImportedCNotUnsafe, 10),
            (DiagKind::ExternCAsync, 10),
            (DiagKind::ExternCVoidParameter, 10),
            (DiagKind::ExternCBodyNotExported, 20),
            (DiagKind::ExternCGeneric, 20),
            (DiagKind::ExternCClosureType, 30),
        ]
    );
}

#[test]
fn c_declarations_of_one_symbol_must_agree() {
    let mut p = program();
    // listed out of definition order: def 5 is the first declaration of symbol 100
    p.functions.push(c_fn(6, 100, list(vec![Ty::I64]), Ty::I32, 60));
    let mut decl = c_fn(5, 100, list(vec![Ty::I32]), Ty::I32, 50);
    decl.has_body = false;
    decl.is_unsafe = true;
    p.functions.push(decl);
    p.functions.push(c_fn(7, 100, list(vec![Ty::I32]), Ty::I32, 70));
    let mut tc = checker(p);
    tc.validate_c_abi_functions();
    let kinds: Vec<(DiagKind, u32)> =
        tc.diagnostics.into_iter().map(|d| (d.kind, d.span.start)).collect();
    assert_eq!(
        kinds,
        vec![
            (DiagKind::ConflictingCDeclarations { symbol: 100 }, 60),
            (DiagKind::MultipleCDefinitions { symbol: 100 }, 70),
        ]
    );
}

// ---- actor callables ----

fn kinds_of(tc: TypeChecker) -> Vec<DiagKind> {
    tc.diagnostics.into_iter().map(|d| d.kind).collect()
}

#[test]
fn actor_callable_must_be_callable() {
    let mut tc = checker(program());
    tc.require_actor_callable(&Ty::I32, &vec![], &Ty::Void, ActorCallableRole::StateInitializer, sp(1, 2));
    assert_eq!(kinds_of(tc), vec![DiagKind::ActorNotCallable { role: ActorCallableRole::StateInitializer, ty: Ty::I32 }]);
}

#[test]
fn actor_callable_arity_is_checked_first() {
    let mut tc = checker(program());
    let f = Ty::Function { is_unsafe: false, c_abi: false, ret: Box::new(Ty::Bool), params: list(vec![Ty::I32]) };
    tc.require_actor_callable(&f, &vec![], &Ty::I32, ActorCallableRole::StateInitializer, sp(1, 2));
    assert_eq!(
        kinds_of(tc),
        vec![DiagKind::ActorCallableArity {
            role: ActorCallableRole::StateInitializer,
            expected_count: 0,
            params: list(vec![Ty::I32]),
        }]
    );
}

#[test]
fn actor_callable_parameters_then_return() {
    let mut tc = checker(program());
    let closure = Ty::Closure {
        ret: Box::new(Ty::Bool),
        params: list(vec![Ty::I32, Ty::I64]),
        bounds: Bounds { positive: CapList::Nil, negative: CapList::Nil },
    };
    tc.require_actor_callable(&closure, &vec![Ty::I32, Ty::U8], &Ty::I32, ActorCallableRole::StateHandler, sp(3, 4));
    assert_eq!(
        kinds_of(tc),
        vec![
            DiagKind::ActorCallableParameter {
                role: ActorCallableRole::StateHandler,
                index: 1,
                expected: Ty::U8,
                actual: Ty::I64,
            },
            DiagKind::ActorCallableReturn { role: ActorCallableRole::StateHandler, expected: Ty::I32, actual: Ty::Bool },
        ]
    );
}

#[test]
fn actor_handler_with_state_and_message_is_accepted() {
    let mut tc = checker(program());
    let handler = Ty::ClosureInstance {
        id: 9,
        ret: Box::new(Ty::Void),
        params: list(vec![ptr(named(60, vec![])), named(61, vec![])]),
        captures: TyList::Nil,
    };
    tc.require_actor_handler_callable(&handler, &ptr(named(60, vec![])), &named(61, vec![]), &Ty::Void, sp(5, 6));
    assert!(tc.diagnostics.is_empty());
}

// ---- selector visibility across modules ----

fn selector_in(module: u64, exported: bool, start: u32) -> ReceiverSelectorSig {
    ReceiverSelectorSig {
        selector: 7,
        module,
        callable: SelectorCallable::Function(start as u64),
        receiver_index: 0,
        exported,
        span: sp(start, start + 1),
    }
}

fn import(target: u64, alias: Option<u64>, exported: bool) -> ImportInfo {
    ImportInfo { alias, target: Some(target), exported }
}

/// Module 0 imports 1 plainly and 2 as `50`; module 1 re-exports 3 plainly
/// and 4 as `50`, and imports 5 without re-exporting it; module 3 re-exports
/// 1 again (a cycle).
fn module_graph() -> TypeChecker {
    let mut p = program();
    p.modules = vec![
        ModuleInfo { path: Text::End, imports: vec![import(1, None, false), import(2, Some(50), false)] },
        ModuleInfo {
            path: Text::End,
            imports: vec![import(3, None, true), import(4, Some(50), true), import(5, None, false)],
        },
        ModuleInfo { path: Text::End, imports: vec![] },
        ModuleInfo { path: Text::End, imports: vec![import(1, None, true)] },
        ModuleInfo { path: Text::End, imports: vec![] },
        ModuleInfo { path: Text::End, imports: vec![] },
    ];
    p.receiver_selectors = vec![
        selector_in(0, false, 0),
        selector_in(1, true, 10),
        selector_in(1, false, 11),
        selector_in(2, true, 20),
        selector_in(3, true, 30),
        selector_in(4, true, 40),
        selector_in(5, true, 50),
    ];
    checker(p)
}

fn starts(v: &[ReceiverSelectorSig]) -> Vec<u32> {
    v.iter().map(|s| s.span.start).collect()
}

#[test]
fn bare_selector_sees_own_and_reexported_selectors() {
    let tc = module_graph();
    let path = vec![Ident { name: 7, span: sp(0, 1) }];
    let found = tc.visible_receiver_selector_candidates(0, &path);
    assert_eq!(starts(&found), vec![0, 10, 30]);
}

#[test]
fn aliased_selector_follows_the_alias_targets() {
    let tc = module_graph();
    assert_eq!(tc.receiver_selector_alias_targets(0, 50), vec![2, 4]);
    let path = vec![Ident { name: 50, span: sp(0, 1) }, Ident { name: 7, span: sp(2, 3) }];
    let found = tc.visible_receiver_selector_candidates(0, &path);
    assert_eq!(starts(&found), vec![20, 40]);
}

#[test]
fn longer_selector_paths_see_nothing() {
    let tc = module_graph();
    let path = vec![Ident { name: 1, span: sp(0, 1) }, Ident { name: 2, span: sp(0, 1) }, Ident { name: 7, span: sp(0, 1) }];
    assert!(tc.visible_receiver_selector_candidates(0, &path).is_empty());
    assert!(tc.visible_receiver_selector_candidates(0, &vec![]).is_empty());
}

#[test]
fn exported_selector_walk_visits_each_module_once() {
    let tc = module_graph();
    let mut visited = HashSet::new();
    let mut out = vec![];
    tc.exported_receiver_selectors_from_module(3, 7, &mut visited, &mut out);
    assert_eq!(starts(&out), vec![30, 10]);
    assert_eq!(visited, HashSet::from([1, 3]));
    // a second walk from an already visited module adds nothing
    tc.exported_receiver_selectors_from_module(1, 7, &mut visited, &mut out);
    assert_eq!(starts(&out), vec![30, 10]);
}

#[test]
fn alias_walk_collects_reexported_aliases() {
    let tc = module_graph();
    let mut visited = HashSet::new();
    let mut out = vec![];
    tc.exported_receiver_selector_alias_targets(1, 50, &mut visited, &mut out);
    assert_eq!(out, vec![4]);
}

#[test]
fn module_ids_keep_their_first_occurrence() {
    let mut ids = vec![3, 1, 3, 2, 1];
    dedup_modules(&mut ids);
    assert_eq!(ids, vec![3, 1, 2]);
}

// ---- field access ----

fn field_program() -> TypeChecker {
    let mut p = program();
    p.structs.push(StructInstance {
        name: 60,
        args: TyList::Nil,
        fields: vec![FieldInfo { name: 1, ty: Ty::I32 }, FieldInfo { name: 2, ty: Ty::Bool }],
        is_resource: false,
        is_unsafe: false,
    });
    p.structs.push(StructInstance {
        name: 61,
        args: TyList::Nil,
        fields: vec![FieldInfo { name: 1, ty: Ty::U8 }],
        is_resource: false,
        is_unsafe: true,
    });
    p.struct_templates.push(StructTemplate {
        name: 70,
        generics: vec![GenericInfo { name: 5, is_resource: false, bounds: None }],
        fields: vec![FieldInfo { name: 1, ty: ptr(Ty::Generic(5)) }],
        is_resource: false,
        is_unsafe: false,
    });
    checker(p)
}

#[test]
fn slices_have_ptr_and_len() {
    let mut tc = field_program();
    let slice = Ty::Slice { mutability: ViewMutability::Mutable, elem: Box::new(Ty::U8) };
    assert_eq!(
        tc.field_ty(&slice, 990, sp(0, 1)),
        Some(Ty::Pointer { nullable: false, mutability: ViewMutability::Mutable, inner: Box::new(Ty::U8) })
    );
    assert_eq!(tc.field_ty(&slice, 991, sp(0, 1)), Some(Ty::Usize));
    assert_eq!(tc.field_ty(&slice, 5, sp(0, 1)), None);
    assert_eq!(kinds_of(tc), vec![DiagKind::NoSuchField { ty: slice, field: 5 }]);
}

#[test]
fn struct_fields_are_found_by_name() {
    let mut tc = field_program();
    let s = named(60, vec![]);
    assert_eq!(tc.field_ty(&s, 2, sp(0, 1)), Some(Ty::Bool));
    assert_eq!(tc.field_ty(&s, 3, sp(0, 1)), None);
    assert_eq!(tc.field_ty(&Ty::I32, 1, sp(0, 1)), None);
    assert_eq!(
        kinds_of(tc),
        vec![DiagKind::UnknownField { ty: s, field: 3 }, DiagKind::NoSuchField { ty: Ty::I32, field: 1 }]
    );
}

#[test]
fn unsafe_struct_fields_need_unsafe() {
    let mut tc = field_program();
    assert_eq!(tc.field_ty(&named(61, vec![]), 1, sp(4, 5)), Some(Ty::U8));
    tc.state.unsafe_depth = 1;
    assert_eq!(tc.field_ty(&named(61, vec![]), 1, sp(6, 7)), Some(Ty::U8));
    assert_eq!(kinds_of(tc), vec![DiagKind::RequiresUnsafe(UnsafeReason::UnsafeStructFieldAccess(61))]);
}

#[test]
fn generic_struct_fields_get_the_arguments() {
    let mut tc = field_program();
    assert_eq!(tc.field_ty(&named(70, vec![Ty::I64]), 1, sp(0, 1)), Some(ptr(Ty::I64)));
    assert_eq!(tc.field_ty(&named(70, vec![]), 1, sp(0, 1)), None);
    assert_eq!(
        kinds_of(tc),
        vec![DiagKind::WrongTypeArgumentCount { name: 70, expected_count: 1, args: TyList::Nil }]
    );
}

#[test]
fn fields_of_values_with_hidden_state_come_from_the_base() {
    let mut tc = field_program();
    let opaque = Ty::OpaqueState { base: Box::new(named(60, vec![])), state: StateList::Nil };
    assert_eq!(tc.field_ty(&opaque, 1, sp(0, 1)), Some(Ty::I32));
    assert!(tc.diagnostics.is_empty());
}

#[test]
fn silent_field_lookup_reports_nothing() {
    let mut tc = field_program();
    assert_eq!(tc.field_ty_silent(&named(60, vec![]), 9, sp(0, 1)), None);
    assert_eq!(tc.field_ty_silent(&named(60, vec![]), 1, sp(0, 1)), Some(Ty::I32));
    assert!(tc.diagnostics.is_empty());
}

#[test]
fn struct_info_for_resource_analysis() {
    let mut tc = field_program();
    tc.program.structs.push(StructInstance {
        name: 62,
        args: TyList::Nil,
        fields: vec![FieldInfo { name: 1, ty: named(HANDLE, vec![]) }],
        is_resource: true,
        is_unsafe: false,
    });
    let plain = tc.named_struct_info(&named(60, vec![])).unwrap();
    assert!(!plain.is_resource);
    assert_eq!(plain.fields, vec![Ty::I32, Ty::Bool]);
    let generic = tc.named_struct_info(&named(70, vec![Ty::I64])).unwrap();
    assert_eq!(generic.fields, vec![ptr(Ty::I64)]);
    let resource = tc.named_struct_info(&named(62, vec![])).unwrap();
    assert!(resource.is_resource);
    assert!(resource.fields.is_empty());
    assert!(tc.named_struct_info(&Ty::I32).is_none());
    assert!(tc.named_struct_info(&named(99, vec![])).is_none());
}

#[test]
fn enum_payloads_in_variant_order() {
    let mut p = program();
    p.enums.push(EnumInstance {
        name: 80,
        args: TyList::Nil,
        variants: vec![
            VariantInfo { name: 1, payload: list(vec![Ty::I32, Ty::Bool]) },
            VariantInfo { name: 2, payload: TyList::Nil },
            VariantInfo { name: 3, payload: list(vec![Ty::U8]) },
        ],
    });
    let tc = checker(p);
    assert_eq!(tc.named_enum_payloads(&named(80, vec![])), Some(vec![Ty::I32, Ty::Bool, Ty::U8]));
    assert_eq!(tc.named_enum_payloads(&named(81, vec![])), None);
}

#[test]
fn struct_fields_and_enum_variants_for_reflection() {
    let mut tc = field_program();
    let fields = tc.symbolic_struct_fields(70, &list(vec![Ty::Bool])).unwrap();
    assert_eq!(fields, vec![FieldInfo { name: 1, ty: ptr(Ty::Bool) }]);
    assert!(tc.symbolic_struct_fields(70, &TyList::Nil).is_none());
    assert_eq!(tc.symbolic_struct_fields(60, &TyList::Nil).unwrap().len(), 2);
    tc.program.enums.push(EnumInstance {
        name: 80,
        args: TyList::Nil,
        variants: vec![
            VariantInfo { name: 1, payload: list(vec![Ty::I32]) },
            VariantInfo { name: 2, payload: TyList::Nil },
        ],
    });
    assert_eq!(tc.symbolic_enum_variants(80, &TyList::Nil), Some(vec![list(vec![Ty::I32]), TyList::Nil]));
    assert_eq!(tc.symbolic_enum_variants(81, &TyList::Nil), None);
}

#[test]
fn resources_cannot_implement_message_clone() {
    let mut tc = checker(program());
    let handle = named(HANDLE, vec![]);
    assert!(tc.resource_handle_message_impl_forbidden(sp(1, 2), MESSAGE, Some(&handle)));
    assert!(!tc.resource_handle_message_impl_forbidden(sp(1, 2), MESSAGE, Some(&Ty::I32)));
    assert!(!tc.resource_handle_message_impl_forbidden(sp(1, 2), MESSAGE, None));
    assert!(!tc.resource_handle_message_impl_forbidden(sp(1, 2), 12345, Some(&handle)));
    assert_eq!(kinds_of(tc), vec![DiagKind::ResourceCannotImplement { ty: handle, interface: MESSAGE }]);
}

// ---- storage equivalence ----

#[test]
fn storage_equivalence_sets_hidden_state_aside() {
    let tc = checker(program());
    let opaque = Ty::OpaqueState { base: Box::new(Ty::I32), state: StateList::Nil };
    assert!(tc.meta_repr_storage_equivalent(&opaque, &Ty::I32));
    assert!(tc.meta_repr_storage_equivalent(&ptr(Ty::I32), &ptr(opaque)));
    assert!(!tc.meta_repr_storage_equivalent(&ptr(Ty::I32), &ptr(Ty::I64)));
    assert!(!tc.meta_repr_storage_equivalent(&named(1, vec![Ty::I32]), &named(1, vec![])));
}

#[test]
fn storage_equivalence_expands_markers() {
    let mut p = program();
    let marker = named(REPR, vec![named(60, vec![])]);
    p.meta_sops.push(MetaSop { marker: copy_ty(&marker), sop: named(500, vec![Ty::I32, Ty::Bool]) });
    let tc = checker(p);
    let sop = named(500, vec![Ty::I32, Ty::Bool]);
    assert!(tc.meta_repr_storage_equivalent(&marker, &sop));
    assert!(tc.meta_repr_storage_equivalent(&ptr(copy_ty(&sop)), &ptr(copy_ty(&marker))));
    assert!(!tc.meta_repr_storage_equivalent(&marker, &named(500, vec![Ty::I32])));
}

#[test]
fn storage_equivalence_resolves_holes_first() {
    let mut tc = checker(program());
    tc.state.hole_solutions.push(HoleBinding { id: 3, ty: Ty::U8 });
    assert!(tc.meta_repr_storage_equivalent(&Ty::Hole(3), &Ty::U8));
}

#[test]
fn error_erasure_rejects_pointer_to_resource() {
    let mut tc = checker(program());
    let handle = named(HANDLE, vec![]);
    let target = named(ERROR, vec![]);
    assert!(tc.reject_error_erasure(sp(1, 2), &ptr(copy_ty(&handle)), &target));
    assert!(!tc.reject_error_erasure(sp(1, 2), &ptr(Ty::I32), &target));
    assert_eq!(kinds_of(tc), vec![DiagKind::ResourceErrorErasure { concrete: handle, target }]);
}

#[test]
fn assignment_solves_an_expected_hole() {
    let mut tc = checker(program());
    tc.require_assignable(&Ty::Hole(7), &Ty::I32, sp(0, 1));
    assert!(tc.diagnostics.is_empty());
    assert_eq!(tc.state.hole_solutions, vec![HoleBinding { id: 7, ty: Ty::I32 }]);
}

#[test]
fn capability_answers_are_remembered() {
    let mut tc = checker(program());
    let first = tc.type_implements_capability_by_def(MESSAGE, &TyList::Nil, &Ty::I32);
    assert_eq!(tc.capability_cache.len(), 1);
    assert_eq!(tc.capability_cache[0].implements, first);
    let again = tc.type_implements_capability_by_def(MESSAGE, &TyList::Nil, &Ty::I32);
    assert_eq!(again, first);
    assert_eq!(tc.capability_cache.len(), 1);
}

// ---- diagnostic text ----

#[test]
fn diagnostics_render_their_message() {
    let mut p = program();
    p.names.push(NameEntry { id: 4, text: text_from_str("count") });
    p.names.push(NameEntry { id: 60, text: text_from_str("Pair") });
    p.names.push(NameEntry { id: 70, text: text_from_str("Box") });
    p.names.push(NameEntry { id: 61, text: text_from_str("Raw") });
    let tc = checker(p);
    let k = DiagKind::TypeMismatch { expected: ptr(Ty::I32), actual: named(60, vec![Ty::Bool, Ty::U8]), argument: Some(4) };
    assert_eq!(tc.diagnostic_message(&k), "count: expected `*i32`, got `Pair<bool, u8>`");
    let k = DiagKind::ShiftCountOutOfRange { ty: Ty::I8, count: text_from_str("8"), max: 7 };
    assert_eq!(tc.diagnostic_message(&k), "constant shift count `8` is out of range for `i8`; expected 0..7");
    let k = DiagKind::IntegerLiteralOutOfRange { literal: text_from_str("128"), ty: Ty::I8 };
    assert_eq!(tc.diagnostic_message(&k), "integer literal `128` is out of range for `i8`");
    let k = DiagKind::WrongTypeArgumentCount { name: 70, expected_count: 1, args: TyList::Nil };
    assert_eq!(tc.diagnostic_message(&k), "struct `Box` expects 1 type arguments, got 0");
    let k = DiagKind::RequiresUnsafe(UnsafeReason::UnsafeStructFieldAccess(61));
    assert_eq!(tc.diagnostic_message(&k), "field access on unsafe struct `Raw` requires unsafe block");
    assert_eq!(tc.diagnostic_message(&DiagKind::PointerCastNotThroughVoid), "pointer casts must go through `*void` or `?*void`");
    assert_eq!(tc.diagnostic_message(&DiagKind::RemainderNeedsIntegers), "`%` requires integer operands");
    assert_eq!(tc.diagnostic_message(&DiagKind::ExternCAsync), "`extern \"C\"` functions cannot be async");
    let k = DiagKind::NoSuchField { ty: Ty::I32, field: 99 };
    assert_eq!(tc.diagnostic_message(&k), "type `i32` has no field `#99`");
}

#[test]
fn resolving_holes_twice_changes_nothing() {
    let mut tc = checker(program());
    tc.state.hole_solutions.push(HoleBinding { id: 1, ty: ptr(Ty::Hole(2)) });
    tc.state.hole_solutions.push(HoleBinding { id: 2, ty: Ty::I32 });
    let once = tc.resolve_type_holes(&Ty::Hole(1));
    assert_eq!(once, ptr(Ty::I32));
    assert_eq!(tc.resolve_type_holes(&once), once);
    assert_eq!(tc.resolve_type_holes(&Ty::Hole(9)), Ty::Hole(9));
}

#[test]
fn unification_accepts_storage_equivalent_types() {
    let mut p = program();
    let marker = named(REPR, vec![named(60, vec![])]);
    p.meta_sops.push(MetaSop { marker: copy_ty(&marker), sop: named(500, vec![Ty::I32]) });
    let mut tc = checker(p);
    assert!(tc.unify_type_holes(&marker, &named(500, vec![Ty::I32])));
    assert!(!tc.unify_type_holes(&marker, &named(500, vec![Ty::I64])));
    assert!(tc.state.hole_solutions.is_empty());
}

// ---- substitution ----

#[test]
fn substitution_reaches_futures_and_reports_replacement() {
    let tc = checker(program());
    let b = vec![Binding { name: 5, ty: Ty::I32 }];
    let fut = |t: Ty| Ty::GeneratedFuture {
        origin: FutureOrigin::Function(1),
        output: Box::new(t),
        cancel_safe: false,
        abortable: false,
        affine_state: false,
        state: StateList::Cons(StateKey::Unnamed, Box::new(ptr(Ty::Generic(5))), Box::new(StateList::Nil)),
    };
    let r = tc.substitute_ty_normalized_inner(&fut(Ty::Generic(5)), &b);
    assert!(r.from_replacement);
    let want = Ty::GeneratedFuture {
        origin: FutureOrigin::Function(1),
        output: Box::new(Ty::I32),
        cancel_safe: false,
        abortable: false,
        affine_state: false,
        state: StateList::Cons(StateKey::Unnamed, Box::new(ptr(Ty::I32)), Box::new(StateList::Nil)),
    };
    assert_eq!(r.ty, want);
    let plain = tc.substitute_ty_normalized_inner(&ptr(Ty::Generic(6)), &b);
    assert!(!plain.from_replacement);
    assert_eq!(plain.ty, ptr(Ty::Generic(6)));
    let inst = Ty::ClosureInstance { id: 2, ret: Box::new(Ty::Generic(5)), params: TyList::Nil, captures: list(vec![Ty::Generic(5)]) };
    let r = tc.substitute_ty_normalized_inner(&inst, &b);
    assert_eq!(r.ty, Ty::ClosureInstance { id: 2, ret: Box::new(Ty::I32), params: TyList::Nil, captures: list(vec![Ty::I32]) });
}

#[test]
fn meta_marker_takes_exactly_one_argument() {
    let tc = checker(program());
    let b = vec![Binding { name: 5, ty: Ty::I32 }];
    let r = tc.substitute_ty_normalized_inner(&named(REPR, vec![Ty::Generic(5)]), &b);
    assert_eq!(r.ty, named(REPR, vec![Ty::I32]));
    assert!(!r.from_replacement);
    let r = tc.substitute_ty_normalized_inner(&named(REPR, vec![]), &b);
    assert_eq!(r.ty, Ty::Unknown);
}

#[test]
fn generic_names_are_collected_once_each() {
    let t = Ty::Function {
        is_unsafe: false,
        c_abi: false,
        ret: Box::new(Ty::Generic(2)),
        params: TyList::Cons(
            Box::new(Ty::Generic(1)),
            Box::new(TyList::Cons(Box::new(Ty::Slice { mutability: ViewMutability::ReadOnly, elem: Box::new(Ty::Generic(2)) }), Box::new(TyList::Nil))),
        ),
    };
    assert_eq!(ty_generic_names(&t), HashSet::from([1, 2]));
    assert!(ty_generic_names(&Ty::I32).is_empty());
}

#[test]
fn markers_match_concrete_types_by_their_representation() {
    let mut p = program();
    let marker = named(REPR, vec![named(60, vec![])]);
    p.meta_sops.push(MetaSop { marker: copy_ty(&marker), sop: named(500, vec![Ty::I32]) });
    let tc = checker(p);
    let st = Ty::OpaqueState { base: Box::new(named(500, vec![Ty::I32])), state: StateList::Nil };
    assert!(tc.meta_repr_marker_matches_concrete(&marker, &st));
    assert!(!tc.meta_repr_marker_matches_concrete(&marker, &named(500, vec![Ty::I64])));
    assert!(!tc.meta_repr_marker_matches_concrete(&named(60, vec![]), &named(60, vec![])));
}
