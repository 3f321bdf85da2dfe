//! The text of diagnostics, as the checker's users read it.  Names are
//! taken from the program's name table; an id without an entry is shown as
//! `#id`.
use vstd::prelude::*;
use vstd::string::StringExecFns;
use crate::checker::{ModuleInfo, NameEntry, TypeChecker};
use crate::diag::{text_seq, IdList, ActorCallableRole, DiagKind, OperatorContext, Text, UnsafeReason};
use crate::boundary::{BoundaryReason, BoundaryViolation, PathStep};
use crate::ty::{tys_len, StateKey, Ty, TyList, ViewMutability};

verus! {

pub open spec fn digit_text(d: nat) -> Seq<char> {
    if d == 0 {
        "0"@
    } else if d == 1 {
        "1"@
    } else if d == 2 {
        "2"@
    } else if d == 3 {
        "3"@
    } else if d == 4 {
        "4"@
    } else if d == 5 {
        "5"@
    } else if d == 6 {
        "6"@
    } else if d == 7 {
        "7"@
    } else if d == 8 {
        "8"@
    } else {
        "9"@
    }
}

/// The decimal digits of `n`.
pub open spec fn decimal(n: nat) -> Seq<char>
    decreases n,
{
    if n < 10 {
        digit_text(n)
    } else {
        decimal(n / 10) + digit_text(n % 10)
    }
}


/// The entry of the name table for `n` (the first one).
pub open spec fn name_entry(ns: Seq<NameEntry>, n: u64) -> Option<Text>
    decreases ns.len(),
{
    if ns.len() == 0 {
        None
    } else if ns[0].id == n {
        Some(ns[0].text)
    } else {
        name_entry(ns.drop_first(), n)
    }
}

/// A name as written in the source, or `#id` when the table has none.
pub open spec fn name_text(ns: Seq<NameEntry>, n: u64) -> Seq<char> {
    match name_entry(ns, n) {
        Some(t) => text_seq(t),
        None => "#"@ + decimal(n as nat),
    }
}

pub open spec fn view_text(m: ViewMutability) -> Seq<char> {
    match m {
        ViewMutability::ReadOnly => "const "@,
        ViewMutability::Mutable => Seq::<char>::empty(),
    }
}

/// How a type is written.
pub open spec fn ty_text(ns: Seq<NameEntry>, t: Ty) -> Seq<char>
    decreases t, 1nat,
{
    match t {
        Ty::Void => "void"@,
        Ty::Never => "never"@,
        Ty::Bool => "bool"@,
        Ty::Char => "char"@,
        Ty::I8 => "i8"@,
        Ty::I16 => "i16"@,
        Ty::I32 => "i32"@,
        Ty::I64 => "i64"@,
        Ty::U8 => "u8"@,
        Ty::U16 => "u16"@,
        Ty::U32 => "u32"@,
        Ty::U64 => "u64"@,
        Ty::Usize => "usize"@,
        Ty::Float32 => "f32"@,
        Ty::Float64 => "f64"@,
        Ty::Unknown => "unknown"@,
        Ty::Hole(id) => "?"@ + decimal(id as nat),
        Ty::Generic(n) => name_text(ns, n),
        Ty::CSpelling(n) => name_text(ns, n),
        Ty::Pointer { nullable, mutability, inner } => (if nullable {
            "?*"@
        } else {
            "*"@
        }) + view_text(mutability) + ty_text(ns, *inner),
        Ty::Array { len, elem } => "["@ + decimal(len as nat) + "]"@ + ty_text(ns, *elem),
        Ty::Slice { mutability, elem } => "[]"@ + view_text(mutability) + ty_text(ns, *elem),
        Ty::Named { name, args } => name_text(ns, name) + args_text(ns, args),
        Ty::DynamicInterface { def_id, args } => "dyn "@ + name_text(ns, def_id) + args_text(ns, args),
        Ty::Function { is_unsafe, c_abi, ret, params } => (if is_unsafe {
            "unsafe "@
        } else {
            Seq::<char>::empty()
        }) + (if c_abi {
            "C "@
        } else {
            Seq::<char>::empty()
        }) + "fn("@ + list_text(ns, params) + ") -> "@ + ty_text(ns, *ret),
        Ty::Closure { ret, params, .. } => "closure("@ + list_text(ns, params) + ") -> "@ + ty_text(ns, *ret),
        Ty::ClosureInstance { id, ret, params, .. } => "closure#"@ + decimal(id as nat) + "("@ + list_text(ns, params)
            + ") -> "@ + ty_text(ns, *ret),
        Ty::GeneratedFuture { output, .. } => "future<"@ + ty_text(ns, *output) + ">"@,
        Ty::OpaqueReturn { def_id, key_args, .. } => "opaque "@ + name_text(ns, def_id) + args_text(ns, key_args),
        Ty::OpaqueState { base, .. } => ty_text(ns, *base) + " with hidden state"@,
    }
}

/// The types of a list, separated by commas.
pub open spec fn list_text(ns: Seq<NameEntry>, l: TyList) -> Seq<char>
    decreases l, 0nat,
{
    match l {
        TyList::Nil => Seq::<char>::empty(),
        TyList::Cons(h, t) => ty_text(ns, *h) + (if *t is Nil {
            Seq::<char>::empty()
        } else {
            ", "@ + list_text(ns, *t)
        }),
    }
}

/// Type arguments in angle brackets; nothing for none.
pub open spec fn args_text(ns: Seq<NameEntry>, l: TyList) -> Seq<char>
    decreases l, 1nat,
{
    if l is Nil {
        Seq::<char>::empty()
    } else {
        "<"@ + list_text(ns, l) + ">"@
    }
}

/// The function an opaque return type comes from, with its arguments.
pub open spec fn origin_text(ns: Seq<NameEntry>, t: Ty) -> Seq<char> {
    match t {
        Ty::OpaqueReturn { def_id, key_args, .. } => "function `"@ + name_text(ns, def_id) + args_text(ns, key_args)
            + "`"@,
        _ => "`"@ + ty_text(ns, t) + "`"@,
    }
}

/// The prefix naming the argument a mismatch is about.
pub open spec fn argument_text(ns: Seq<NameEntry>, a: Option<u64>) -> Seq<char> {
    match a {
        Some(n) => name_text(ns, n) + ": "@,
        None => Seq::<char>::empty(),
    }
}

pub open spec fn payload_role_text(is_error: bool) -> Seq<char> {
    if is_error {
        "error"@
    } else {
        "result"@
    }
}

pub open spec fn role_text(r: ActorCallableRole) -> Seq<char> {
    match r {
        ActorCallableRole::StateInitializer => "actor state initializer"@,
        ActorCallableRole::StateHandler => "actor state handler"@,
        ActorCallableRole::Handler => "actor handler"@,
    }
}

pub open spec fn operator_text(o: OperatorContext) -> Seq<char> {
    match o {
        OperatorContext::Bitwise => "bitwise operator"@,
    }
}

/// The whole message of an operation that needs `unsafe`.
pub open spec fn reason_text(ns: Seq<NameEntry>, r: UnsafeReason) -> Seq<char> {
    match r {
        UnsafeReason::NullableToNonNullCast => "nullable-to-non-null pointer casts require unsafe block"@,
        UnsafeReason::CastFromVoidPointer => "raw pointer casts from `*void` require unsafe block"@,
        UnsafeReason::UnsafeStructFieldAccess(n) => "field access on unsafe struct `"@ + name_text(ns, n)
            + "` requires unsafe block"@,
        UnsafeReason::UnsafeStructLiteral(n) => "constructing unsafe struct `"@ + name_text(ns, n)
            + "` requires unsafe block"@,
        UnsafeReason::MetaReflectionOfUnsafeStruct(n) => "meta reflection on unsafe struct `"@ + name_text(ns, n)
            + "` requires unsafe block"@,
        UnsafeReason::MetaReconstructionOfUnsafeStruct(n) => "meta reconstruction of unsafe struct `"@ + name_text(
            ns,
            n,
        ) + "` requires unsafe block"@,
        UnsafeReason::RawStorageFromPointer => "call to unsafe function `raw_from_ptr` requires unsafe block"@,
    }
}

/// The number of types in a list, saturating at the largest `u64`.
pub open spec fn clamped_len(l: TyList) -> nat {
    if tys_len(l) > u64::MAX {
        u64::MAX as nat
    } else {
        tys_len(l)
    }
}

/// The message of a diagnostic, with names taken from `ns`.
pub open spec fn diag_text(ns: Seq<NameEntry>, k: DiagKind) -> Seq<char> {
    match k {
        DiagKind::IntegerLiteralInvalid => Seq::<char>::empty() + "integer literal is out of range"@,
        DiagKind::IntegerLiteralOutOfRange { literal, ty } => Seq::<char>::empty() + "integer literal `"@ + text_seq(literal) + "` is out of range for `"@ + ty_text(ns, ty) + "`"@,
        DiagKind::FloatLiteralInvalid => Seq::<char>::empty() + "float literal is invalid"@,
        DiagKind::FloatLiteralOutOfRange { literal } => Seq::<char>::empty() + "float literal `"@ + text_seq(literal) + "` is out of range for `f32`"@,
        DiagKind::CharLiteralNotSingleByte { literal } => Seq::<char>::empty() + "char literal `"@ + text_seq(literal) + "` is not a single byte"@,
        DiagKind::ShiftCountOutOfRange { ty, count, max } => Seq::<char>::empty() + "constant shift count `"@ + text_seq(count) + "` is out of range for `"@ + ty_text(ns, ty) + "`; expected 0.."@ + decimal(max as nat),
        DiagKind::MismatchedIntegerTypes { operator, left, right } => Seq::<char>::empty() + operator_text(operator) + " requires matching integer types, got `"@ + ty_text(ns, left) + "` and `"@ + ty_text(ns, right) + "`"@,
        DiagKind::RequiresUnsafe(f0) => Seq::<char>::empty() + reason_text(ns, f0),
        DiagKind::CannotCastBool { source, target } => Seq::<char>::empty() + "cannot cast between `"@ + ty_text(ns, source) + "` and `"@ + ty_text(ns, target) + "`"@,
        DiagKind::CannotCast { source, target } => Seq::<char>::empty() + "cannot cast `"@ + ty_text(ns, source) + "` to `"@ + ty_text(ns, target) + "`"@,
        DiagKind::PointerCastNotThroughVoid => Seq::<char>::empty() + "pointer casts must go through `*void` or `?*void`"@,
        DiagKind::NeverTypedValue { value_context } => Seq::<char>::empty() + name_text(ns, value_context) + " cannot have type `never`"@,
        DiagKind::OpaqueByValue { value_context, ty } => Seq::<char>::empty() + name_text(ns, value_context) + " cannot use opaque struct `"@ + ty_text(ns, ty) + "` by value"@,
        DiagKind::ContainsNeverValue { value_context } => Seq::<char>::empty() + name_text(ns, value_context) + " cannot contain `never` by value"@,
        DiagKind::ReturnsOpaqueByValue { ty } => Seq::<char>::empty() + "function cannot return opaque struct `"@ + ty_text(ns, ty) + "` by value"@,
        DiagKind::ReturnContainsNever => Seq::<char>::empty() + "function return type cannot contain `never` by value"@,
        DiagKind::ResourceStructWithoutResource { ty } => Seq::<char>::empty() + "resource struct `"@ + ty_text(ns, ty) + "` must contain an owning resource field"@,
        DiagKind::NonResourceStoresResource { ty } => Seq::<char>::empty() + "non-resource struct `"@ + ty_text(ns, ty) + "` cannot store a resource field"@,
        DiagKind::TypeMismatch { expected, actual, argument } => Seq::<char>::empty() + argument_text(ns, argument) + "expected `"@ + ty_text(ns, expected) + "`, got `"@ + ty_text(ns, actual) + "`"@,
        DiagKind::OpaqueReturnMismatch { expected, actual, argument } => Seq::<char>::empty() + argument_text(ns, argument) + "cannot assign opaque return type from "@ + origin_text(ns, actual) + " to opaque return type from "@ + origin_text(ns, expected) + "; opaque return identities are distinct (expected `"@ + ty_text(ns, expected) + "`, got `"@ + ty_text(ns, actual) + "`)"@,
        DiagKind::RelationalOperand { ty } => Seq::<char>::empty() + "relational operator does not accept `"@ + ty_text(ns, ty) + "`"@,
        DiagKind::ArithmeticOperand { ty } => Seq::<char>::empty() + "arithmetic operator does not accept `"@ + ty_text(ns, ty) + "`"@,
        DiagKind::RemainderNeedsIntegers => Seq::<char>::empty() + "`%` requires integer operands"@,
        DiagKind::BitwiseOperand { ty } => Seq::<char>::empty() + "bitwise operator does not accept `"@ + ty_text(ns, ty) + "`"@,
        DiagKind::ShiftOperand { ty } => Seq::<char>::empty() + "shift operator does not accept `"@ + ty_text(ns, ty) + "`"@,
        DiagKind::ShiftCountNotInteger { ty } => Seq::<char>::empty() + "shift count must be an integer, got `"@ + ty_text(ns, ty) + "`"@,
        DiagKind::CannotCompare { left, right } => Seq::<char>::empty() + "cannot compare `"@ + ty_text(ns, left) + "` and `"@ + ty_text(ns, right) + "`"@,
        DiagKind::AggregateComparison => Seq::<char>::empty() + "struct, enum, slice, and dynamic interface values cannot be compared directly"@,
        DiagKind::ClosureComparison => Seq::<char>::empty() + "closure values cannot be compared directly"@,
        DiagKind::NullWithoutPointer => Seq::<char>::empty() + "`null` requires an expected nullable pointer type"@,
        DiagKind::OpaqueReturnRequires { concrete, def_id, args } => Seq::<char>::empty() + "opaque return type requires `"@ + ty_text(ns, concrete) + "` to implement `"@ + name_text(ns, def_id) + args_text(ns, args) + "`"@,
        DiagKind::OpaqueReturnForbids { concrete, def_id, args } => Seq::<char>::empty() + "opaque return type forbids `"@ + ty_text(ns, concrete) + "` from implementing `"@ + name_text(ns, def_id) + args_text(ns, args) + "`"@,
        DiagKind::OpaqueReturnRecursive { opaque } => Seq::<char>::empty() + "opaque return "@ + origin_text(ns, opaque) + " cannot use an opaque return type that resolves back to itself"@,
        DiagKind::OpaqueReturnConflict { existing, concrete } => Seq::<char>::empty() + "opaque return function returns both `"@ + ty_text(ns, existing) + "` and `"@ + ty_text(ns, concrete) + "`"@,
        DiagKind::ClosureConversionRequires { source, def_id, args } => Seq::<char>::empty() + "closure conversion requires `"@ + ty_text(ns, source) + "` to implement `"@ + name_text(ns, def_id) + args_text(ns, args) + "`"@,
        DiagKind::ClosureConversionForbids { source, def_id, args } => Seq::<char>::empty() + "closure conversion forbids `"@ + ty_text(ns, source) + "` from implementing `"@ + name_text(ns, def_id) + args_text(ns, args) + "`"@,
        DiagKind::ConflictingSelector { selector, receiver } => Seq::<char>::empty() + "conflicting selector `."@ + name_text(ns, selector) + "` for receiver `"@ + ty_text(ns, receiver) + "`; selector declarations are not overloaded by non-receiver arguments"@,
        DiagKind::TooManyTypeArguments { label } => Seq::<char>::empty() + "too many type arguments for `"@ + name_text(ns, label) + "`"@,
        DiagKind::ActorHandleArgument { ty } => Seq::<char>::empty() + "actor handle argument must be `*Actor<M>`, got `"@ + ty_text(ns, ty) + "`"@,
        DiagKind::TaskPayloadNotMessage { ty, is_error } => Seq::<char>::empty() + "`async` task "@ + payload_role_text(is_error) + " type `"@ + ty_text(ns, ty) + "` does not implement `Message`"@,
        DiagKind::ChannelPayloadNotMessage { ty } => Seq::<char>::empty() + "async channel payload type `"@ + ty_text(ns, ty) + "` does not implement `Message`"@,
        DiagKind::TaskErrorWithoutRuntimeCarrier { ty } => Seq::<char>::empty() + "`async` task error type `"@ + ty_text(ns, ty) + "` cannot represent async runtime failures"@,
        DiagKind::TaskErrorWithoutMessageCloneCarrier { ty } => Seq::<char>::empty() + "`async` task error type `"@ + ty_text(ns, ty) + "` cannot represent task-boundary message-clone failures"@,
        DiagKind::NullableErrorErasure { concrete, target } => Seq::<char>::empty() + "cannot erase nullable error receiver `"@ + ty_text(ns, concrete) + "` into `"@ + ty_text(ns, target) + "`"@,
        DiagKind::ResourceErrorErasure { concrete, target } => Seq::<char>::empty() + "cannot erase resource-affine type `"@ + ty_text(ns, concrete) + "` into `"@ + ty_text(ns, target) + "`"@,
        DiagKind::NotResource { ty } => Seq::<char>::empty() + "generic constraint not satisfied: `"@ + ty_text(ns, ty) + "` is not a resource-affine type"@,
        DiagKind::UnsatisfiedConstraint { ty, def_id } => Seq::<char>::empty() + "generic constraint not satisfied: `"@ + ty_text(ns, ty) + "` does not implement `"@ + name_text(ns, def_id) + "`"@,
        DiagKind::ForbiddenConstraint { ty, def_id } => Seq::<char>::empty() + "generic constraint not satisfied: `"@ + ty_text(ns, ty) + "` has forbidden capability `"@ + name_text(ns, def_id) + "`"@,
        DiagKind::WrongTypeArgumentCount { name, expected_count, args } => Seq::<char>::empty() + "struct `"@ + name_text(ns, name) + "` expects "@ + decimal(expected_count as nat) + " type arguments, got "@ + decimal(clamped_len(args)),
        DiagKind::NoSuchField { ty, field } => Seq::<char>::empty() + "type `"@ + ty_text(ns, ty) + "` has no field `"@ + name_text(ns, field) + "`"@,
        DiagKind::UnknownField { ty, field } => Seq::<char>::empty() + "unknown field `"@ + name_text(ns, field) + "` on `"@ + ty_text(ns, ty) + "`"@,
        DiagKind::UnknownPayload => Seq::<char>::empty() + "payload type could not be determined"@,
        DiagKind::AmbiguousGenericImpls { interface, .. } => Seq::<char>::empty() + "ambiguous generic impls for interface `"@ + name_text(ns, interface) + "`"@,
        DiagKind::ClosureToExternFunction => Seq::<char>::empty() + "closure expressions cannot produce extern C function pointers"@,
        DiagKind::ClosureToUnsafeFunction => Seq::<char>::empty() + "closure expressions cannot produce unsafe function pointers"@,
        DiagKind::ReplaceResourceSubvalue { ty } => Seq::<char>::empty() + "cannot replace resource subvalue of type `"@ + ty_text(ns, ty) + "`"@,
        DiagKind::MutateCapturedBinding { name } => Seq::<char>::empty() + "cannot mutate captured binding `"@ + name_text(ns, name) + "`"@,
        DiagKind::InitImmutableInLoop { name } => Seq::<char>::empty() + "cannot initialize immutable binding `"@ + name_text(ns, name) + "` from a loop body"@,
        DiagKind::InitImmutableTwice { name } => Seq::<char>::empty() + "cannot initialize immutable binding `"@ + name_text(ns, name) + "` more than once"@,
        DiagKind::ReinitMovedImmutable { name } => Seq::<char>::empty() + "cannot reinitialize moved immutable binding `"@ + name_text(ns, name) + "`"@,
        DiagKind::InitMaybeAssignedImmutable { name } => Seq::<char>::empty() + "cannot initialize maybe-assigned immutable binding `"@ + name_text(ns, name) + "`"@,
        DiagKind::ReinitMaybeMovedImmutable { name } => Seq::<char>::empty() + "cannot reinitialize maybe-moved immutable binding `"@ + name_text(ns, name) + "`"@,
        DiagKind::PartialInitImmutable { name } => Seq::<char>::empty() + "cannot partially initialize immutable binding `"@ + name_text(ns, name) + "`"@,
        DiagKind::MutateImmutableBinding { name } => Seq::<char>::empty() + "cannot mutate immutable binding `"@ + name_text(ns, name) + "`"@,
        DiagKind::WriteThroughReadOnlyPointer => Seq::<char>::empty() + "cannot write through read-only pointer"@,
        DiagKind::WriteThroughReadOnlySlice => Seq::<char>::empty() + "cannot write through read-only slice"@,
        DiagKind::NotWritable => Seq::<char>::empty() + "expression is not writable"@,
        DiagKind::ResourceMovedInLoop { name } => Seq::<char>::empty() + "resource `"@ + name_text(ns, name) + "` is declared outside this loop and cannot be moved inside it"@,
        DiagKind::MoveResourceSubvalue { ty } => Seq::<char>::empty() + "cannot move resource subvalue of type `"@ + ty_text(ns, ty) + "`"@,
        DiagKind::UseOfMovedResource { name } => Seq::<char>::empty() + "use of moved resource `"@ + name_text(ns, name) + "`"@,
        DiagKind::NotDefinitelyAssigned { name } => Seq::<char>::empty() + "local `"@ + name_text(ns, name) + "` is not definitely assigned"@,
        DiagKind::UnresolvedLocal { name } => Seq::<char>::empty() + "unresolved local `"@ + name_text(ns, name) + "`"@,
        DiagKind::ArrowNeedsNonNullPointer { ty } => Seq::<char>::empty() + "`->` requires non-null pointer, got `"@ + ty_text(ns, ty) + "`"@,
        DiagKind::IndexMustBeInteger => Seq::<char>::empty() + "index must be integer"@,
        DiagKind::CannotIndex { ty } => Seq::<char>::empty() + "cannot index `"@ + ty_text(ns, ty) + "`"@,
        DiagKind::DerefNeedsNonNullPointer { ty } => Seq::<char>::empty() + "`*` requires non-null pointer, got `"@ + ty_text(ns, ty) + "`"@,
        DiagKind::CannotDereference { ty } => Seq::<char>::empty() + "cannot dereference `"@ + ty_text(ns, ty) + "`"@,
        DiagKind::NotAssignable => Seq::<char>::empty() + "expression is not assignable"@,
        DiagKind::ClosureAnnotation { ty } => Seq::<char>::empty() + "closure annotation must be a closure or Ciel ABI function type, got `"@ + ty_text(ns, ty) + "`"@,
        DiagKind::ImportedCNotUnsafe => Seq::<char>::empty() + "imported C function declarations must be in `unsafe extern \"C\"` blocks"@,
        DiagKind::ExternCAsync => Seq::<char>::empty() + "`extern \"C\"` functions cannot be async"@,
        DiagKind::ExternCBodyNotExported => Seq::<char>::empty() + "`extern \"C\"` function bodies must be declared with `export`"@,
        DiagKind::ExternCGeneric => Seq::<char>::empty() + "`extern \"C\"` functions cannot be generic"@,
        DiagKind::ExternCClosureType => Seq::<char>::empty() + "closure types are not allowed in extern C declarations"@,
        DiagKind::ExternCVoidParameter => Seq::<char>::empty() + "`extern \"C\"` parameters cannot have type `void` by value"@,
        DiagKind::ConflictingCDeclarations { symbol } => Seq::<char>::empty() + "conflicting `extern \"C\"` declarations for symbol `"@ + name_text(ns, symbol) + "`"@,
        DiagKind::MultipleCDefinitions { symbol } => Seq::<char>::empty() + "multiple definitions of C ABI symbol `"@ + name_text(ns, symbol) + "`"@,
        DiagKind::ActorNotCallable { role, ty } => Seq::<char>::empty() + role_text(role) + " `"@ + ty_text(ns, ty) + "` is not callable"@,
        DiagKind::ActorCallableArity { role, expected_count, params } => Seq::<char>::empty() + role_text(role) + " expects "@ + decimal(expected_count as nat) + " parameters, got "@ + decimal(clamped_len(params)),
        DiagKind::ActorCallableParameter { role, index, expected, actual } => Seq::<char>::empty() + role_text(role) + " parameter "@ + decimal(index as nat) + " mismatch: expected `"@ + ty_text(ns, expected) + "`, got `"@ + ty_text(ns, actual) + "`"@,
        DiagKind::ResourceCannotImplement { ty, interface } => Seq::<char>::empty() + "resource type `"@ + ty_text(ns, ty) + "` cannot implement `"@ + name_text(ns, interface) + "`"@,
        DiagKind::ActorCallableReturn { role, expected, actual } => Seq::<char>::empty() + role_text(role) + " must return `"@ + ty_text(ns, expected) + "`, got `"@ + ty_text(ns, actual) + "`"@,
    }
}

/// The name of a state entry or member in a path: a field by its name,
/// an element by its index (`*` for any), an argument by its position, a
/// variant payload as `Variant#index`; the value's own state has none.
pub open spec fn key_text(ns: Seq<NameEntry>, k: StateKey) -> Seq<char> {
    match k {
        StateKey::Field(n) => name_text(ns, n),
        StateKey::Element(i) => "element "@ + decimal(i as nat),
        StateKey::ElementAny => "element *"@,
        StateKey::Argument(i) => "argument "@ + decimal(i as nat),
        StateKey::External(l) => name_text(ns, l),
        StateKey::Payload(v, i) => name_text(ns, v) + "#"@ + decimal(i as nat),
        StateKey::Unnamed => Seq::<char>::empty(),
    }
}

/// One step of a path to a part of a value.
pub open spec fn step_text(ns: Seq<NameEntry>, st: PathStep) -> Seq<char> {
    match st {
        PathStep::Root(n) => name_text(ns, n),
        PathStep::State(k) => if k is Unnamed {
            " state"@
        } else {
            " state `"@ + key_text(ns, k) + "`"@
        },
        PathStep::Member(k) => "."@ + key_text(ns, k),
        PathStep::Element => " element"@,
    }
}

/// A path to a part of a value, written out step by step.
pub open spec fn path_text(ns: Seq<NameEntry>, p: Seq<PathStep>) -> Seq<char>
    decreases p.len(),
{
    if p.len() == 0 {
        Seq::<char>::empty()
    } else {
        path_text(ns, p.drop_last()) + step_text(ns, p.last())
    }
}

/// The message for a part of a value that may not cross a task boundary:
/// the path to the part, then why.
pub open spec fn violation_text(ns: Seq<NameEntry>, p: Seq<PathStep>, r: BoundaryReason) -> Seq<char> {
    path_text(ns, p) + match r {
        BoundaryReason::OpaqueFutureState => " has opaque future state without a proven `Message` boundary"@,
        BoundaryReason::Recursive { ty } => " is recursive through `"@ + ty_text(ns, ty) + "`"@,
        BoundaryReason::DowncastableError => " has downcastable erased error type `Error`; downcastable erased errors are local-only, use `Report` for transfer"@,
        BoundaryReason::ThreadLocal { ty } => " has ThreadLocal type `"@ + ty_text(ns, ty) + "`"@,
        BoundaryReason::AffineWithoutTransferPolicy { ty } => " has resource-affine type `"@ + ty_text(ns, ty) + "` without an ownership-transfer policy"@,
        BoundaryReason::AffineWithoutMessagePolicy { ty } => " has resource-affine type `"@ + ty_text(ns, ty) + "` without a `Message` policy"@,
        BoundaryReason::GenericWithoutMessage { ty } => " has generic type `"@ + ty_text(ns, ty) + "` without a proven `Message` boundary"@,
        BoundaryReason::CSpelling { ty } => " has opaque C spelling type `"@ + ty_text(ns, ty) + "` without a `Message` policy"@,
        BoundaryReason::RawPointer { ty, nullable } => (if nullable {
            " has nullable raw pointer type `"@
        } else {
            " has raw pointer type `"@
        }) + ty_text(ns, ty) + "`"@,
        BoundaryReason::BorrowedSlice { ty, mutable } => (if mutable {
            " has borrowed mutable slice type `"@
        } else {
            " has borrowed read-only slice type `"@
        }) + ty_text(ns, ty) + "`"@,
        BoundaryReason::ArrayWithoutMessage { ty } => " has fixed-size array type `"@ + ty_text(ns, ty) + "` without a `Message` capability"@,
        BoundaryReason::StructWithoutMessage { ty } => " has struct type `"@ + ty_text(ns, ty) + "` without a `Message` capability"@,
        BoundaryReason::EnumWithoutMessage { ty } => " has enum type `"@ + ty_text(ns, ty) + "` without a `Message` capability"@,
        BoundaryReason::NominalWithoutMessage { ty } => " has nominal type `"@ + ty_text(ns, ty) + "` without a `Message` capability"@,
        BoundaryReason::DynamicInterface { ty } => " has dynamic interface type `"@ + ty_text(ns, ty) + "` without a `Message` policy"@,
        BoundaryReason::OpaqueReturn { ty } => " has opaque return type `"@ + ty_text(ns, ty) + "` without a `Message` policy"@,
        BoundaryReason::FunctionPointer { ty } => " has function pointer type `"@ + ty_text(ns, ty) + "` without a `Message` policy"@,
        BoundaryReason::Closure { ty } => " has closure type `"@ + ty_text(ns, ty) + "` without a `Message` policy"@,
    }
}

/// The path of module `m` as written (`#m` for an id that names no
/// module).
pub open spec fn module_path_text(mods: Seq<ModuleInfo>, m: u64) -> Seq<char> {
    if m < mods.len() {
        text_seq(mods[m as int].path)
    } else {
        "#"@ + decimal(m as nat)
    }
}

/// One note per candidate module of `l`, numbered from `k`, for the first
/// three candidates.
pub open spec fn candidate_notes(mods: Seq<ModuleInfo>, l: IdList, k: nat) -> Seq<Seq<char>>
    decreases l,
{
    match l {
        IdList::Nil => seq![],
        IdList::Cons(m, rest) => if k > 3 {
            seq![]
        } else {
            seq![
                "candidate "@ + decimal(k) + ": generic impl declared in module `"@ + module_path_text(mods, m)
                    + "`"@,
            ] + candidate_notes(mods, *rest, k + 1)
        },
    }
}

/// The notes a diagnostic carries besides its message: the candidates of
/// an ambiguous generic impl.
pub open spec fn diag_notes(mods: Seq<ModuleInfo>, k: DiagKind) -> Seq<Seq<char>> {
    match k {
        DiagKind::AmbiguousGenericImpls { candidates, .. } => candidate_notes(mods, candidates, 1),
        _ => seq![],
    }
}

/// The texts of a sequence of strings.
pub open spec fn texts(v: Seq<String>) -> Seq<Seq<char>> {
    v.map_values(|x: String| x@)
}

/// `String::push`: appends the character at the end of the string (std
/// documents exactly this).
#[verifier::external_body]
fn push_char(s: &mut String, c: char)
    ensures
        final(s)@ == old(s)@.push(c),
{
    s.push(c);
}

fn push_text(s: &mut String, t: &Text)
    ensures
        final(s)@ == old(s)@ + text_seq(*t),
    decreases t,
{
    let ghost start = s@;
    match t {
        Text::End => {},
        Text::Char(c, rest) => {
            push_char(s, *c);
            push_text(s, rest);
        },
    }
    assert(s@ =~= start + text_seq(*t));
}

fn digit_str(d: u128) -> (r: &'static str)
    requires
        d < 10,
    ensures
        r@ == digit_text(d as nat),
{
    if d == 0 {
        "0"
    } else if d == 1 {
        "1"
    } else if d == 2 {
        "2"
    } else if d == 3 {
        "3"
    } else if d == 4 {
        "4"
    } else if d == 5 {
        "5"
    } else if d == 6 {
        "6"
    } else if d == 7 {
        "7"
    } else if d == 8 {
        "8"
    } else {
        "9"
    }
}

fn push_decimal(s: &mut String, n: u128)
    ensures
        final(s)@ == old(s)@ + decimal(n as nat),
    decreases n,
{
    if n < 10 {
        s.append(digit_str(n));
    } else {
        let ghost start = s@;
        push_decimal(s, n / 10);
        s.append(digit_str(n % 10));
        assert(s@ =~= start + decimal(n as nat));
    }
}


fn find_name(ns: &Vec<NameEntry>, n: u64) -> (r: Option<usize>)
    ensures
        match r {
            Some(i) => i < ns@.len() && name_entry(ns@, n) == Some(ns@[i as int].text),
            None => name_entry(ns@, n) is None,
        },
{
    let mut i: usize = 0;
    assert(ns@.skip(0) =~= ns@);
    while i < ns.len()
        invariant
            i <= ns.len(),
            name_entry(ns@, n) == name_entry(ns@.skip(i as int), n),
        decreases ns.len() - i,
    {
        assert(ns@.skip(i as int).drop_first() =~= ns@.skip(i + 1));
        if ns[i].id == n {
            return Some(i);
        }
        i += 1;
    }
    None
}

fn push_name(s: &mut String, ns: &Vec<NameEntry>, n: u64)
    ensures
        final(s)@ == old(s)@ + name_text(ns@, n),
{
    let ghost start = s@;
    match find_name(ns, n) {
        Some(i) => push_text(s, &ns[i].text),
        None => {
            s.append("#");
            push_decimal(s, n as u128);
        },
    }
    assert(s@ =~= start + name_text(ns@, n));
}

fn push_view(s: &mut String, m: ViewMutability)
    ensures
        final(s)@ == old(s)@ + view_text(m),
{
    match m {
        ViewMutability::ReadOnly => s.append("const "),
        ViewMutability::Mutable => {
            assert(old(s)@ + Seq::<char>::empty() =~= old(s)@);
        },
    }
}

fn push_ty(s: &mut String, ns: &Vec<NameEntry>, t: &Ty)
    ensures
        final(s)@ == old(s)@ + ty_text(ns@, *t),
    decreases t, 1nat,
{
    let ghost start = s@;
    match t {
        Ty::Void => s.append("void"),
        Ty::Never => s.append("never"),
        Ty::Bool => s.append("bool"),
        Ty::Char => s.append("char"),
        Ty::I8 => s.append("i8"),
        Ty::I16 => s.append("i16"),
        Ty::I32 => s.append("i32"),
        Ty::I64 => s.append("i64"),
        Ty::U8 => s.append("u8"),
        Ty::U16 => s.append("u16"),
        Ty::U32 => s.append("u32"),
        Ty::U64 => s.append("u64"),
        Ty::Usize => s.append("usize"),
        Ty::Float32 => s.append("f32"),
        Ty::Float64 => s.append("f64"),
        Ty::Unknown => s.append("unknown"),
        Ty::Hole(id) => {
            s.append("?");
            push_decimal(s, *id as u128);
        },
        Ty::Generic(n) => push_name(s, ns, *n),
        Ty::CSpelling(n) => push_name(s, ns, *n),
        Ty::Pointer { nullable, mutability, inner } => {
            if *nullable {
                s.append("?*");
            } else {
                s.append("*");
            }
            push_view(s, *mutability);
            push_ty(s, ns, inner);
        },
        Ty::Array { len, elem } => {
            s.append("[");
            push_decimal(s, *len as u128);
            s.append("]");
            push_ty(s, ns, elem);
        },
        Ty::Slice { mutability, elem } => {
            s.append("[]");
            push_view(s, *mutability);
            push_ty(s, ns, elem);
        },
        Ty::Named { name, args } => {
            push_name(s, ns, *name);
            push_args(s, ns, args);
        },
        Ty::DynamicInterface { def_id, args } => {
            s.append("dyn ");
            push_name(s, ns, *def_id);
            push_args(s, ns, args);
        },
        Ty::Function { is_unsafe, c_abi, ret, params } => {
            let ghost s0 = s@;
            if *is_unsafe {
                s.append("unsafe ");
            }
            let ghost s1 = s@;
            if *c_abi {
                s.append("C ");
            }
            let ghost s2 = s@;
            s.append("fn(");
            push_list(s, ns, params);
            s.append(") -> ");
            push_ty(s, ns, ret);
            assert(s1 =~= s0 + (if *is_unsafe {
                "unsafe "@
            } else {
                Seq::<char>::empty()
            }));
            assert(s2 =~= s1 + (if *c_abi {
                "C "@
            } else {
                Seq::<char>::empty()
            }));
        },
        Ty::Closure { ret, params, .. } => {
            s.append("closure(");
            push_list(s, ns, params);
            s.append(") -> ");
            push_ty(s, ns, ret);
        },
        Ty::ClosureInstance { id, ret, params, .. } => {
            s.append("closure#");
            push_decimal(s, *id as u128);
            s.append("(");
            push_list(s, ns, params);
            s.append(") -> ");
            push_ty(s, ns, ret);
        },
        Ty::GeneratedFuture { output, .. } => {
            s.append("future<");
            push_ty(s, ns, output);
            s.append(">");
        },
        Ty::OpaqueReturn { def_id, key_args, .. } => {
            s.append("opaque ");
            push_name(s, ns, *def_id);
            push_args(s, ns, key_args);
        },
        Ty::OpaqueState { base, .. } => {
            push_ty(s, ns, base);
            s.append(" with hidden state");
        },
    }
    assert(s@ =~= start + ty_text(ns@, *t));
}

fn push_list(s: &mut String, ns: &Vec<NameEntry>, l: &TyList)
    ensures
        final(s)@ == old(s)@ + list_text(ns@, *l),
    decreases l, 0nat,
{
    let ghost start = s@;
    match l {
        TyList::Nil => {},
        TyList::Cons(h, t) => {
            push_ty(s, ns, h);
            match &**t {
                TyList::Nil => {},
                _ => {
                    s.append(", ");
                    push_list(s, ns, t);
                },
            }
        },
    }
    assert(s@ =~= start + list_text(ns@, *l));
}

fn push_args(s: &mut String, ns: &Vec<NameEntry>, l: &TyList)
    ensures
        final(s)@ == old(s)@ + args_text(ns@, *l),
    decreases l, 1nat,
{
    let ghost start = s@;
    match l {
        TyList::Nil => {},
        _ => {
            s.append("<");
            push_list(s, ns, l);
            s.append(">");
        },
    }
    assert(s@ =~= start + args_text(ns@, *l));
}

fn push_origin(s: &mut String, ns: &Vec<NameEntry>, t: &Ty)
    ensures
        final(s)@ == old(s)@ + origin_text(ns@, *t),
{
    let ghost start = s@;
    match t {
        Ty::OpaqueReturn { def_id, key_args, .. } => {
            s.append("function `");
            push_name(s, ns, *def_id);
            push_args(s, ns, key_args);
            s.append("`");
        },
        _ => {
            s.append("`");
            push_ty(s, ns, t);
            s.append("`");
        },
    }
    assert(s@ =~= start + origin_text(ns@, *t));
}

fn push_argument(s: &mut String, ns: &Vec<NameEntry>, a: &Option<u64>)
    ensures
        final(s)@ == old(s)@ + argument_text(ns@, *a),
{
    let ghost start = s@;
    match a {
        Some(n) => {
            push_name(s, ns, *n);
            s.append(": ");
        },
        None => {},
    }
    assert(s@ =~= start + argument_text(ns@, *a));
}

fn push_payload_role(s: &mut String, is_error: bool)
    ensures
        final(s)@ == old(s)@ + payload_role_text(is_error),
{
    if is_error {
        s.append("error");
    } else {
        s.append("result");
    }
}

fn push_role(s: &mut String, r: ActorCallableRole)
    ensures
        final(s)@ == old(s)@ + role_text(r),
{
    match r {
        ActorCallableRole::StateInitializer => s.append("actor state initializer"),
        ActorCallableRole::StateHandler => s.append("actor state handler"),
        ActorCallableRole::Handler => s.append("actor handler"),
    }
}

fn push_operator(s: &mut String, o: OperatorContext)
    ensures
        final(s)@ == old(s)@ + operator_text(o),
{
    match o {
        OperatorContext::Bitwise => s.append("bitwise operator"),
    }
}

fn push_reason(s: &mut String, ns: &Vec<NameEntry>, r: UnsafeReason)
    ensures
        final(s)@ == old(s)@ + reason_text(ns@, r),
{
    let ghost start = s@;
    match r {
        UnsafeReason::NullableToNonNullCast => s.append("nullable-to-non-null pointer casts require unsafe block"),
        UnsafeReason::CastFromVoidPointer => s.append("raw pointer casts from `*void` require unsafe block"),
        UnsafeReason::UnsafeStructFieldAccess(n) => {
            s.append("field access on unsafe struct `");
            push_name(s, ns, n);
            s.append("` requires unsafe block");
        },
        UnsafeReason::UnsafeStructLiteral(n) => {
            s.append("constructing unsafe struct `");
            push_name(s, ns, n);
            s.append("` requires unsafe block");
        },
        UnsafeReason::MetaReflectionOfUnsafeStruct(n) => {
            s.append("meta reflection on unsafe struct `");
            push_name(s, ns, n);
            s.append("` requires unsafe block");
        },
        UnsafeReason::MetaReconstructionOfUnsafeStruct(n) => {
            s.append("meta reconstruction of unsafe struct `");
            push_name(s, ns, n);
            s.append("` requires unsafe block");
        },
        UnsafeReason::RawStorageFromPointer => s.append("call to unsafe function `raw_from_ptr` requires unsafe block"),
    }
    assert(s@ =~= start + reason_text(ns@, r));
}

fn list_len_saturating(l: &TyList) -> (r: u64)
    ensures
        r == clamped_len(*l),
    decreases l,
{
    match l {
        TyList::Nil => 0,
        TyList::Cons(_, t) => {
            let k = list_len_saturating(t);
            if k == u64::MAX {
                k
            } else {
                k + 1
            }
        },
    }
}

/// Appends the number of types in a list.
fn push_count_of(s: &mut String, l: &TyList)
    ensures
        final(s)@ == old(s)@ + decimal(clamped_len(*l)),
{
    let n = list_len_saturating(l);
    push_decimal(s, n as u128);
}

fn render_kind(ns: &Vec<NameEntry>, k: &DiagKind) -> (r: String)
    ensures
        r@ == diag_text(ns@, *k),
{
    let mut s = String::new();
    match k {
            DiagKind::IntegerLiteralInvalid => {
                s.append("integer literal is out of range");
            },
            DiagKind::IntegerLiteralOutOfRange { literal, ty } => {
                s.append("integer literal `");
                push_text(&mut s, literal);
                s.append("` is out of range for `");
                push_ty(&mut s, ns, ty);
                s.append("`");
            },
            DiagKind::FloatLiteralInvalid => {
                s.append("float literal is invalid");
            },
            DiagKind::FloatLiteralOutOfRange { literal } => {
                s.append("float literal `");
                push_text(&mut s, literal);
                s.append("` is out of range for `f32`");
            },
            DiagKind::CharLiteralNotSingleByte { literal } => {
                s.append("char literal `");
                push_text(&mut s, literal);
                s.append("` is not a single byte");
            },
            DiagKind::ShiftCountOutOfRange { ty, count, max } => {
                s.append("constant shift count `");
                push_text(&mut s, count);
                s.append("` is out of range for `");
                push_ty(&mut s, ns, ty);
                s.append("`; expected 0..");
                push_decimal(&mut s, *max as u128);
            },
            DiagKind::MismatchedIntegerTypes { operator, left, right } => {
                push_operator(&mut s, *operator);
                s.append(" requires matching integer types, got `");
                push_ty(&mut s, ns, left);
                s.append("` and `");
                push_ty(&mut s, ns, right);
                s.append("`");
            },
            DiagKind::RequiresUnsafe(f0) => {
                push_reason(&mut s, ns, *f0);
            },
            DiagKind::CannotCastBool { source, target } => {
                s.append("cannot cast between `");
                push_ty(&mut s, ns, source);
                s.append("` and `");
                push_ty(&mut s, ns, target);
                s.append("`");
            },
            DiagKind::CannotCast { source, target } => {
                s.append("cannot cast `");
                push_ty(&mut s, ns, source);
                s.append("` to `");
                push_ty(&mut s, ns, target);
                s.append("`");
            },
            DiagKind::PointerCastNotThroughVoid => {
                s.append("pointer casts must go through `*void` or `?*void`");
            },
            DiagKind::NeverTypedValue { value_context } => {
                push_name(&mut s, ns, *value_context);
                s.append(" cannot have type `never`");
            },
            DiagKind::OpaqueByValue { value_context, ty } => {
                push_name(&mut s, ns, *value_context);
                s.append(" cannot use opaque struct `");
                push_ty(&mut s, ns, ty);
                s.append("` by value");
            },
            DiagKind::ContainsNeverValue { value_context } => {
                push_name(&mut s, ns, *value_context);
                s.append(" cannot contain `never` by value");
            },
            DiagKind::ReturnsOpaqueByValue { ty } => {
                s.append("function cannot return opaque struct `");
                push_ty(&mut s, ns, ty);
                s.append("` by value");
            },
            DiagKind::ReturnContainsNever => {
                s.append("function return type cannot contain `never` by value");
            },
            DiagKind::ResourceStructWithoutResource { ty } => {
                s.append("resource struct `");
                push_ty(&mut s, ns, ty);
                s.append("` must contain an owning resource field");
            },
            DiagKind::NonResourceStoresResource { ty } => {
                s.append("non-resource struct `");
                push_ty(&mut s, ns, ty);
                s.append("` cannot store a resource field");
            },
            DiagKind::TypeMismatch { expected, actual, argument } => {
                push_argument(&mut s, ns, argument);
                s.append("expected `");
                push_ty(&mut s, ns, expected);
                s.append("`, got `");
                push_ty(&mut s, ns, actual);
                s.append("`");
            },
            DiagKind::OpaqueReturnMismatch { expected, actual, argument } => {
                push_argument(&mut s, ns, argument);
                s.append("cannot assign opaque return type from ");
                push_origin(&mut s, ns, actual);
                s.append(" to opaque return type from ");
                push_origin(&mut s, ns, expected);
                s.append("; opaque return identities are distinct (expected `");
                push_ty(&mut s, ns, expected);
                s.append("`, got `");
                push_ty(&mut s, ns, actual);
                s.append("`)");
            },
            DiagKind::RelationalOperand { ty } => {
                s.append("relational operator does not accept `");
                push_ty(&mut s, ns, ty);
                s.append("`");
            },
            DiagKind::ArithmeticOperand { ty } => {
                s.append("arithmetic operator does not accept `");
                push_ty(&mut s, ns, ty);
                s.append("`");
            },
            DiagKind::RemainderNeedsIntegers => {
                s.append("`%` requires integer operands");
            },
            DiagKind::BitwiseOperand { ty } => {
                s.append("bitwise operator does not accept `");
                push_ty(&mut s, ns, ty);
                s.append("`");
            },
            DiagKind::ShiftOperand { ty } => {
                s.append("shift operator does not accept `");
                push_ty(&mut s, ns, ty);
                s.append("`");
            },
            DiagKind::ShiftCountNotInteger { ty } => {
                s.append("shift count must be an integer, got `");
                push_ty(&mut s, ns, ty);
                s.append("`");
            },
            DiagKind::CannotCompare { left, right } => {
                s.append("cannot compare `");
                push_ty(&mut s, ns, left);
                s.append("` and `");
                push_ty(&mut s, ns, right);
                s.append("`");
            },
            DiagKind::AggregateComparison => {
                s.append("struct, enum, slice, and dynamic interface values cannot be compared directly");
            },
            DiagKind::ClosureComparison => {
                s.append("closure values cannot be compared directly");
            },
            DiagKind::NullWithoutPointer => {
                s.append("`null` requires an expected nullable pointer type");
            },
            DiagKind::OpaqueReturnRequires { concrete, def_id, args } => {
                s.append("opaque return type requires `");
                push_ty(&mut s, ns, concrete);
                s.append("` to implement `");
                push_name(&mut s, ns, *def_id);
                push_args(&mut s, ns, args);
                s.append("`");
            },
            DiagKind::OpaqueReturnForbids { concrete, def_id, args } => {
                s.append("opaque return type forbids `");
                push_ty(&mut s, ns, concrete);
                s.append("` from implementing `");
                push_name(&mut s, ns, *def_id);
                push_args(&mut s, ns, args);
                s.append("`");
            },
            DiagKind::OpaqueReturnRecursive { opaque } => {
                s.append("opaque return ");
                push_origin(&mut s, ns, opaque);
                s.append(" cannot use an opaque return type that resolves back to itself");
            },
            DiagKind::OpaqueReturnConflict { existing, concrete } => {
                s.append("opaque return function returns both `");
                push_ty(&mut s, ns, existing);
                s.append("` and `");
                push_ty(&mut s, ns, concrete);
                s.append("`");
            },
            DiagKind::ClosureConversionRequires { source, def_id, args } => {
                s.append("closure conversion requires `");
                push_ty(&mut s, ns, source);
                s.append("` to implement `");
                push_name(&mut s, ns, *def_id);
                push_args(&mut s, ns, args);
                s.append("`");
            },
            DiagKind::ClosureConversionForbids { source, def_id, args } => {
                s.append("closure conversion forbids `");
                push_ty(&mut s, ns, source);
                s.append("` from implementing `");
                push_name(&mut s, ns, *def_id);
                push_args(&mut s, ns, args);
                s.append("`");
            },
            DiagKind::ConflictingSelector { selector, receiver } => {
                s.append("conflicting selector `.");
                push_name(&mut s, ns, *selector);
                s.append("` for receiver `");
                push_ty(&mut s, ns, receiver);
                s.append("`; selector declarations are not overloaded by non-receiver arguments");
            },
            DiagKind::TooManyTypeArguments { label } => {
                s.append("too many type arguments for `");
                push_name(&mut s, ns, *label);
                s.append("`");
            },
            DiagKind::ActorHandleArgument { ty } => {
                s.append("actor handle argument must be `*Actor<M>`, got `");
                push_ty(&mut s, ns, ty);
                s.append("`");
            },
            DiagKind::TaskPayloadNotMessage { ty, is_error } => {
                s.append("`async` task ");
                push_payload_role(&mut s, *is_error);
                s.append(" type `");
                push_ty(&mut s, ns, ty);
                s.append("` does not implement `Message`");
            },
            DiagKind::ChannelPayloadNotMessage { ty } => {
                s.append("async channel payload type `");
                push_ty(&mut s, ns, ty);
                s.append("` does not implement `Message`");
            },
            DiagKind::TaskErrorWithoutRuntimeCarrier { ty } => {
                s.append("`async` task error type `");
                push_ty(&mut s, ns, ty);
                s.append("` cannot represent async runtime failures");
            },
            DiagKind::TaskErrorWithoutMessageCloneCarrier { ty } => {
                s.append("`async` task error type `");
                push_ty(&mut s, ns, ty);
                s.append("` cannot represent task-boundary message-clone failures");
            },
            DiagKind::NullableErrorErasure { concrete, target } => {
                s.append("cannot erase nullable error receiver `");
                push_ty(&mut s, ns, concrete);
                s.append("` into `");
                push_ty(&mut s, ns, target);
                s.append("`");
            },
            DiagKind::ResourceErrorErasure { concrete, target } => {
                s.append("cannot erase resource-affine type `");
                push_ty(&mut s, ns, concrete);
                s.append("` into `");
                push_ty(&mut s, ns, target);
                s.append("`");
            },
            DiagKind::NotResource { ty } => {
                s.append("generic constraint not satisfied: `");
                push_ty(&mut s, ns, ty);
                s.append("` is not a resource-affine type");
            },
            DiagKind::UnsatisfiedConstraint { ty, def_id } => {
                s.append("generic constraint not satisfied: `");
                push_ty(&mut s, ns, ty);
                s.append("` does not implement `");
                push_name(&mut s, ns, *def_id);
                s.append("`");
            },
            DiagKind::ForbiddenConstraint { ty, def_id } => {
                s.append("generic constraint not satisfied: `");
                push_ty(&mut s, ns, ty);
                s.append("` has forbidden capability `");
                push_name(&mut s, ns, *def_id);
                s.append("`");
            },
            DiagKind::WrongTypeArgumentCount { name, expected_count, args } => {
                s.append("struct `");
                push_name(&mut s, ns, *name);
                s.append("` expects ");
                push_decimal(&mut s, *expected_count as u128);
                s.append(" type arguments, got ");
                push_count_of(&mut s, args);
            },
            DiagKind::NoSuchField { ty, field } => {
                s.append("type `");
                push_ty(&mut s, ns, ty);
                s.append("` has no field `");
                push_name(&mut s, ns, *field);
                s.append("`");
            },
            DiagKind::UnknownField { ty, field } => {
                s.append("unknown field `");
                push_name(&mut s, ns, *field);
                s.append("` on `");
                push_ty(&mut s, ns, ty);
                s.append("`");
            },
            DiagKind::UnknownPayload => {
                s.append("payload type could not be determined");
            },
            DiagKind::AmbiguousGenericImpls { interface, .. } => {
                s.append("ambiguous generic impls for interface `");
                push_name(&mut s, ns, *interface);
                s.append("`");
            },
            DiagKind::ClosureToExternFunction => {
                s.append("closure expressions cannot produce extern C function pointers");
            },
            DiagKind::ClosureToUnsafeFunction => {
                s.append("closure expressions cannot produce unsafe function pointers");
            },
            DiagKind::ReplaceResourceSubvalue { ty } => {
                s.append("cannot replace resource subvalue of type `");
                push_ty(&mut s, ns, ty);
                s.append("`");
            },
            DiagKind::MutateCapturedBinding { name } => {
                s.append("cannot mutate captured binding `");
                push_name(&mut s, ns, *name);
                s.append("`");
            },
            DiagKind::InitImmutableInLoop { name } => {
                s.append("cannot initialize immutable binding `");
                push_name(&mut s, ns, *name);
                s.append("` from a loop body");
            },
            DiagKind::InitImmutableTwice { name } => {
                s.append("cannot initialize immutable binding `");
                push_name(&mut s, ns, *name);
                s.append("` more than once");
            },
            DiagKind::ReinitMovedImmutable { name } => {
                s.append("cannot reinitialize moved immutable binding `");
                push_name(&mut s, ns, *name);
                s.append("`");
            },
            DiagKind::InitMaybeAssignedImmutable { name } => {
                s.append("cannot initialize maybe-assigned immutable binding `");
                push_name(&mut s, ns, *name);
                s.append("`");
            },
            DiagKind::ReinitMaybeMovedImmutable { name } => {
                s.append("cannot reinitialize maybe-moved immutable binding `");
                push_name(&mut s, ns, *name);
                s.append("`");
            },
            DiagKind::PartialInitImmutable { name } => {
                s.append("cannot partially initialize immutable binding `");
                push_name(&mut s, ns, *name);
                s.append("`");
            },
            DiagKind::MutateImmutableBinding { name } => {
                s.append("cannot mutate immutable binding `");
                push_name(&mut s, ns, *name);
                s.append("`");
            },
            DiagKind::WriteThroughReadOnlyPointer => {
                s.append("cannot write through read-only pointer");
            },
            DiagKind::WriteThroughReadOnlySlice => {
                s.append("cannot write through read-only slice");
            },
            DiagKind::NotWritable => {
                s.append("expression is not writable");
            },
            DiagKind::ResourceMovedInLoop { name } => {
                s.append("resource `");
                push_name(&mut s, ns, *name);
                s.append("` is declared outside this loop and cannot be moved inside it");
            },
            DiagKind::MoveResourceSubvalue { ty } => {
                s.append("cannot move resource subvalue of type `");
                push_ty(&mut s, ns, ty);
                s.append("`");
            },
            DiagKind::UseOfMovedResource { name } => {
                s.append("use of moved resource `");
                push_name(&mut s, ns, *name);
                s.append("`");
            },
            DiagKind::NotDefinitelyAssigned { name } => {
                s.append("local `");
                push_name(&mut s, ns, *name);
                s.append("` is not definitely assigned");
            },
            DiagKind::UnresolvedLocal { name } => {
                s.append("unresolved local `");
                push_name(&mut s, ns, *name);
                s.append("`");
            },
            DiagKind::ArrowNeedsNonNullPointer { ty } => {
                s.append("`->` requires non-null pointer, got `");
                push_ty(&mut s, ns, ty);
                s.append("`");
            },
            DiagKind::IndexMustBeInteger => {
                s.append("index must be integer");
            },
            DiagKind::CannotIndex { ty } => {
                s.append("cannot index `");
                push_ty(&mut s, ns, ty);
                s.append("`");
            },
            DiagKind::DerefNeedsNonNullPointer { ty } => {
                s.append("`*` requires non-null pointer, got `");
                push_ty(&mut s, ns, ty);
                s.append("`");
            },
            DiagKind::CannotDereference { ty } => {
                s.append("cannot dereference `");
                push_ty(&mut s, ns, ty);
                s.append("`");
            },
            DiagKind::NotAssignable => {
                s.append("expression is not assignable");
            },
            DiagKind::ClosureAnnotation { ty } => {
                s.append("closure annotation must be a closure or Ciel ABI function type, got `");
                push_ty(&mut s, ns, ty);
                s.append("`");
            },
            DiagKind::ImportedCNotUnsafe => {
                s.append("imported C function declarations must be in `unsafe extern \"C\"` blocks");
            },
            DiagKind::ExternCAsync => {
                s.append("`extern \"C\"` functions cannot be async");
            },
            DiagKind::ExternCBodyNotExported => {
                s.append("`extern \"C\"` function bodies must be declared with `export`");
            },
            DiagKind::ExternCGeneric => {
                s.append("`extern \"C\"` functions cannot be generic");
            },
            DiagKind::ExternCClosureType => {
                s.append("closure types are not allowed in extern C declarations");
            },
            DiagKind::ExternCVoidParameter => {
                s.append("`extern \"C\"` parameters cannot have type `void` by value");
            },
            DiagKind::ConflictingCDeclarations { symbol } => {
                s.append("conflicting `extern \"C\"` declarations for symbol `");
                push_name(&mut s, ns, *symbol);
                s.append("`");
            },
            DiagKind::MultipleCDefinitions { symbol } => {
                s.append("multiple definitions of C ABI symbol `");
                push_name(&mut s, ns, *symbol);
                s.append("`");
            },
            DiagKind::ActorNotCallable { role, ty } => {
                push_role(&mut s, *role);
                s.append(" `");
                push_ty(&mut s, ns, ty);
                s.append("` is not callable");
            },
            DiagKind::ActorCallableArity { role, expected_count, params } => {
                push_role(&mut s, *role);
                s.append(" expects ");
                push_decimal(&mut s, *expected_count as u128);
                s.append(" parameters, got ");
                push_count_of(&mut s, params);
            },
            DiagKind::ActorCallableParameter { role, index, expected, actual } => {
                push_role(&mut s, *role);
                s.append(" parameter ");
                push_decimal(&mut s, *index as u128);
                s.append(" mismatch: expected `");
                push_ty(&mut s, ns, expected);
                s.append("`, got `");
                push_ty(&mut s, ns, actual);
                s.append("`");
            },
            DiagKind::ResourceCannotImplement { ty, interface } => {
                s.append("resource type `");
                push_ty(&mut s, ns, ty);
                s.append("` cannot implement `");
                push_name(&mut s, ns, *interface);
                s.append("`");
            },
            DiagKind::ActorCallableReturn { role, expected, actual } => {
                push_role(&mut s, *role);
                s.append(" must return `");
                push_ty(&mut s, ns, expected);
                s.append("`, got `");
                push_ty(&mut s, ns, actual);
                s.append("`");
            },
    }
    s
}

impl TypeChecker {
    /// The message a diagnostic reports, with the program's names (see
    /// `diag_text`).
    pub fn diagnostic_message(&self, k: &DiagKind) -> (r: String)
        ensures
            r@ == diag_text(self.program.names@, *k),
    {
        render_kind(&self.program.names, k)
    }
}


fn push_key(s: &mut String, ns: &Vec<NameEntry>, k: StateKey)
    ensures
        final(s)@ == old(s)@ + key_text(ns@, k),
{
    let ghost start = s@;
    match k {
        StateKey::Field(n) => push_name(s, ns, n),
        StateKey::Element(i) => {
            s.append("element ");
            push_decimal(s, i as u128);
        },
        StateKey::ElementAny => s.append("element *"),
        StateKey::Argument(i) => {
            s.append("argument ");
            push_decimal(s, i as u128);
        },
        StateKey::External(l) => push_name(s, ns, l),
        StateKey::Payload(v, i) => {
            push_name(s, ns, v);
            s.append("#");
            push_decimal(s, i as u128);
        },
        StateKey::Unnamed => {},
    }
    assert(s@ =~= start + key_text(ns@, k));
}

fn push_step(s: &mut String, ns: &Vec<NameEntry>, st: PathStep)
    ensures
        final(s)@ == old(s)@ + step_text(ns@, st),
{
    let ghost start = s@;
    match st {
        PathStep::Root(n) => push_name(s, ns, n),
        PathStep::State(k) => {
            if let StateKey::Unnamed = k {
                s.append(" state");
            } else {
                s.append(" state `");
                push_key(s, ns, k);
                s.append("`");
            }
        },
        PathStep::Member(k) => {
            s.append(".");
            push_key(s, ns, k);
        },
        PathStep::Element => s.append(" element"),
    }
    assert(s@ =~= start + step_text(ns@, st));
}

fn push_reason_of(s: &mut String, ns: &Vec<NameEntry>, r: &BoundaryReason)
    ensures
        final(s)@ == old(s)@ + (violation_text(ns@, Seq::empty(), *r)),
{
    let ghost start = s@;
    match r {
        BoundaryReason::OpaqueFutureState => s.append(" has opaque future state without a proven `Message` boundary"),
        BoundaryReason::Recursive { ty } => {
            s.append(" is recursive through `");
            push_ty(s, ns, ty);
            s.append("`");
        },
        BoundaryReason::DowncastableError => s.append(
            " has downcastable erased error type `Error`; downcastable erased errors are local-only, use `Report` for transfer",
        ),
        BoundaryReason::ThreadLocal { ty } => {
            s.append(" has ThreadLocal type `");
            push_ty(s, ns, ty);
            s.append("`");
        },
        BoundaryReason::AffineWithoutTransferPolicy { ty } => {
            s.append(" has resource-affine type `");
            push_ty(s, ns, ty);
            s.append("` without an ownership-transfer policy");
        },
        BoundaryReason::AffineWithoutMessagePolicy { ty } => {
            s.append(" has resource-affine type `");
            push_ty(s, ns, ty);
            s.append("` without a `Message` policy");
        },
        BoundaryReason::GenericWithoutMessage { ty } => {
            s.append(" has generic type `");
            push_ty(s, ns, ty);
            s.append("` without a proven `Message` boundary");
        },
        BoundaryReason::CSpelling { ty } => {
            s.append(" has opaque C spelling type `");
            push_ty(s, ns, ty);
            s.append("` without a `Message` policy");
        },
        BoundaryReason::RawPointer { ty, nullable } => {
            if *nullable {
                s.append(" has nullable raw pointer type `");
            } else {
                s.append(" has raw pointer type `");
            }
            push_ty(s, ns, ty);
            s.append("`");
        },
        BoundaryReason::BorrowedSlice { ty, mutable } => {
            if *mutable {
                s.append(" has borrowed mutable slice type `");
            } else {
                s.append(" has borrowed read-only slice type `");
            }
            push_ty(s, ns, ty);
            s.append("`");
        },
        BoundaryReason::ArrayWithoutMessage { ty } => {
            s.append(" has fixed-size array type `");
            push_ty(s, ns, ty);
            s.append("` without a `Message` capability");
        },
        BoundaryReason::StructWithoutMessage { ty } => {
            s.append(" has struct type `");
            push_ty(s, ns, ty);
            s.append("` without a `Message` capability");
        },
        BoundaryReason::EnumWithoutMessage { ty } => {
            s.append(" has enum type `");
            push_ty(s, ns, ty);
            s.append("` without a `Message` capability");
        },
        BoundaryReason::NominalWithoutMessage { ty } => {
            s.append(" has nominal type `");
            push_ty(s, ns, ty);
            s.append("` without a `Message` capability");
        },
        BoundaryReason::DynamicInterface { ty } => {
            s.append(" has dynamic interface type `");
            push_ty(s, ns, ty);
            s.append("` without a `Message` policy");
        },
        BoundaryReason::OpaqueReturn { ty } => {
            s.append(" has opaque return type `");
            push_ty(s, ns, ty);
            s.append("` without a `Message` policy");
        },
        BoundaryReason::FunctionPointer { ty } => {
            s.append(" has function pointer type `");
            push_ty(s, ns, ty);
            s.append("` without a `Message` policy");
        },
        BoundaryReason::Closure { ty } => {
            s.append(" has closure type `");
            push_ty(s, ns, ty);
            s.append("` without a `Message` policy");
        },
    }
    assert(s@ =~= start + violation_text(ns@, Seq::empty(), *r));
}

impl TypeChecker {
    /// The message for a part of a value that may not cross a task
    /// boundary, with the program's names (see `violation_text`).
    pub fn boundary_violation_message(&self, v: &BoundaryViolation) -> (r: String)
        ensures
            r@ == violation_text(self.program.names@, v.path@, v.reason),
    {
        let ns = &self.program.names;
        let mut s = String::new();
        let mut i: usize = 0;
        while i < v.path.len()
            invariant
                i <= v.path@.len(),
                ns@ == self.program.names@,
                s@ == path_text(ns@, v.path@.take(i as int)),
            decreases v.path@.len() - i,
        {
            push_step(&mut s, ns, v.path[i]);
            assert(v.path@.take(i + 1).drop_last() =~= v.path@.take(i as int));
            i += 1;
        }
        assert(v.path@.take(v.path@.len() as int) =~= v.path@);
        push_reason_of(&mut s, ns, &v.reason);
        assert(path_text(ns@, Seq::<PathStep>::empty()) =~= Seq::<char>::empty());
        s
    }
}


fn push_module_path(s: &mut String, mods: &Vec<ModuleInfo>, m: u64)
    ensures
        final(s)@ == old(s)@ + module_path_text(mods@, m),
{
    let ghost start = s@;
    if m < mods.len() as u64 {
        push_text(s, &mods[m as usize].path);
    } else {
        s.append("#");
        push_decimal(s, m as u128);
    }
    assert(s@ =~= start + module_path_text(mods@, m));
}

fn push_candidate_notes(out: &mut Vec<String>, mods: &Vec<ModuleInfo>, l: &IdList, k: u64)
    requires
        1 <= k <= 4,
    ensures
        texts(final(out)@) == texts(old(out)@) + candidate_notes(mods@, *l, k as nat),
    decreases l,
{
    match l {
        IdList::Nil => {
            assert(texts(out@) =~= texts(out@) + Seq::<Seq<char>>::empty());
        },
        IdList::Cons(m, rest) => {
            if k > 3 {
                assert(texts(out@) =~= texts(out@) + Seq::<Seq<char>>::empty());
                return;
            }
            let ghost before = out@;
            let mut s = String::new();
            s.append("candidate ");
            push_decimal(&mut s, k as u128);
            s.append(": generic impl declared in module `");
            push_module_path(&mut s, mods, *m);
            s.append("`");
            let ghost note = s@;
            assert(note =~= "candidate "@ + decimal(k as nat) + ": generic impl declared in module `"@
                + module_path_text(mods@, *m) + "`"@);
            out.push(s);
            assert(texts(out@) =~= texts(before) + seq![note]);
            push_candidate_notes(out, mods, rest, k + 1);
        },
    }
}

impl TypeChecker {
    /// The notes of a diagnostic, with the program's module paths (see
    /// `diag_notes`).
    pub fn diagnostic_notes(&self, k: &DiagKind) -> (r: Vec<String>)
        ensures
            texts(r@) == diag_notes(self.program.modules@, *k),
    {
        let mut out: Vec<String> = Vec::new();
        assert(texts(out@) =~= Seq::<Seq<char>>::empty());
        match k {
            DiagKind::AmbiguousGenericImpls { candidates, .. } => {
                push_candidate_notes(&mut out, &self.program.modules, candidates, 1);
                assert(texts(out@) =~= candidate_notes(self.program.modules@, *candidates, 1));
            },
            _ => {},
        }
        out
    }
}

} // verus!
