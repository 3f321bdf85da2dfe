//! Checks on single types: casts, unsafe operations, values that cannot be
//! stored, integer operands.
use vstd::prelude::*;
use crate::assign::{checker_can_assign, pointer_view_can_weaken, view_can_weaken};
use crate::checker::{diag, TypeChecker};
use crate::diag::{negated_text, text_from_str, text_of, DiagKind, Diagnostic, OperatorContext, Span, Text, UnsafeReason};
use crate::literal::{integer_literal_value, parse_integer_literal_u128};
use crate::lookup::{has_enum_instance, is_opaque_struct, struct_instance_index, template_of};
use crate::props::{
    bit_width, has_plain_never, is_integer_ty, is_numeric_ty, type_contains_plain_never_value,
};
use crate::texpr::{Literal, TExpr, TExprKind, UnaryOp};
use crate::ty::{copy_ty, known_ty_matches, tys_match, Ty, TyList, ViewMutability};

verus! {

/// The diagnostics after an operation that needs `unsafe` unless already
/// inside an unsafe block.
pub open spec fn with_unsafe_required(
    d: Seq<Diagnostic>,
    unsafe_depth: u64,
    span: Span,
    reason: UnsafeReason,
) -> Seq<Diagnostic> {
    if unsafe_depth == 0 {
        d.push(diag(span, DiagKind::RequiresUnsafe(reason)))
    } else {
        d
    }
}

pub open spec fn opaque_by_value(tc: TypeChecker, t: Ty) -> bool {
    match t {
        Ty::Named { name, args } => args is Nil && is_opaque_struct(tc.program, name),
        _ => false,
    }
}

pub open spec fn unsafe_struct_instance(tc: TypeChecker, name: u64, args: TyList) -> bool {
    (match struct_instance_index(tc.program, name, args) {
        Some(i) => tc.program.structs@[i].is_unsafe,
        None => false,
    }) || (match template_of(tc.program, name) {
        Some(t) => t.is_unsafe,
        None => false,
    })
}

pub open spec fn c_aggregate_value(tc: TypeChecker, t: Ty) -> bool {
    match t {
        Ty::Named { name, args } => struct_instance_index(tc.program, name, args) is Some
            || has_enum_instance(tc.program, name, args),
        Ty::Slice { .. } | Ty::DynamicInterface { .. } => true,
        _ => false,
    }
}

/// An array or slice whose elements store `never` by value.
pub open spec fn return_elem_contains_never(t: Ty) -> bool {
    match t {
        Ty::Array { elem, .. } => has_plain_never(*elem),
        Ty::Slice { elem, .. } => has_plain_never(*elem),
        _ => false,
    }
}

/// Numeric, character and C-spelled scalar types convert into each other.
pub open spec fn is_scalar_cast_ty(t: Ty) -> bool {
    is_numeric_ty(t) || t is Char || t is CSpelling
}

/// The verdict on an explicit cast.
#[derive(Debug, PartialEq)]
pub enum CastCheck {
    Allowed,
    NeedsUnsafe(UnsafeReason),
    Rejected(DiagKind),
}

pub open spec fn cast_check(source: Ty, target: Ty) -> CastCheck {
    if source is Unknown || target is Unknown || source == target {
        CastCheck::Allowed
    } else if source is Bool || target is Bool {
        CastCheck::Rejected(DiagKind::CannotCastBool { source, target })
    } else if is_scalar_cast_ty(source) && is_scalar_cast_ty(target) {
        CastCheck::Allowed
    } else {
        match (source, target) {
            (
                Ty::Pointer { nullable: n1, mutability: m1, inner: i1 },
                Ty::Pointer { nullable: n2, mutability: m2, inner: i2 },
            ) => if n1 && !n2 {
                if *i1 == *i2 && view_can_weaken(m2, m1) {
                    CastCheck::NeedsUnsafe(UnsafeReason::NullableToNonNullCast)
                } else {
                    CastCheck::Rejected(DiagKind::CannotCast { source, target })
                }
            } else if m1 is ReadOnly && m2 is Mutable {
                CastCheck::Rejected(DiagKind::CannotCast { source, target })
            } else if *i1 is Void || *i2 is Void {
                CastCheck::Allowed
            } else {
                CastCheck::Rejected(DiagKind::PointerCastNotThroughVoid)
            },
            _ => CastCheck::Rejected(DiagKind::CannotCast { source, target }),
        }
    }
}

pub open spec fn after_cast_check(
    d: Seq<Diagnostic>,
    unsafe_depth: u64,
    span: Span,
    c: CastCheck,
) -> Seq<Diagnostic> {
    match c {
        CastCheck::Allowed => d,
        CastCheck::NeedsUnsafe(reason) => with_unsafe_required(d, unsafe_depth, span, reason),
        CastCheck::Rejected(kind) => d.push(diag(span, kind)),
    }
}

/// The value of a constant shift count: its literal value, or absent when
/// the count is a negated literal.  `None` when the count is not constant.
/// A constant shift count: as written (with `-` when negated), and its
/// value unless negated.
pub open spec fn constant_shift_count(right: TExpr) -> Option<(Seq<char>, Option<u128>)> {
    match right.kind {
        TExprKind::Literal(Literal::Integer(raw)) => match integer_literal_value(raw@) {
            Some(v) => Some((raw@, Some(v))),
            None => None,
        },
        TExprKind::Unary { op: UnaryOp::Neg, expr } => match expr.kind {
            TExprKind::Literal(Literal::Integer(raw)) => Some((seq!['-'] + raw@, None)),
            _ => None,
        },
        _ => None,
    }
}

/// The diagnostic of a shift count out of range for a type of `width` bits.
pub open spec fn shift_count_diag(left: TExpr, right: TExpr, width: u32, written: Seq<char>) -> Diagnostic {
    diag(right.span, DiagKind::ShiftCountOutOfRange { ty: left.ty, count: text_of(written), max: (width - 1) as u64 })
}

pub open spec fn closure_shape(tc: TypeChecker, ret: Ty, params: TyList, actual: Ty) -> bool {
    match actual {
        Ty::Closure { ret: r, params: p, .. } => params == p && checker_can_assign(tc, ret, *r),
        Ty::ClosureInstance { ret: r, params: p, .. } => params == p && checker_can_assign(
            tc,
            ret,
            *r,
        ),
        _ => false,
    }
}

impl TypeChecker {
    /// Reports the operation unless the checker is inside an `unsafe` block.
    pub fn require_unsafe(&mut self, span: Span, reason: UnsafeReason)
        ensures
            final(self).same_context(*old(self)),
            final(self).diagnostics@ == with_unsafe_required(
                old(self).diagnostics@,
                old(self).state.unsafe_depth,
                span,
                reason,
            ),
    {
        if self.state.unsafe_depth == 0 {
            self.report(span, DiagKind::RequiresUnsafe(reason));
        }
    }

    /// Whether `ty` is an opaque struct used by value (without arguments).
    pub fn is_opaque_by_value(&self, ty: &Ty) -> (r: bool)
        ensures
            r == opaque_by_value(*self, *ty),
    {
        match ty {
            Ty::Named { name, args } => match args {
                TyList::Nil => self.is_opaque_struct_name(*name),
                _ => false,
            },
            _ => false,
        }
    }

    /// Whether struct `name<args>` was declared unsafe (as an instance or as
    /// a generic declaration).
    pub fn is_unsafe_struct_instance(&self, name: u64, args: &TyList) -> (r: bool)
        ensures
            r == unsafe_struct_instance(*self, name, *args),
    {
        let instance_unsafe = match self.find_struct_instance(name, args) {
            Some(i) => self.program.structs[i].is_unsafe,
            None => false,
        };
        instance_unsafe || match self.find_struct_template(name) {
            Some(i) => self.program.struct_templates[i].is_unsafe,
            None => false,
        }
    }

    /// Whether values of `ty` are C aggregates (structs, enums, slices,
    /// dynamic interface values), which cannot be compared with `==`.
    pub fn is_c_aggregate_value(&self, ty: &Ty) -> (r: bool)
        ensures
            r == c_aggregate_value(*self, *ty),
    {
        match ty {
            Ty::Named { name, args } => self.find_struct_instance(*name, args).is_some()
                || self.find_enum_instance(*name, args).is_some(),
            Ty::Slice { .. } | Ty::DynamicInterface { .. } => true,
            _ => false,
        }
    }

    /// Rejects a stored value of type `never`, an opaque struct by value, or
    /// a type storing `never` by value.  `context` names the kind of value.
    pub fn reject_invalid_plain_value_type(&mut self, ty: &Ty, span: Span, context: u64)
        ensures
            final(self).same_context(*old(self)),
            final(self).diagnostics@ == if *ty is Never {
                old(self).diagnostics@.push(
                    diag(span, DiagKind::NeverTypedValue { value_context: context }),
                )
            } else {
                old(self).diagnostics@ + (if opaque_by_value(*old(self), *ty) {
                    seq![diag(span, DiagKind::OpaqueByValue { value_context: context, ty: *ty })]
                } else {
                    Seq::empty()
                }) + (if has_plain_never(*ty) {
                    seq![diag(span, DiagKind::ContainsNeverValue { value_context: context })]
                } else {
                    Seq::empty()
                })
            },
    {
        let ghost d0 = self.diagnostics@;
        if ty.is_never() {
            self.report(span, DiagKind::NeverTypedValue { value_context: context });
            return ;
        }
        let opaque = self.is_opaque_by_value(ty);
        if opaque {
            self.report(span, DiagKind::OpaqueByValue { value_context: context, ty: copy_ty(ty) });
        }
        let ghost d1 = self.diagnostics@;
        if type_contains_plain_never_value(ty) {
            self.report(span, DiagKind::ContainsNeverValue { value_context: context });
        }
        assert(self.diagnostics@ =~= d0 + (if opaque {
            seq![diag(span, DiagKind::OpaqueByValue { value_context: context, ty: *ty })]
        } else {
            Seq::empty()
        }) + (if has_plain_never(*ty) {
            seq![diag(span, DiagKind::ContainsNeverValue { value_context: context })]
        } else {
            Seq::empty()
        }));
    }

    /// Rejects a return type that is an opaque struct by value or an array or
    /// slice of elements storing `never`.
    pub fn reject_invalid_return_type(&mut self, ty: &Ty, span: Span)
        ensures
            final(self).same_context(*old(self)),
            final(self).diagnostics@ == old(self).diagnostics@ + (if opaque_by_value(
                *old(self),
                *ty,
            ) {
                seq![diag(span, DiagKind::ReturnsOpaqueByValue { ty: *ty })]
            } else {
                Seq::empty()
            }) + (if return_elem_contains_never(*ty) {
                seq![diag(span, DiagKind::ReturnContainsNever)]
            } else {
                Seq::empty()
            }),
    {
        let ghost d0 = self.diagnostics@;
        let opaque = self.is_opaque_by_value(ty);
        if opaque {
            self.report(span, DiagKind::ReturnsOpaqueByValue { ty: copy_ty(ty) });
        }
        let bad_elem = match ty {
            Ty::Array { elem, .. } => type_contains_plain_never_value(elem),
            Ty::Slice { elem, .. } => type_contains_plain_never_value(elem),
            _ => false,
        };
        if bad_elem {
            self.report(span, DiagKind::ReturnContainsNever);
        }
        assert(self.diagnostics@ =~= d0 + (if opaque {
            seq![diag(span, DiagKind::ReturnsOpaqueByValue { ty: *ty })]
        } else {
            Seq::empty()
        }) + (if return_elem_contains_never(*ty) {
            seq![diag(span, DiagKind::ReturnContainsNever)]
        } else {
            Seq::empty()
        }));
    }

    /// A pointer cast from `*void` to a pointer to anything else needs
    /// `unsafe`.
    pub fn require_unsafe_pointer_cast_through_void(&mut self, source: &Ty, target: &Ty, span: Span)
        ensures
            final(self).same_context(*old(self)),
            final(self).diagnostics@ == match (*source, *target) {
                (Ty::Pointer { inner: si, .. }, Ty::Pointer { inner: ti, .. }) if *source != *target
                    && *si is Void && !(*ti is Void) => with_unsafe_required(
                    old(self).diagnostics@,
                    old(self).state.unsafe_depth,
                    span,
                    UnsafeReason::CastFromVoidPointer,
                ),
                _ => old(self).diagnostics@,
            },
    {
        match (source, target) {
            (Ty::Pointer { inner: si, .. }, Ty::Pointer { inner: ti, .. }) => {
                if known_ty_matches(source, target) {
                    return ;
                }
                let from_void = match **si {
                    Ty::Void => true,
                    _ => false,
                };
                let to_void = match **ti {
                    Ty::Void => true,
                    _ => false,
                };
                if from_void && !to_void {
                    self.require_unsafe(span, UnsafeReason::CastFromVoidPointer);
                }
            },
            _ => {},
        }
    }

    /// Checks an explicit cast `source as target` (see [`cast_check`]).
    pub fn check_cast_allowed(&mut self, source: &Ty, target: &Ty, span: Span)
        ensures
            final(self).same_context(*old(self)),
            final(self).diagnostics@ == after_cast_check(
                old(self).diagnostics@,
                old(self).state.unsafe_depth,
                span,
                cast_check(*source, *target),
            ),
            (*source matches Ty::Pointer { mutability: ViewMutability::ReadOnly, .. }) && (*target matches Ty::Pointer {
                mutability: ViewMutability::Mutable,
                ..
            }) ==> final(self).diagnostics@ == old(self).diagnostics@.push(
                diag(span, DiagKind::CannotCast { source: *source, target: *target }),
            ),
    {
        if source.is_unknown() || target.is_unknown() || known_ty_matches(source, target) {
            return ;
        }
        let source_bool = match source {
            Ty::Bool => true,
            _ => false,
        };
        let target_bool = match target {
            Ty::Bool => true,
            _ => false,
        };
        if source_bool || target_bool {
            self.report(
                span,
                DiagKind::CannotCastBool { source: copy_ty(source), target: copy_ty(target) },
            );
            return ;
        }
        let source_scalar = source.is_numeric() || match source {
            Ty::Char | Ty::CSpelling(_) => true,
            _ => false,
        };
        let target_scalar = target.is_numeric() || match target {
            Ty::Char | Ty::CSpelling(_) => true,
            _ => false,
        };
        if source_scalar && target_scalar {
            return ;
        }
        match (source, target) {
            (
                Ty::Pointer { nullable: n1, mutability: m1, inner: i1 },
                Ty::Pointer { nullable: n2, mutability: m2, inner: i2 },
            ) => {
                if *n1 && !*n2 {
                    if known_ty_matches(i1, i2) && pointer_view_can_weaken(*m2, *m1) {
                        self.require_unsafe(span, UnsafeReason::NullableToNonNullCast);
                        return ;
                    }
                    self.report(
                        span,
                        DiagKind::CannotCast { source: copy_ty(source), target: copy_ty(target) },
                    );
                    return ;
                }
                let read_only_to_writable = match (m1, m2) {
                    (
                        crate::ty::ViewMutability::ReadOnly,
                        crate::ty::ViewMutability::Mutable,
                    ) => true,
                    _ => false,
                };
                if read_only_to_writable {
                    self.report(
                        span,
                        DiagKind::CannotCast { source: copy_ty(source), target: copy_ty(target) },
                    );
                    return ;
                }
                let through_void = match (&**i1, &**i2) {
                    (Ty::Void, _) | (_, Ty::Void) => true,
                    _ => false,
                };
                if through_void {
                    return ;
                }
                self.report(span, DiagKind::PointerCastNotThroughVoid);
            },
            _ => {
                self.report(
                    span,
                    DiagKind::CannotCast { source: copy_ty(source), target: copy_ty(target) },
                );
            },
        }
    }

    /// Reports two integer operands of different integer types.
    pub fn require_same_integer_type(
        &mut self,
        context: OperatorContext,
        left: &TExpr,
        right: &TExpr,
        span: Span,
    )
        ensures
            final(self).same_context(*old(self)),
            final(self).diagnostics@ == if is_integer_ty(left.ty) && is_integer_ty(right.ty)
                && left.ty != right.ty {
                old(self).diagnostics@.push(
                    diag(
                        span,
                        DiagKind::MismatchedIntegerTypes {
                            operator: context,
                            left: left.ty,
                            right: right.ty,
                        },
                    ),
                )
            } else {
                old(self).diagnostics@
            },
    {
        if left.ty.is_unknown() || right.ty.is_unknown() {
            return ;
        }
        if !left.ty.is_integer() || !right.ty.is_integer() {
            return ;
        }
        if !known_ty_matches(&left.ty, &right.ty) {
            self.report(
                span,
                DiagKind::MismatchedIntegerTypes {
                    operator: context,
                    left: copy_ty(&left.ty),
                    right: copy_ty(&right.ty),
                },
            );
        }
    }

    /// Reports a constant shift count that is negative or not below the bit
    /// width of the shifted integer type.
    pub fn check_constant_shift_count(&mut self, left: &TExpr, right: &TExpr)
        ensures
            final(self).same_context(*old(self)),
            final(self).diagnostics@ == match (bit_width(left.ty), constant_shift_count(*right)) {
                (Some(width), Some((written, count))) if (match count {
                    None => true,
                    Some(v) => v >= width,
                }) => old(self).diagnostics@.push(shift_count_diag(*left, *right, width, written)),
                _ => old(self).diagnostics@,
            },
    {
        let width = match left.ty.integer_bit_width() {
            Some(w) => w,
            None => return ,
        };
        let (written, count): (Text, Option<u128>) = match &right.kind {
            TExprKind::Literal(Literal::Integer(raw)) => match parse_integer_literal_u128(raw.as_str()) {
                Some(v) => (text_from_str(raw.as_str()), Some(v)),
                None => return ,
            },
            TExprKind::Unary { op: UnaryOp::Neg, expr } => match &expr.kind {
                TExprKind::Literal(Literal::Integer(raw)) => (negated_text(raw.as_str()), None),
                _ => return ,
            },
            _ => return ,
        };
        let out_of_range = match count {
            None => true,
            Some(v) => v >= width as u128,
        };
        if out_of_range {
            self.report(
                right.span,
                DiagKind::ShiftCountOutOfRange { ty: copy_ty(&left.ty), count: written, max: (width - 1) as u64 },
            );
        }
    }

    /// Whether a closure (or closure instance) has exactly the expected
    /// parameter types and a return type assignable to the expected one.
    pub fn closure_shape_satisfies(&self, expected_ret: &Ty, expected_params: &TyList, actual: &Ty) -> (r:
        bool)
        ensures
            r == closure_shape(*self, *expected_ret, *expected_params, *actual),
    {
        match actual {
            Ty::Closure { ret, params, .. } => tys_match(expected_params, params)
                && self.ty_can_assign_from(expected_ret, ret),
            Ty::ClosureInstance { ret, params, .. } => tys_match(expected_params, params)
                && self.ty_can_assign_from(expected_ret, ret),
            _ => false,
        }
    }

    /// A closure expression may only be annotated with a closure type or a
    /// safe function type of the language's own ABI.
    pub fn check_closure_cast_allowed(&mut self, target: &Ty, span: Span)
        ensures
            final(self).same_context(*old(self)),
            final(self).diagnostics@ == match *target {
                Ty::Closure { .. } => old(self).diagnostics@,
                Ty::Function { is_unsafe: false, c_abi: false, .. } => old(self).diagnostics@,
                Ty::Function { c_abi: true, .. } => old(self).diagnostics@.push(
                    diag(span, DiagKind::ClosureToExternFunction),
                ),
                Ty::Function { is_unsafe: true, .. } => old(self).diagnostics@.push(
                    diag(span, DiagKind::ClosureToUnsafeFunction),
                ),
                _ => old(self).diagnostics@.push(
                    diag(span, DiagKind::ClosureAnnotation { ty: *target }),
                ),
            },
    {
        match target {
            Ty::Closure { .. } => {},
            Ty::Function { is_unsafe, c_abi, .. } => {
                if *c_abi {
                    self.report(span, DiagKind::ClosureToExternFunction);
                } else if *is_unsafe {
                    self.report(span, DiagKind::ClosureToUnsafeFunction);
                }
            },
            _ => {
                self.report(span, DiagKind::ClosureAnnotation { ty: copy_ty(target) });
            },
        }
    }
}

} // verus!
