//! Binary operators: what their operands must be and what they produce.
use vstd::prelude::*;
use crate::assign::checker_can_assign;
use crate::capability::cache_valid;
use crate::checker::{diag, TypeChecker};
use crate::checks::{c_aggregate_value, constant_shift_count, shift_count_diag};
use crate::diag::{DiagKind, Diagnostic, OperatorContext, Span};
use crate::infer::{assignment_holes, resolved, same_except_holes, solutions_extend};
use crate::opaque::{accepted, mismatch_kind};
use crate::props::{bit_width, is_integer_ty, is_numeric_ty};
use crate::texpr::{BinaryOp, TExpr};
use crate::ty::{copy_ty, Ty};

verus! {

/// The checker moved from `a` to `b` by solving inference holes only
/// (diagnostics aside).
pub open spec fn holes_step(a: TypeChecker, b: TypeChecker) -> bool {
    &&& a.program == b.program
    &&& same_except_holes(a.state, b.state)
    &&& solutions_extend(a.state.hole_solutions@, b.state.hole_solutions@)
    &&& cache_valid(b)
}

/// The diagnostic of an assignability requirement, judged in the checker
/// state `tc` reached after it.
pub open spec fn assign_diags(tc: TypeChecker, expected: Ty, actual: Ty, span: Span) -> Seq<Diagnostic> {
    let e = resolved(tc, expected);
    let a = resolved(tc, actual);
    if accepted(tc, e, a) {
        Seq::empty()
    } else {
        seq![diag(span, mismatch_kind(e, a, None))]
    }
}

pub open spec fn one_if(c: bool, d: Diagnostic) -> Seq<Diagnostic> {
    if c {
        seq![d]
    } else {
        Seq::empty()
    }
}

pub open spec fn is_closure_ty(t: Ty) -> bool {
    t is Closure || t is ClosureInstance
}

/// The diagnostics of comparing for equality.
pub open spec fn equality_diags(tc: TypeChecker, left: Ty, right: Ty, span: Span) -> Seq<Diagnostic> {
    one_if(
        !checker_can_assign(tc, left, right) && !checker_can_assign(tc, right, left),
        diag(span, DiagKind::CannotCompare { left, right }),
    ) + one_if(
        c_aggregate_value(tc, left) || c_aggregate_value(tc, right),
        diag(span, DiagKind::AggregateComparison),
    ) + one_if(is_closure_ty(left) || is_closure_ty(right), diag(span, DiagKind::ClosureComparison))
}

/// The diagnostics of operands of integer type required to be equal.
pub open spec fn same_integer_diags(context: OperatorContext, left: TExpr, right: TExpr, span: Span) -> Seq<
    Diagnostic,
> {
    one_if(
        is_integer_ty(left.ty) && is_integer_ty(right.ty) && left.ty != right.ty,
        diag(span, DiagKind::MismatchedIntegerTypes { operator: context, left: left.ty, right: right.ty }),
    )
}

/// The diagnostic of a constant shift count out of range.
pub open spec fn shift_count_diags(left: TExpr, right: TExpr) -> Seq<Diagnostic> {
    match (bit_width(left.ty), constant_shift_count(right)) {
        (Some(width), Some((written, count))) if (match count {
            None => true,
            Some(v) => v >= width,
        }) => seq![shift_count_diag(left, right, width, written)],
        _ => Seq::empty(),
    }
}

pub open spec fn is_arithmetic(op: BinaryOp) -> bool {
    op == BinaryOp::Add || op == BinaryOp::Sub || op == BinaryOp::Mul || op == BinaryOp::Div || op
        == BinaryOp::Rem
}

pub open spec fn is_bitwise(op: BinaryOp) -> bool {
    op == BinaryOp::BitAnd || op == BinaryOp::BitOr || op == BinaryOp::BitXor
}

pub open spec fn is_shift(op: BinaryOp) -> bool {
    op == BinaryOp::Shl || op == BinaryOp::Shr
}

pub open spec fn is_relational(op: BinaryOp) -> bool {
    op == BinaryOp::Lt || op == BinaryOp::Le || op == BinaryOp::Gt || op == BinaryOp::Ge
}

/// The type a binary operation produces: `bool` for logical, equality and
/// relational operators, the left operand's type otherwise.
pub open spec fn binary_result(op: BinaryOp, left: Ty) -> Ty {
    if is_arithmetic(op) || is_bitwise(op) || is_shift(op) {
        left
    } else {
        Ty::Bool
    }
}

/// The diagnostics about the operands' kinds that precede the operator's
/// assignability requirement.
pub open spec fn operand_diags(op: BinaryOp, left: TExpr, right: TExpr) -> Seq<Diagnostic> {
    if is_relational(op) {
        one_if(
            !is_numeric_ty(left.ty) && !(left.ty is Char),
            diag(left.span, DiagKind::RelationalOperand { ty: left.ty }),
        )
    } else if is_arithmetic(op) {
        one_if(!is_numeric_ty(left.ty), diag(left.span, DiagKind::ArithmeticOperand { ty: left.ty }))
            + one_if(op == BinaryOp::Rem && !is_integer_ty(left.ty), diag(left.span, DiagKind::RemainderNeedsIntegers))
    } else if is_bitwise(op) {
        one_if(!is_integer_ty(left.ty), diag(left.span, DiagKind::BitwiseOperand { ty: left.ty }))
    } else if is_shift(op) {
        one_if(!is_integer_ty(left.ty), diag(left.span, DiagKind::ShiftOperand { ty: left.ty }))
            + one_if(!is_integer_ty(right.ty), diag(right.span, DiagKind::ShiftCountNotInteger { ty: right.ty }))
    } else {
        Seq::empty()
    }
}

impl TypeChecker {
    fn report_if(&mut self, c: bool, span: Span, kind: DiagKind)
        requires
            cache_valid(*old(self)),
        ensures
            final(self).same_context(*old(self)),
            cache_valid(*final(self)),
            final(self).diagnostics@ == old(self).diagnostics@ + one_if(c, diag(span, kind)),
    {
        if c {
            let ghost before = *self;
            self.report(span, kind);
            proof {
                crate::capability::lemma_cache_valid_context(before, *self);
            }
        }
        proof {
            if !c {
                assert(self.diagnostics@ =~= old(self).diagnostics@ + one_if(c, diag(span, kind)));
            }
        }
    }

    /// Checks the operands of a binary operation and gives its type.
    /// Logical operators require `bool` operands; equality requires
    /// comparable, non-aggregate, non-closure operands; relational
    /// operators a numeric or `char` left operand; arithmetic a numeric
    /// (for `%` an integer) left operand; bitwise operators integer operands
    /// of one type; shifts integer operands and a constant count within the
    /// width.  The right operand must be assignable to the left one, except
    /// for equality, bitwise operators and shifts.
    pub fn check_binary(&mut self, op: BinaryOp, left: &TExpr, right: &TExpr, span: Span) -> (r: Ty)
        requires
            cache_valid(*old(self)),
        ensures
            r == binary_result(op, left.ty),
            is_relational(op) || op == BinaryOp::Eq || op == BinaryOp::Ne || op == BinaryOp::And || op
                == BinaryOp::Or ==> r == Ty::Bool,
            cache_valid(*final(self)),
            op == BinaryOp::And || op == BinaryOp::Or ==> exists|mid: TypeChecker|
                {
                    &&& holes_step(*old(self), mid)
                    &&& holes_step(mid, *final(self))
                    &&& mid.state.hole_solutions@ == assignment_holes(old(self).program, old(self).state.hole_solutions@, Ty::Bool, left.ty)
                    &&& final(self).state.hole_solutions@ == assignment_holes(mid.program, mid.state.hole_solutions@, Ty::Bool, right.ty)
                    &&& final(self).diagnostics@ == old(self).diagnostics@ + assign_diags(
                        mid,
                        Ty::Bool,
                        left.ty,
                        left.span,
                    ) + assign_diags(*final(self), Ty::Bool, right.ty, right.span)
                },
            op == BinaryOp::Eq || op == BinaryOp::Ne ==> final(self).same_context(*old(self))
                && final(self).diagnostics@ == old(self).diagnostics@ + equality_diags(
                *old(self),
                left.ty,
                right.ty,
                span,
            ),
            is_relational(op) || is_arithmetic(op) ==> holes_step(*old(self), *final(self))
                && final(self).state.hole_solutions@ == assignment_holes(old(self).program, old(self).state.hole_solutions@, left.ty, right.ty)
                && final(self).diagnostics@ == old(self).diagnostics@ + operand_diags(op, *left, *right)
                + assign_diags(*final(self), left.ty, right.ty, right.span),
            is_bitwise(op) ==> final(self).same_context(*old(self)) && final(self).diagnostics@ == old(
                self,
            ).diagnostics@ + operand_diags(op, *left, *right) + same_integer_diags(
                OperatorContext::Bitwise,
                *left,
                *right,
                span,
            ),
            is_shift(op) ==> final(self).same_context(*old(self)) && final(self).diagnostics@ == old(
                self,
            ).diagnostics@ + operand_diags(op, *left, *right) + shift_count_diags(*left, *right),
    {
        let ghost start = *self;
        match op {
            BinaryOp::Or | BinaryOp::And => {
                self.require_assignable(&Ty::Bool, &left.ty, left.span);
                let ghost mid = *self;
                self.require_assignable(&Ty::Bool, &right.ty, right.span);
                proof {
                    assert(self.diagnostics@ =~= start.diagnostics@ + assign_diags(mid, Ty::Bool, left.ty, left.span)
                        + assign_diags(*self, Ty::Bool, right.ty, right.span));
                    assert(holes_step(start, mid));
                    assert(holes_step(mid, *self));
                    assert({
                        &&& holes_step(start, mid)
                        &&& holes_step(mid, *self)
                        &&& mid.state.hole_solutions@ == assignment_holes(start.program, start.state.hole_solutions@, Ty::Bool, left.ty)
                        &&& self.state.hole_solutions@ == assignment_holes(mid.program, mid.state.hole_solutions@, Ty::Bool, right.ty)
                        &&& self.diagnostics@ == start.diagnostics@ + assign_diags(mid, Ty::Bool, left.ty, left.span)
                            + assign_diags(*self, Ty::Bool, right.ty, right.span)
                    });
                }
                Ty::Bool
            },
            BinaryOp::Eq | BinaryOp::Ne => {
                let comparable = self.ty_can_assign_from(&left.ty, &right.ty) || self.ty_can_assign_from(
                    &right.ty,
                    &left.ty,
                );
                self.report_if(
                    !comparable,
                    span,
                    DiagKind::CannotCompare { left: copy_ty(&left.ty), right: copy_ty(&right.ty) },
                );
                let aggregate = self.is_c_aggregate_value(&left.ty) || self.is_c_aggregate_value(&right.ty);
                self.report_if(aggregate, span, DiagKind::AggregateComparison);
                let closures = match (&left.ty, &right.ty) {
                    (Ty::Closure { .. }, _) | (Ty::ClosureInstance { .. }, _) => true,
                    (_, Ty::Closure { .. }) | (_, Ty::ClosureInstance { .. }) => true,
                    _ => false,
                };
                self.report_if(closures, span, DiagKind::ClosureComparison);
                proof {
                    assert(self.diagnostics@ =~= start.diagnostics@ + equality_diags(start, left.ty, right.ty, span));
                }
                Ty::Bool
            },
            BinaryOp::Lt | BinaryOp::Le | BinaryOp::Gt | BinaryOp::Ge => {
                let char_left = match left.ty {
                    Ty::Char => true,
                    _ => false,
                };
                self.report_if(
                    !left.ty.is_numeric() && !char_left,
                    left.span,
                    DiagKind::RelationalOperand { ty: copy_ty(&left.ty) },
                );
                let ghost mid = *self;
                self.require_assignable(&left.ty, &right.ty, right.span);
                proof {
                    assert(self.diagnostics@ =~= start.diagnostics@ + operand_diags(op, *left, *right)
                        + assign_diags(*self, left.ty, right.ty, right.span));
                }
                Ty::Bool
            },
            BinaryOp::Add | BinaryOp::Sub | BinaryOp::Mul | BinaryOp::Div | BinaryOp::Rem => {
                self.report_if(!left.ty.is_numeric(), left.span, DiagKind::ArithmeticOperand { ty: copy_ty(&left.ty) });
                let rem = match op {
                    BinaryOp::Rem => true,
                    _ => false,
                };
                self.report_if(rem && !left.ty.is_integer(), left.span, DiagKind::RemainderNeedsIntegers);
                self.require_assignable(&left.ty, &right.ty, right.span);
                proof {
                    assert(self.diagnostics@ =~= start.diagnostics@ + operand_diags(op, *left, *right)
                        + assign_diags(*self, left.ty, right.ty, right.span));
                }
                copy_ty(&left.ty)
            },
            BinaryOp::BitOr | BinaryOp::BitXor | BinaryOp::BitAnd => {
                self.report_if(!left.ty.is_integer(), left.span, DiagKind::BitwiseOperand { ty: copy_ty(&left.ty) });
                let ghost mid = *self;
                self.require_same_integer_type(OperatorContext::Bitwise, left, right, span);
                proof {
                    crate::capability::lemma_cache_valid_context(mid, *self);
                    assert(self.diagnostics@ =~= start.diagnostics@ + operand_diags(op, *left, *right)
                        + same_integer_diags(OperatorContext::Bitwise, *left, *right, span));
                }
                copy_ty(&left.ty)
            },
            BinaryOp::Shl | BinaryOp::Shr => {
                self.report_if(!left.ty.is_integer(), left.span, DiagKind::ShiftOperand { ty: copy_ty(&left.ty) });
                self.report_if(
                    !right.ty.is_integer(),
                    right.span,
                    DiagKind::ShiftCountNotInteger { ty: copy_ty(&right.ty) },
                );
                let ghost mid = *self;
                self.check_constant_shift_count(left, right);
                proof {
                    crate::capability::lemma_cache_valid_context(mid, *self);
                    assert(self.diagnostics@ =~= start.diagnostics@ + operand_diags(op, *left, *right)
                        + shift_count_diags(*left, *right));
                }
                copy_ty(&left.ty)
            },
        }
    }
}

} // verus!
