//! The shape checks of the callables an actor is built from (its state
//! initializer and its message handlers).
use vstd::prelude::*;
use crate::assign::checker_can_assign;
use crate::boundary::list_len_is;
use crate::cabi::diag_if;
use crate::checker::{diag, TypeChecker};
use crate::diag::{ActorCallableRole, DiagKind, Diagnostic, Span};
use crate::ty::{copy_ty, copy_tys, known_ty_matches, tys_len, Ty, TyList};

verus! {

/// The return and parameter types of a value that can be called: a
/// function, a closure type or a closure instance.
pub open spec fn callable_signature(t: Ty) -> Option<(Ty, TyList)> {
    match t {
        Ty::Function { ret, params, .. } => Some((*ret, params)),
        Ty::Closure { ret, params, .. } => Some((*ret, params)),
        Ty::ClosureInstance { ret, params, .. } => Some((*ret, params)),
        _ => None,
    }
}

/// One diagnostic for each parameter that differs from the expected one;
/// `first` is the index of the list's head.
pub open spec fn param_mismatch_diags(
    role: ActorCallableRole,
    span: Span,
    actual: TyList,
    expected: Seq<Ty>,
    first: nat,
) -> Seq<Diagnostic>
    decreases actual,
{
    match actual {
        TyList::Nil => seq![],
        TyList::Cons(a, rest) => diag_if(
            *a != expected[first as int],
            diag(
                span,
                DiagKind::ActorCallableParameter {
                    role,
                    index: first as u64,
                    expected: expected[first as int],
                    actual: *a,
                },
            ),
        ) + param_mismatch_diags(role, span, *rest, expected, first + 1),
    }
}

/// What is reported of an actor callable: that it is not callable; or that
/// it takes the wrong number of parameters; or else each parameter that is
/// not exactly the expected type, then a return type that is not
/// assignable to the expected one.
pub open spec fn actor_callable_diags(
    tc: TypeChecker,
    callable: Ty,
    expected_params: Seq<Ty>,
    expected_ret: Ty,
    role: ActorCallableRole,
    span: Span,
) -> Seq<Diagnostic> {
    match callable_signature(callable) {
        None => seq![diag(span, DiagKind::ActorNotCallable { role, ty: callable })],
        Some((ret, params)) => if tys_len(params) != expected_params.len() {
            seq![
                diag(
                    span,
                    DiagKind::ActorCallableArity {
                        role,
                        expected_count: expected_params.len() as u64,
                        params,
                    },
                ),
            ]
        } else {
            param_mismatch_diags(role, span, params, expected_params, 0) + diag_if(
                !checker_can_assign(tc, expected_ret, ret),
                diag(span, DiagKind::ActorCallableReturn { role, expected: expected_ret, actual: ret }),
            )
        },
    }
}

fn push_param_mismatches(
    role: ActorCallableRole,
    span: Span,
    actual: &TyList,
    expected: &Vec<Ty>,
    first: usize,
    out: &mut Vec<Diagnostic>,
)
    requires
        first + tys_len(*actual) == expected@.len(),
    ensures
        final(out)@ == old(out)@ + param_mismatch_diags(role, span, *actual, expected@, first as nat),
    decreases actual,
{
    match actual {
        TyList::Nil => {
            assert(old(out)@ + Seq::<Diagnostic>::empty() =~= old(out)@);
        },
        TyList::Cons(a, rest) => {
            let ghost start = out@;
            assert(tys_len(*actual) == 1 + tys_len(**rest));
            let e = &expected[first];
            let differs = !known_ty_matches(a, e);
            if differs {
                out.push(
                    Diagnostic {
                        span,
                        kind: DiagKind::ActorCallableParameter {
                            role,
                            index: first as u64,
                            expected: copy_ty(e),
                            actual: copy_ty(a),
                        },
                    },
                );
            }
            let ghost d = diag_if(
                **a != expected@[first as int],
                diag(
                    span,
                    DiagKind::ActorCallableParameter {
                        role,
                        index: first as u64,
                        expected: expected@[first as int],
                        actual: **a,
                    },
                ),
            );
            assert(out@ =~= start + d);
            assert(first < expected.len());
            push_param_mismatches(role, span, rest, expected, first + 1, out);
            assert(start + (d + param_mismatch_diags(role, span, **rest, expected@, (first + 1) as nat))
                =~= start + d + param_mismatch_diags(role, span, **rest, expected@, (first + 1) as nat));
        },
    }
}

impl TypeChecker {
    /// Checks that an actor callable takes exactly the expected parameters
    /// and returns a type assignable to the expected one (see
    /// `actor_callable_diags`).
    pub fn require_actor_callable(
        &mut self,
        callable_ty: &Ty,
        expected_params: &Vec<Ty>,
        expected_ret: &Ty,
        role: ActorCallableRole,
        span: Span,
    )
        ensures
            final(self).same_context(*old(self)),
            final(self).diagnostics@ == old(self).diagnostics@ + actor_callable_diags(
                *old(self),
                *callable_ty,
                expected_params@,
                *expected_ret,
                role,
                span,
            ),
    {
        let (ret, params) = match callable_ty {
            Ty::Function { ret, params, .. } => (ret, params),
            Ty::Closure { ret, params, .. } => (ret, params),
            Ty::ClosureInstance { ret, params, .. } => (ret, params),
            _ => {
                self.report(span, DiagKind::ActorNotCallable { role, ty: copy_ty(callable_ty) });
                return ;
            },
        };
        if !list_len_is(params, expected_params.len()) {
            self.report(
                span,
                DiagKind::ActorCallableArity {
                    role,
                    expected_count: expected_params.len() as u64,
                    params: copy_tys(params),
                },
            );
            return ;
        }
        let ghost before = *self;
        let assignable = self.ty_can_assign_from(expected_ret, ret);
        let mut found: Vec<Diagnostic> = Vec::new();
        push_param_mismatches(role, span, params, expected_params, 0, &mut found);
        if !assignable {
            found.push(
                Diagnostic {
                    span,
                    kind: DiagKind::ActorCallableReturn {
                        role,
                        expected: copy_ty(expected_ret),
                        actual: copy_ty(ret),
                    },
                },
            );
        } else {
            assert(found@ + Seq::<Diagnostic>::empty() =~= found@);
        }
        self.diagnostics.append(&mut found);
        assert(self.diagnostics@ =~= before.diagnostics@ + actor_callable_diags(
            before,
            *callable_ty,
            expected_params@,
            *expected_ret,
            role,
            span,
        ));
    }

    /// Checks an actor message handler: it takes the state and the message
    /// and returns a type assignable to `expected_ret`.
    pub fn require_actor_handler_callable(
        &mut self,
        handler_ty: &Ty,
        state_ty: &Ty,
        message_ty: &Ty,
        expected_ret: &Ty,
        span: Span,
    )
        ensures
            final(self).same_context(*old(self)),
            final(self).diagnostics@ == old(self).diagnostics@ + actor_callable_diags(
                *old(self),
                *handler_ty,
                seq![*state_ty, *message_ty],
                *expected_ret,
                ActorCallableRole::Handler,
                span,
            ),
    {
        let expected = vec![copy_ty(state_ty), copy_ty(message_ty)];
        assert(expected@ =~= seq![*state_ty, *message_ty]);
        self.require_actor_callable(handler_ty, &expected, expected_ret, ActorCallableRole::Handler, span);
    }
}

} // verus!
