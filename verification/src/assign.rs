//! Assignability between types.
use vstd::prelude::*;
use crate::checker::{StdDefs, TypeChecker};
use crate::ty::{known_ty_matches, Ty, TyList, ViewMutability};

verus! {

/// A view of mutability `actual` may be used where `expected` is wanted:
/// a writable view may always be weakened to a read-only one.
pub open spec fn view_can_weaken(expected: ViewMutability, actual: ViewMutability) -> bool {
    expected is ReadOnly || actual is Mutable
}

pub fn pointer_view_can_weaken(expected: ViewMutability, actual: ViewMutability) -> (r: bool)
    ensures
        r == view_can_weaken(expected, actual),
{
    match (expected, actual) {
        (ViewMutability::ReadOnly, _) => true,
        (_, ViewMutability::Mutable) => true,
        _ => false,
    }
}

/// A value of type `actual` may be stored where `expected` is wanted: the
/// same type; `never`; a pointer or slice that only gains nullability or
/// loses writability.
pub open spec fn can_assign(expected: Ty, actual: Ty) -> bool {
    ||| expected == actual
    ||| actual is Never
    ||| match (expected, actual) {
        (
            Ty::Pointer { nullable: n1, mutability: m1, inner: i1 },
            Ty::Pointer { nullable: n2, mutability: m2, inner: i2 },
        ) => *i1 == *i2 && (n1 || !n2) && view_can_weaken(m1, m2),
        (Ty::Slice { mutability: m1, elem: e1 }, Ty::Slice { mutability: m2, elem: e2 }) => *e1
            == *e2 && view_can_weaken(m1, m2),
        _ => false,
    }
}

/// The standard `Future<Out>` accepts a compiler-generated future whose
/// output is `Out`.
pub open spec fn future_accepts_generated(std: StdDefs, expected: Ty, actual: Ty) -> bool {
    match (expected, actual) {
        (Ty::Named { name, args }, Ty::GeneratedFuture { output, .. }) => std.future_struct
            == Some(name) && args == TyList::Cons(output, Box::new(TyList::Nil)),
        _ => false,
    }
}

impl Ty {
    pub fn can_assign_from(&self, actual: &Ty) -> (r: bool)
        ensures
            r == can_assign(*self, *actual),
            (*self matches Ty::Pointer { nullable: false, .. }) && (*actual matches Ty::Pointer {
                nullable: true,
                ..
            }) ==> !r,
    {
        if known_ty_matches(self, actual) {
            return true;
        }
        if actual.is_never() {
            return true;
        }
        match (self, actual) {
            (
                Ty::Pointer { nullable: n1, mutability: m1, inner: i1 },
                Ty::Pointer { nullable: n2, mutability: m2, inner: i2 },
            ) => known_ty_matches(i1, i2) && (*n1 || !*n2) && pointer_view_can_weaken(*m1, *m2),
            (Ty::Slice { mutability: m1, elem: e1 }, Ty::Slice { mutability: m2, elem: e2 }) =>
                known_ty_matches(e1, e2) && pointer_view_can_weaken(*m1, *m2),
            _ => false,
        }
    }
}

pub fn std_async_future_accepts_generated(std: &StdDefs, expected: &Ty, actual: &Ty) -> (r: bool)
    ensures
        r == future_accepts_generated(*std, *expected, *actual),
{
    match (expected, actual) {
        (Ty::Named { name, args }, Ty::GeneratedFuture { output, .. }) => {
            let is_future = match std.future_struct {
                Some(f) => f == *name,
                None => false,
            };
            if !is_future {
                return false;
            }
            match args {
                TyList::Cons(h, t) => known_ty_matches(h, output) && match **t {
                    TyList::Nil => true,
                    _ => false,
                },
                TyList::Nil => false,
            }
        },
        _ => false,
    }
}

pub open spec fn checker_can_assign(tc: TypeChecker, expected: Ty, actual: Ty) -> bool {
    can_assign(expected, actual) || future_accepts_generated(tc.program.std, expected, actual)
}

impl TypeChecker {
    pub fn ty_can_assign_from(&self, expected: &Ty, actual: &Ty) -> (r: bool)
        ensures
            r == checker_can_assign(*self, *expected, *actual),
    {
        expected.can_assign_from(actual) || std_async_future_accepts_generated(
            &self.program.std,
            expected,
            actual,
        )
    }
}

} // verus!
