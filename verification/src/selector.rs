//! Receiver selectors (`value.name(...)` sugar) and small helpers of call
//! checking.
use std::collections::HashSet;
use vstd::prelude::*;
use crate::assign::{pointer_view_can_weaken, view_can_weaken};
use crate::checker::{diag, InterfaceSig, Program, ReceiverSelectorSig, SelectorCallable, TypeChecker};
use crate::diag::{span_merge, DiagKind, Diagnostic, Span};
use crate::generic::{match_ty, unify_ty, Binding};
use crate::props::{collect_list_generic_names, generic_names_list};
use crate::ty::{copy_ty, tys_nth, Ty, TyList};

verus! {

/// An identifier with its source range.
#[derive(Debug, PartialEq)]
pub struct Ident {
    pub name: u64,
    pub span: Span,
}

/// An explicit type argument, lowered, with its source range.
#[derive(Debug, PartialEq)]
pub struct TypeArg {
    pub ty: Ty,
    pub span: Span,
}

/// How a receiver is passed to a selector's receiver parameter.
#[derive(Debug, Clone, Copy, PartialEq, Eq, Structural)]
pub enum ReceiverAdaptation {
    /// the receiver itself
    Direct,
    /// the receiver's address
    Address,
}

/// One parameter shown in a "parameters: ..." note.
#[derive(Debug, PartialEq)]
pub struct ParamNote {
    pub name: u64,
    pub mutable: bool,
    pub ty: Ty,
}

/// The position of the first function with definition id `def_id`.
pub open spec fn function_index(p: Program, def_id: u64) -> Option<int> {
    if exists|i: int| 0 <= i < p.functions@.len() && (#[trigger] p.functions@[i]).def_id == def_id {
        Some(
            choose|i: int|
                0 <= i < p.functions@.len() && (#[trigger] p.functions@[i]).def_id == def_id
                    && forall|j: int| 0 <= j < i ==> (#[trigger] p.functions@[j]).def_id != def_id,
        )
    } else {
        None
    }
}

/// The position of the first interface with definition id `def_id`.
pub open spec fn interface_index(p: Program, def_id: u64) -> Option<int> {
    if exists|i: int| 0 <= i < p.interfaces@.len() && (#[trigger] p.interfaces@[i]).def_id == def_id {
        Some(
            choose|i: int|
                0 <= i < p.interfaces@.len() && (#[trigger] p.interfaces@[i]).def_id == def_id
                    && forall|j: int| 0 <= j < i ==> (#[trigger] p.interfaces@[j]).def_id != def_id,
        )
    } else {
        None
    }
}

/// The declared type of the receiver parameter a selector dispatches on.
pub open spec fn selector_pattern(p: Program, sel: ReceiverSelectorSig) -> Option<Ty> {
    match sel.callable {
        SelectorCallable::Function(d) => match function_index(p, d) {
            Some(i) => tys_nth(p.functions@[i].params, sel.receiver_index as nat),
            None => None,
        },
        SelectorCallable::Interface(d) => match interface_index(p, d) {
            Some(i) => tys_nth(p.interfaces@[i].params, sel.receiver_index as nat),
            None => None,
        },
    }
}

/// A receiver type with its pointer layers removed.
pub open spec fn root_ty(t: Ty) -> Ty
    decreases t,
{
    match t {
        Ty::Pointer { inner, .. } => root_ty(*inner),
        _ => t,
    }
}

/// Whether the receiver patterns of two selectors can match a common type:
/// either root pattern is an instance of the other.
pub open spec fn patterns_overlap(p: Program, l: ReceiverSelectorSig, r: ReceiverSelectorSig) -> bool {
    match (selector_pattern(p, l), selector_pattern(p, r)) {
        (Some(a), Some(b)) => match_ty(root_ty(a), root_ty(b), Seq::empty()) is Some || match_ty(
            root_ty(b),
            root_ty(a),
            Seq::empty(),
        ) is Some,
        _ => false,
    }
}

#[verifier::opaque]
/// The diagnostic for a later selector `r` that conflicts with an earlier
/// selector `l`.
pub open spec fn pair_conflict(p: Program, l: ReceiverSelectorSig, r: ReceiverSelectorSig) -> Seq<
    Diagnostic,
> {
    if l.module == r.module && l.selector == r.selector && patterns_overlap(p, l, r) {
        seq![
            diag(
                r.span,
                DiagKind::ConflictingSelector {
                    selector: r.selector,
                    receiver: root_ty(selector_pattern(p, l)->0),
                },
            ),
        ]
    } else {
        Seq::empty()
    }
}

#[verifier::opaque]
/// The conflicts of selector `i` with the selectors after it, up to (not
/// including) position `m`.
pub open spec fn row_conflicts(p: Program, i: nat, m: nat) -> Seq<Diagnostic>
    decreases m,
{
    if m <= i + 1 {
        Seq::empty()
    } else {
        row_conflicts(p, i, (m - 1) as nat) + pair_conflict(
            p,
            p.receiver_selectors@[i as int],
            p.receiver_selectors@[m - 1],
        )
    }
}

#[verifier::opaque]
/// The conflicts found for the first `n` selectors, in order.
pub open spec fn selector_conflicts(p: Program, n: nat) -> Seq<Diagnostic>
    decreases n,
{
    if n == 0 {
        Seq::empty()
    } else {
        selector_conflicts(p, (n - 1) as nat) + row_conflicts(
            p,
            (n - 1) as nat,
            p.receiver_selectors@.len(),
        )
    }
}

/// Matches a selector's parameter pattern against a receiver type: by
/// unification, or else through pointers and views whose nullability and
/// mutability the receiver may be weakened to.  The result extends `s`.
pub open spec fn pattern_assignable(e: Ty, a: Ty, s: Seq<Binding>) -> Option<Seq<Binding>>
    decreases e,
{
    match match_ty(e, a, s) {
        Some(s2) => Some(s2),
        None => match (e, a) {
            (
                Ty::Pointer { nullable: en, mutability: em, inner: ei },
                Ty::Pointer { nullable: an, mutability: am, inner: ai },
            ) => if (en == an || (en && !an)) && view_can_weaken(em, am) {
                pattern_assignable(*ei, *ai, s)
            } else {
                None
            },
            (Ty::Slice { mutability: em, elem: ee }, Ty::Slice { mutability: am, elem: ae }) => if view_can_weaken(
                em,
                am,
            ) {
                pattern_assignable(*ee, *ae, s)
            } else {
                None
            },
            _ => None,
        },
    }
}

/// How a receiver fits a selector's receiver parameter: directly, or by
/// address when the parameter is a pointer to a type the receiver fits.
pub open spec fn adaptation(param: Ty, receiver: Ty) -> Option<ReceiverAdaptation> {
    if pattern_assignable(param, receiver, Seq::empty()) is Some {
        Some(ReceiverAdaptation::Direct)
    } else {
        match param {
            Ty::Pointer { inner, .. } => if pattern_assignable(*inner, receiver, Seq::empty()) is Some {
                Some(ReceiverAdaptation::Address)
            } else {
                None
            },
            _ => None,
        }
    }
}

/// Matches a receiver parameter pattern against an argument type, looking
/// through one pointer layer of the pattern (and of the argument).
pub open spec fn receiver_param_match(p: Ty, a: Ty, s: Seq<Binding>) -> Option<Seq<Binding>> {
    match p {
        Ty::Pointer { inner, .. } => match a {
            Ty::Pointer { inner: ai, .. } => match_ty(*inner, *ai, s),
            _ => match_ty(*inner, a, s),
        },
        _ => match_ty(p, a, s),
    }
}

/// Two selector declarations with the same name, module and callable.
pub open spec fn same_declaration(a: ReceiverSelectorSig, b: ReceiverSelectorSig) -> bool {
    a.selector == b.selector && a.module == b.module && a.callable == b.callable
}

/// The selectors with later repetitions of a declaration removed.
pub open spec fn dedup_selectors(s: Seq<ReceiverSelectorSig>) -> Seq<ReceiverSelectorSig>
    decreases s.len(),
{
    if s.len() == 0 {
        s
    } else {
        let init = s.drop_last();
        if exists|j: int| 0 <= j < init.len() && same_declaration(#[trigger] init[j], s.last()) {
            dedup_selectors(init)
        } else {
            dedup_selectors(init).push(s.last())
        }
    }
}

/// Whether an interface's receiver generic occurs in its method's
/// parameters.
pub open spec fn receiver_is_input(i: InterfaceSig) -> bool {
    i.generics@.len() > 0 && generic_names_list(i.params).contains(i.generics@[0])
}

/// The range covering a selector path, from its first to its last segment.
pub open spec fn path_span(path: Seq<Ident>) -> Option<Span> {
    if path.len() == 0 {
        None
    } else {
        Some(span_merge(path[0].span, path[path.len() - 1].span))
    }
}

pub open spec fn min_nat(a: nat, b: nat) -> nat {
    if a <= b {
        a
    } else {
        b
    }
}

/// The parameters a "parameters: ..." note shows: names, mutabilities and
/// types taken together, at most `expected_len` of them; none when the note
/// would be empty or a list is missing.
pub open spec fn parameters_note(
    params: Seq<Ty>,
    names: Option<Seq<u64>>,
    mutabilities: Option<Seq<bool>>,
    expected_len: nat,
) -> Option<Seq<ParamNote>> {
    match (names, mutabilities) {
        (Some(n), Some(m)) => {
            let k = min_nat(min_nat(n.len(), m.len()), min_nat(params.len(), expected_len));
            if expected_len == 0 || n.len() == 0 || m.len() == 0 || k == 0 {
                None
            } else {
                Some(Seq::new(k, |j: int| ParamNote { name: n[j], mutable: m[j], ty: params[j] }))
            }
        },
        _ => None,
    }
}

/// The range covering a selector path, from its first to its last segment.
pub fn selector_path_span(path: &[Ident]) -> (r: Option<Span>)
    ensures
        r == path_span(path@),
{
    if path.len() == 0 {
        None
    } else {
        Some(path[0].span.merge(path[path.len() - 1].span))
    }
}

/// The parameters to show in a "parameters: ..." note.
pub fn parameter_names_note(
    params: &[Ty],
    param_names: Option<&[u64]>,
    param_mutabilities: Option<&[bool]>,
    expected_len: usize,
) -> (r: Option<Vec<ParamNote>>)
    ensures
        r matches Some(v) ==> parameters_note(
            params@,
            match param_names {
                Some(n) => Some(n@),
                None => None,
            },
            match param_mutabilities {
                Some(m) => Some(m@),
                None => None,
            },
            expected_len as nat,
        ) == Some(v@),
        r is None ==> parameters_note(
            params@,
            match param_names {
                Some(n) => Some(n@),
                None => None,
            },
            match param_mutabilities {
                Some(m) => Some(m@),
                None => None,
            },
            expected_len as nat,
        ) is None,
{
    let names = match param_names {
        Some(n) => n,
        None => return None,
    };
    let mutabilities = match param_mutabilities {
        Some(m) => m,
        None => return None,
    };
    if expected_len == 0 || names.len() == 0 || mutabilities.len() == 0 {
        return None;
    }
    let mut k = if names.len() <= mutabilities.len() {
        names.len()
    } else {
        mutabilities.len()
    };
    if params.len() < k {
        k = params.len();
    }
    if expected_len < k {
        k = expected_len;
    }
    if k == 0 {
        return None;
    }
    let ghost expect = Seq::new(
        k as nat,
        |j: int| ParamNote { name: names@[j], mutable: mutabilities@[j], ty: params@[j] },
    );
    let mut out: Vec<ParamNote> = Vec::new();
    let mut j: usize = 0;
    while j < k
        invariant
            j <= k,
            k <= names@.len(),
            k <= mutabilities@.len(),
            k <= params@.len(),
            expect.len() == k,
            forall|x: int|
                0 <= x < k ==> #[trigger] expect[x] == (ParamNote {
                    name: names@[x],
                    mutable: mutabilities@[x],
                    ty: params@[x],
                }),
            out@ =~= expect.subrange(0, j as int),
        decreases k - j,
    {
        out.push(ParamNote { name: names[j], mutable: mutabilities[j], ty: copy_ty(&params[j]) });
        j += 1;
    }
    assert(out@ =~= expect);
    Some(out)
}

fn copy_bindings(s: &Vec<Binding>) -> (r: Vec<Binding>)
    ensures
        r@ == s@,
{
    let mut out: Vec<Binding> = Vec::new();
    let mut i: usize = 0;
    while i < s.len()
        invariant
            i <= s@.len(),
            out@ =~= s@.subrange(0, i as int),
        decreases s@.len() - i,
    {
        out.push(Binding { name: s[i].name, ty: copy_ty(&s[i].ty) });
        i += 1;
    }
    assert(out@ =~= s@);
    out
}

/// Matches a selector's parameter pattern against a receiver type (see
/// `pattern_assignable`); on failure the bindings are left as they were.
pub fn selector_pattern_assignable(expected: &Ty, actual: &Ty, subst: &mut Vec<Binding>) -> (r: bool)
    ensures
        r == (pattern_assignable(*expected, *actual, old(subst)@) is Some),
        r ==> final(subst)@ == pattern_assignable(*expected, *actual, old(subst)@)->0,
        !r ==> final(subst)@ == old(subst)@,
    decreases expected,
{
    let mut trial = copy_bindings(subst);
    if unify_ty(expected, actual, &mut trial) {
        *subst = trial;
        return true;
    }
    match (expected, actual) {
        (
            Ty::Pointer { nullable: en, mutability: em, inner: ei },
            Ty::Pointer { nullable: an, mutability: am, inner: ai },
        ) => {
            if (*en == *an || (*en && !*an)) && pointer_view_can_weaken(*em, *am) {
                selector_pattern_assignable(ei, ai, subst)
            } else {
                false
            }
        },
        (Ty::Slice { mutability: em, elem: ee }, Ty::Slice { mutability: am, elem: ae }) => {
            if pointer_view_can_weaken(*em, *am) {
                selector_pattern_assignable(ee, ae, subst)
            } else {
                false
            }
        },
        _ => false,
    }
}

/// How a receiver fits a selector's receiver parameter, if it does.
pub fn receiver_selector_adaptation(param_ty: &Ty, receiver_ty: &Ty) -> (r: Option<ReceiverAdaptation>)
    ensures
        r == adaptation(*param_ty, *receiver_ty),
{
    let mut subst: Vec<Binding> = Vec::new();
    assert(subst@ =~= Seq::<Binding>::empty());
    if selector_pattern_assignable(param_ty, receiver_ty, &mut subst) {
        return Some(ReceiverAdaptation::Direct);
    }
    match param_ty {
        Ty::Pointer { inner, .. } => {
            let mut subst: Vec<Binding> = Vec::new();
            assert(subst@ =~= Seq::<Binding>::empty());
            if selector_pattern_assignable(inner, receiver_ty, &mut subst) {
                Some(ReceiverAdaptation::Address)
            } else {
                None
            }
        },
        _ => None,
    }
}

/// Matches a receiver parameter pattern against an argument type, looking
/// through one pointer layer.
pub fn unify_receiver_param(pattern: &Ty, actual: &Ty, subst: &mut Vec<Binding>) -> (r: bool)
    ensures
        r == (receiver_param_match(*pattern, *actual, old(subst)@) is Some),
        r ==> final(subst)@ == receiver_param_match(*pattern, *actual, old(subst)@)->0,
{
    match pattern {
        Ty::Pointer { inner, .. } => match actual {
            Ty::Pointer { inner: actual_inner, .. } => unify_ty(inner, actual_inner, subst),
            _ => unify_ty(inner, actual, subst),
        },
        _ => unify_ty(pattern, actual, subst),
    }
}

/// Removes later repetitions of a selector declaration (same name, module
/// and callable), keeping the first.
pub fn dedup_receiver_selectors(selectors: &mut Vec<ReceiverSelectorSig>)
    ensures
        final(selectors)@ == dedup_selectors(old(selectors)@),
{
    let ghost s = selectors@;
    let mut out: Vec<ReceiverSelectorSig> = Vec::new();
    let mut i: usize = 0;
    assert(s.subrange(0, 0) =~= Seq::<ReceiverSelectorSig>::empty());
    while i < selectors.len()
        invariant
            s == selectors@,
            i <= s.len(),
            out@ == dedup_selectors(s.subrange(0, i as int)),
        decreases s.len() - i,
    {
        let mut seen = false;
        let mut j: usize = 0;
        while j < i
            invariant
                s == selectors@,
                i < s.len(),
                j <= i,
                seen == exists|k: int| 0 <= k < j && same_declaration(#[trigger] s[k], s[i as int]),
            decreases i - j,
        {
            let a = &selectors[j];
            let b = &selectors[i];
            if a.selector == b.selector && a.module == b.module && a.callable == b.callable {
                seen = true;
            }
            j += 1;
        }
        proof {
            let pre = s.subrange(0, i + 1);
            assert(pre.drop_last() =~= s.subrange(0, i as int));
            assert(pre.last() == s[i as int]);
            assert forall|k: int| 0 <= k < i implies #[trigger] pre.drop_last()[k] == s[k] by {}
            if seen {
                let k = choose|k: int| 0 <= k < i && same_declaration(#[trigger] s[k], s[i as int]);
                assert(same_declaration(pre.drop_last()[k], pre.last()));
            } else {
                assert forall|k: int| 0 <= k < pre.drop_last().len() implies !same_declaration(
                    #[trigger] pre.drop_last()[k],
                    pre.last(),
                ) by {
                    assert(pre.drop_last()[k] == s[k]);
                }
            }
        }
        if !seen {
            out.push(selectors[i]);
        }
        i += 1;
    }
    assert(s.subrange(0, s.len() as int) =~= s);
    *selectors = out;
}

/// Whether an interface's receiver generic occurs in its method's
/// parameters.
pub fn interface_receiver_is_input(interface: &InterfaceSig) -> (r: bool)
    ensures
        r == receiver_is_input(*interface),
{
    if interface.generics.len() == 0 {
        return false;
    }
    broadcast use vstd::std_specs::hash::group_hash_axioms;

    let mut names: HashSet<u64> = HashSet::new();
    collect_list_generic_names(&interface.params, &mut names);
    let receiver = interface.generics[0];
    let r = names.contains(&receiver);
    proof {
        assert(Set::<u64>::empty().union(generic_names_list(interface.params)) =~= generic_names_list(
            interface.params,
        ));
    }
    r
}

fn nth_ty(l: &TyList, n: u64) -> (r: Option<Ty>)
    ensures
        r == tys_nth(*l, n as nat),
    decreases l,
{
    match l {
        TyList::Nil => None,
        TyList::Cons(h, t) => if n == 0 {
            Some(copy_ty(h))
        } else {
            nth_ty(t, n - 1)
        },
    }
}

/// A receiver type with its pointer layers removed.
pub fn receiver_selector_root_ty(ty: &Ty) -> (r: Ty)
    ensures
        r == root_ty(*ty),
    decreases ty,
{
    match ty {
        Ty::Pointer { inner, .. } => receiver_selector_root_ty(inner),
        _ => copy_ty(ty),
    }
}

impl TypeChecker {
    fn find_function(&self, def_id: u64) -> (r: Option<usize>)
        ensures
            r matches Some(i) ==> function_index(self.program, def_id) == Some(i as int) && i
                < self.program.functions@.len(),
            r is None ==> function_index(self.program, def_id) is None,
    {
        let mut i: usize = 0;
        while i < self.program.functions.len()
            invariant
                i <= self.program.functions@.len(),
                forall|j: int| 0 <= j < i ==> (#[trigger] self.program.functions@[j]).def_id != def_id,
            decreases self.program.functions@.len() - i,
        {
            if self.program.functions[i].def_id == def_id {
                proof {
                    let k = function_index(self.program, def_id)->0;
                    if k < i {
                        assert(self.program.functions@[k].def_id != def_id);
                    }
                    if k > i {
                        assert(self.program.functions@[i as int].def_id != def_id);
                    }
                }
                return Some(i);
            }
            i += 1;
        }
        None
    }

    fn find_interface(&self, def_id: u64) -> (r: Option<usize>)
        ensures
            r matches Some(i) ==> interface_index(self.program, def_id) == Some(i as int) && i
                < self.program.interfaces@.len(),
            r is None ==> interface_index(self.program, def_id) is None,
    {
        let mut i: usize = 0;
        while i < self.program.interfaces.len()
            invariant
                i <= self.program.interfaces@.len(),
                forall|j: int| 0 <= j < i ==> (#[trigger] self.program.interfaces@[j]).def_id != def_id,
            decreases self.program.interfaces@.len() - i,
        {
            if self.program.interfaces[i].def_id == def_id {
                proof {
                    let k = interface_index(self.program, def_id)->0;
                    if k < i {
                        assert(self.program.interfaces@[k].def_id != def_id);
                    }
                    if k > i {
                        assert(self.program.interfaces@[i as int].def_id != def_id);
                    }
                }
                return Some(i);
            }
            i += 1;
        }
        None
    }

    /// The declared type of the receiver parameter a selector dispatches on.
    pub fn receiver_selector_pattern_ty(&self, selector: &ReceiverSelectorSig) -> (r: Option<Ty>)
        ensures
            r == selector_pattern(self.program, *selector),
    {
        match selector.callable {
            SelectorCallable::Function(d) => match self.find_function(d) {
                Some(i) => nth_ty(&self.program.functions[i].params, selector.receiver_index),
                None => None,
            },
            SelectorCallable::Interface(d) => match self.find_interface(d) {
                Some(i) => nth_ty(&self.program.interfaces[i].params, selector.receiver_index),
                None => None,
            },
        }
    }

    /// Whether two selectors' receiver patterns can match a common type.
    pub fn receiver_selector_patterns_overlap(
        &self,
        left: &ReceiverSelectorSig,
        right: &ReceiverSelectorSig,
    ) -> (r: bool)
        ensures
            r == patterns_overlap(self.program, *left, *right),
    {
        let left_ty = match self.receiver_selector_pattern_ty(left) {
            Some(t) => t,
            None => return false,
        };
        let right_ty = match self.receiver_selector_pattern_ty(right) {
            Some(t) => t,
            None => return false,
        };
        let left_root = receiver_selector_root_ty(&left_ty);
        let right_root = receiver_selector_root_ty(&right_ty);
        let mut subst: Vec<Binding> = Vec::new();
        assert(subst@ =~= Seq::<Binding>::empty());
        if unify_ty(&left_root, &right_root, &mut subst) {
            return true;
        }
        let mut subst: Vec<Binding> = Vec::new();
        assert(subst@ =~= Seq::<Binding>::empty());
        unify_ty(&right_root, &left_root, &mut subst)
    }

    fn report_selector_pair_conflict(&mut self, idx: usize, j: usize)
        requires
            idx < old(self).program.receiver_selectors@.len(),
            j < old(self).program.receiver_selectors@.len(),
        ensures
            final(self).same_context(*old(self)),
            final(self).diagnostics@ == old(self).diagnostics@ + pair_conflict(
                old(self).program,
                old(self).program.receiver_selectors@[idx as int],
                old(self).program.receiver_selectors@[j as int],
            ),
    {
        let left = &self.program.receiver_selectors[idx];
        let right = &self.program.receiver_selectors[j];
        let conflict = left.module == right.module && left.selector == right.selector
            && self.receiver_selector_patterns_overlap(left, right);
        if conflict {
            let receiver = match self.receiver_selector_pattern_ty(left) {
                Some(t) => receiver_selector_root_ty(&t),
                None => Ty::Unknown,
            };
            let selector = right.selector;
            let span = right.span;
            self.report(span, DiagKind::ConflictingSelector { selector, receiver });
        }
        proof {
            reveal(pair_conflict);
            let p = old(self).program;
            let l = p.receiver_selectors@[idx as int];
            let r = p.receiver_selectors@[j as int];
            if conflict {
                assert(self.diagnostics@ =~= old(self).diagnostics@ + pair_conflict(p, l, r));
            } else {
                assert(self.diagnostics@ =~= old(self).diagnostics@ + pair_conflict(p, l, r));
            }
        }
    }

    /// Reports each selector that repeats an earlier selector's name in the
    /// same module with an overlapping receiver pattern.
    pub fn validate_receiver_selector_conflicts(&mut self)
        ensures
            final(self).same_context(*old(self)),
            final(self).diagnostics@ == old(self).diagnostics@ + selector_conflicts(
                old(self).program,
                old(self).program.receiver_selectors@.len(),
            ),
    {
        let ghost start = *self;
        let n = self.program.receiver_selectors.len();
        let mut idx: usize = 0;
        proof {
            reveal_with_fuel(selector_conflicts, 1);
            assert(self.diagnostics@ =~= start.diagnostics@ + selector_conflicts(start.program, 0));
        }
        while idx < n
            invariant
                n == self.program.receiver_selectors@.len(),
                idx <= n,
                self.same_context(start),
                self.diagnostics@ == start.diagnostics@ + selector_conflicts(start.program, idx as nat),
            decreases n - idx,
        {
            let ghost row_start = self.diagnostics@;
            let mut j: usize = idx + 1;
            proof {
                reveal_with_fuel(row_conflicts, 1);
                assert(self.diagnostics@ =~= row_start + row_conflicts(start.program, idx as nat, j as nat));
            }
            while j < n
                invariant
                    n == self.program.receiver_selectors@.len(),
                    idx < n,
                    idx + 1 <= j <= n,
                    self.same_context(start),
                    self.diagnostics@ == row_start + row_conflicts(start.program, idx as nat, j as nat),
                decreases n - j,
            {
                self.report_selector_pair_conflict(idx, j);
                proof {
                    reveal_with_fuel(row_conflicts, 1);
                    assert(row_conflicts(start.program, idx as nat, (j + 1) as nat) == row_conflicts(
                        start.program,
                        idx as nat,
                        j as nat,
                    ) + pair_conflict(
                        start.program,
                        start.program.receiver_selectors@[idx as int],
                        start.program.receiver_selectors@[j as int],
                    ));
                    assert(self.diagnostics@ =~= row_start + row_conflicts(
                        start.program,
                        idx as nat,
                        (j + 1) as nat,
                    ));
                }
                j += 1;
            }
            proof {
                reveal_with_fuel(selector_conflicts, 1);
                assert(selector_conflicts(start.program, (idx + 1) as nat) == selector_conflicts(
                    start.program,
                    idx as nat,
                ) + row_conflicts(start.program, idx as nat, n as nat));
                assert(self.diagnostics@ =~= start.diagnostics@ + selector_conflicts(
                    start.program,
                    (idx + 1) as nat,
                ));
            }
            idx += 1;
        }
    }

    /// The explicit payload type given to an async operation, if any; more
    /// than one type argument is reported and gives the unknown type.
    pub fn explicit_async_payload_ty(&mut self, label: u64, span: Span, type_args: &[TypeArg]) -> (r:
        Option<Ty>)
        ensures
            final(self).same_context(*old(self)),
            type_args@.len() > 1 ==> r == Some(Ty::Unknown) && final(self).diagnostics@ == old(
                self,
            ).diagnostics@.push(diag(type_args@[1].span, DiagKind::TooManyTypeArguments { label })),
            type_args@.len() == 1 ==> r == Some(type_args@[0].ty) && final(self).diagnostics@ == old(
                self,
            ).diagnostics@,
            type_args@.len() == 0 ==> r is None && final(self).diagnostics@ == old(self).diagnostics@,
    {
        if type_args.len() > 1 {
            self.report(type_args[1].span, DiagKind::TooManyTypeArguments { label });
            return Some(Ty::Unknown);
        }
        if type_args.len() == 1 {
            Some(copy_ty(&type_args[0].ty))
        } else {
            None
        }
    }
}

} // verus!
