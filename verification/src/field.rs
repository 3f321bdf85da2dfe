//! The members of aggregate types: the type of a field access
//! `value.field`, and the parts of a struct or enum as the resource analysis
//! sees them.
use vstd::prelude::*;
use crate::asyncty::{enum_instance_of, project_state, select_state};
use crate::boundary::{
    bindings_for, bindings_of, enum_members, enum_template_index, generic_name_vec, list_len_is, struct_members,
};
use crate::capability::{cache_valid, lemma_cache_valid_context};
use crate::checker::{diag, generic_names, FieldInfo, GenericInfo, Program, TypeChecker, VariantInfo};
use crate::capability_checks::all_constraint_failures;
use crate::checks::{unsafe_struct_instance, with_unsafe_required};
use crate::diag::{DiagKind, Diagnostic, Span, UnsafeReason};
use crate::generic::{subst_list, subst_ty, substitute_list, substitute_ty, Binding};
use crate::lookup::{struct_instance_index, template_of};
use crate::ty::{copy_bounds, copy_ty, copy_tys, tys_len, StateKey, Ty, TyList};

verus! {

/// What the resource analysis needs of a struct: whether it is a
/// resource, and otherwise the types of its fields.
#[derive(Debug, PartialEq)]
pub struct AffineStructInfo {
    pub is_resource: bool,
    pub fields: Vec<Ty>,
}

/// The types of a sequence of members.
pub open spec fn item_types(s: Seq<(StateKey, Ty)>) -> Seq<Ty> {
    s.map_values(|x: (StateKey, Ty)| x.1)
}

/// Whether struct `name<args>` is declared a resource (its checked
/// instance, else its generic declaration).
pub open spec fn resource_struct(p: Program, name: u64, args: TyList) -> bool {
    match struct_instance_index(p, name, args) {
        Some(i) => p.structs@[i].is_resource,
        None => match template_of(p, name) {
            Some(t) => t.is_resource,
            None => false,
        },
    }
}

/// A struct type as the resource analysis sees it: a resource (with no
/// fields to look into), or the types of its fields.
pub open spec fn struct_info(p: Program, t: Ty) -> Option<(bool, Seq<Ty>)> {
    match t {
        Ty::Named { name, args } => match struct_members(p, name, args) {
            Some(items) => if resource_struct(p, name, args) {
                Some((true, seq![]))
            } else {
                Some((false, item_types(items)))
            },
            None => None,
        },
        _ => None,
    }
}

/// The payload types of all variants of an enum type, in order.
pub open spec fn enum_payloads(p: Program, t: Ty) -> Option<Seq<Ty>> {
    match t {
        Ty::Named { name, args } => match enum_members(p, name, args) {
            Some(items) => Some(item_types(items)),
            None => None,
        },
        _ => None,
    }
}

/// Fields with the bindings substituted into their types.
pub open spec fn subst_fields(fs: Seq<FieldInfo>, b: Seq<Binding>) -> Seq<FieldInfo> {
    fs.map_values(|f: FieldInfo| FieldInfo { name: f.name, ty: subst_ty(f.ty, b) })
}

/// The fields of struct `name<args>`: those of its checked instance, or
/// those of its generic declaration with the arguments substituted (when
/// the number of arguments fits).
pub open spec fn struct_fields(p: Program, name: u64, args: TyList) -> Option<Seq<FieldInfo>> {
    match struct_instance_index(p, name, args) {
        Some(i) => Some(p.structs@[i].fields@),
        None => match template_of(p, name) {
            Some(tpl) => if tpl.generics@.len() == tys_len(args) {
                Some(subst_fields(tpl.fields@, bindings_of(generic_names(tpl.generics@), args)))
            } else {
                None
            },
            None => None,
        },
    }
}

/// The payload of each variant, with the bindings substituted.
pub open spec fn subst_payloads(vs: Seq<VariantInfo>, b: Seq<Binding>) -> Seq<TyList> {
    vs.map_values(|v: VariantInfo| subst_list(v.payload, b))
}

/// The payload of each variant of enum `name<args>`: from its checked
/// instance, or from its generic declaration with the arguments
/// substituted (when the number of arguments fits).
pub open spec fn enum_variant_payloads(p: Program, name: u64, args: TyList) -> Option<Seq<TyList>> {
    match enum_instance_of(p, Ty::Named { name, args }) {
        Some(e) => Some(e.variants@.map_values(|v: VariantInfo| v.payload)),
        None => match enum_template_index(p, name) {
            Some(i) => {
                let tpl = p.enum_templates@[i];
                if tpl.generics@.len() == tys_len(args) {
                    Some(subst_payloads(tpl.variants@, bindings_of(tpl.generics@, args)))
                } else {
                    None
                }
            },
            None => None,
        },
    }
}

fn copy_fields(fs: &Vec<FieldInfo>, b: Option<&Vec<Binding>>) -> (r: Vec<FieldInfo>)
    ensures
        r@ == match b {
            Some(b) => subst_fields(fs@, b@),
            None => fs@,
        },
{
    let mut r: Vec<FieldInfo> = Vec::new();
    let mut i: usize = 0;
    while i < fs.len()
        invariant
            i <= fs.len(),
            r@ =~= match b {
                Some(b) => subst_fields(fs@.subrange(0, i as int), b@),
                None => fs@.subrange(0, i as int),
            },
        decreases fs.len() - i,
    {
        let f = &fs[i];
        let ty = match b {
            Some(b) => substitute_ty(&f.ty, b),
            None => copy_ty(&f.ty),
        };
        r.push(FieldInfo { name: f.name, ty });
        i += 1;
        assert(r@ =~= match b {
            Some(b) => subst_fields(fs@.subrange(0, i as int), b@),
            None => fs@.subrange(0, i as int),
        });
    }
    assert(fs@.subrange(0, fs.len() as int) =~= fs@);
    r
}

fn copy_payloads(vs: &Vec<VariantInfo>, b: Option<&Vec<Binding>>) -> (r: Vec<TyList>)
    ensures
        r@ == match b {
            Some(b) => subst_payloads(vs@, b@),
            None => vs@.map_values(|v: VariantInfo| v.payload),
        },
{
    let mut r: Vec<TyList> = Vec::new();
    let mut i: usize = 0;
    while i < vs.len()
        invariant
            i <= vs.len(),
            r@ =~= match b {
                Some(b) => subst_payloads(vs@.subrange(0, i as int), b@),
                None => vs@.subrange(0, i as int).map_values(|v: VariantInfo| v.payload),
            },
        decreases vs.len() - i,
    {
        let payload = match b {
            Some(b) => substitute_list(&vs[i].payload, b),
            None => copy_tys(&vs[i].payload),
        };
        r.push(payload);
        i += 1;
        assert(r@ =~= match b {
            Some(b) => subst_payloads(vs@.subrange(0, i as int), b@),
            None => vs@.subrange(0, i as int).map_values(|v: VariantInfo| v.payload),
        });
    }
    assert(vs@.subrange(0, vs.len() as int) =~= vs@);
    r
}

fn item_type_vec(items: &Vec<(StateKey, Ty)>) -> (r: Vec<Ty>)
    ensures
        r@ == item_types(items@),
{
    let mut r: Vec<Ty> = Vec::new();
    let mut i: usize = 0;
    while i < items.len()
        invariant
            i <= items.len(),
            r@ =~= item_types(items@.subrange(0, i as int)),
        decreases items.len() - i,
    {
        r.push(copy_ty(&items[i].1));
        i += 1;
        assert(r@ =~= item_types(items@.subrange(0, i as int)));
    }
    assert(items@.subrange(0, items.len() as int) =~= items@);
    r
}

/// The type of the first field named `field`.
pub open spec fn field_of(fs: Seq<FieldInfo>, field: u64) -> Option<Ty>
    decreases fs.len(),
{
    if fs.len() == 0 {
        None
    } else if fs[0].name == field {
        Some(fs[0].ty)
    } else {
        field_of(fs.drop_first(), field)
    }
}

/// The field type found on struct `name<args>`, with the report of an
/// access to a field of an unsafe struct outside `unsafe`.
pub open spec fn found_field(
    tc: TypeChecker,
    name: u64,
    args: TyList,
    ty: Ty,
    span: Span,
    before: Seq<Diagnostic>,
) -> (Option<Ty>, Seq<Diagnostic>) {
    (
        Some(ty),
        if unsafe_struct_instance(tc, name, args) {
            with_unsafe_required(before, tc.state.unsafe_depth, span, UnsafeReason::UnsafeStructFieldAccess(name))
        } else {
            before
        },
    )
}

/// A field of struct `name<args>` (whose type, as written, is `view`): from
/// its checked instance; else from its generic declaration, whose
/// constraints are checked for `args` and whose field types get `args`
/// substituted.
pub open spec fn named_field_lookup(tc: TypeChecker, view: Ty, name: u64, args: TyList, field: u64, span: Span) -> (
    Option<Ty>,
    Seq<Diagnostic>,
) {
    let p = tc.program;
    match struct_instance_index(p, name, args) {
        Some(i) => match field_of(p.structs@[i].fields@, field) {
            Some(t) => found_field(tc, name, args, t, span, seq![]),
            None => (None, seq![diag(span, DiagKind::UnknownField { ty: view, field })]),
        },
        None => match template_of(p, name) {
            Some(tpl) => if tpl.generics@.len() != tys_len(args) {
                (
                    None,
                    seq![
                        diag(
                            span,
                            DiagKind::WrongTypeArgumentCount {
                                name,
                                expected_count: tpl.generics@.len() as u64,
                                args,
                            },
                        ),
                    ],
                )
            } else {
                let b = bindings_of(generic_names(tpl.generics@), args);
                let failures = all_constraint_failures(tc, tpl.generics@, b, span);
                match field_of(tpl.fields@, field) {
                    Some(t) => found_field(tc, name, args, subst_ty(t, b), span, failures),
                    None => (None, failures.push(diag(span, DiagKind::UnknownField { ty: view, field }))),
                }
            },
            None => (None, seq![diag(span, DiagKind::NoSuchField { ty: view, field })]),
        },
    }
}

/// The type of field `field` of a value whose (field view) type is `view`,
/// and what is reported on the way.  A value with hidden state has the
/// field of its base type, with the state recorded for that field
/// projected onto it; a slice has `ptr` and `len`; a struct has its
/// declared fields.
pub open spec fn field_lookup(tc: TypeChecker, view: Ty, field: u64, span: Span) -> (Option<Ty>, Seq<Diagnostic>)
    decreases view,
{
    match view {
        Ty::OpaqueState { base, state } => {
            let inner = field_lookup(tc, *base, field, span);
            (
                match inner.0 {
                    Some(t) => Some(
                        project_state(tc.program.std, t, select_state(state, StateKey::Field(field), false)),
                    ),
                    None => None,
                },
                inner.1,
            )
        },
        Ty::Slice { mutability, elem } => if field == tc.program.std.ptr_field {
            (Some(Ty::Pointer { nullable: false, mutability, inner: elem }), seq![])
        } else if field == tc.program.std.len_field {
            (Some(Ty::Usize), seq![])
        } else {
            (None, seq![diag(span, DiagKind::NoSuchField { ty: view, field })])
        },
        Ty::Named { name, args } => named_field_lookup(tc, view, name, args, field, span),
        _ => (None, seq![diag(span, DiagKind::NoSuchField { ty: view, field })]),
    }
}

pub(crate) fn copy_generics(g: &Vec<GenericInfo>) -> (r: Vec<GenericInfo>)
    ensures
        r@ == g@,
{
    let mut r: Vec<GenericInfo> = Vec::new();
    let mut i: usize = 0;
    while i < g.len()
        invariant
            i <= g.len(),
            r@ =~= g@.subrange(0, i as int),
        decreases g.len() - i,
    {
        let x = &g[i];
        let bounds = match &x.bounds {
            Some(b) => Some(copy_bounds(b)),
            None => None,
        };
        r.push(GenericInfo { name: x.name, is_resource: x.is_resource, bounds });
        i += 1;
    }
    assert(g@.subrange(0, g.len() as int) =~= g@);
    r
}

/// The position of the first field named `field`.
fn find_field(fs: &Vec<FieldInfo>, field: u64) -> (r: Option<usize>)
    ensures
        match r {
            Some(i) => i < fs@.len() && field_of(fs@, field) == Some(fs@[i as int].ty),
            None => field_of(fs@, field) is None,
        },
{
    let mut i: usize = 0;
    assert(fs@.skip(0) =~= fs@);
    while i < fs.len()
        invariant
            i <= fs.len(),
            field_of(fs@, field) == field_of(fs@.skip(i as int), field),
        decreases fs.len() - i,
    {
        assert(fs@.skip(i as int).drop_first() =~= fs@.skip(i + 1));
        if fs[i].name == field {
            return Some(i);
        }
        i += 1;
    }
    None
}

impl TypeChecker {
    fn report_unsafe_field_access(&mut self, name: u64, args: &TyList, span: Span)
        ensures
            final(self).same_context(*old(self)),
            final(self).diagnostics@ == if unsafe_struct_instance(*old(self), name, *args) {
                with_unsafe_required(
                    old(self).diagnostics@,
                    old(self).state.unsafe_depth,
                    span,
                    UnsafeReason::UnsafeStructFieldAccess(name),
                )
            } else {
                old(self).diagnostics@
            },
    {
        if self.is_unsafe_struct_instance(name, args) {
            self.require_unsafe(span, UnsafeReason::UnsafeStructFieldAccess(name));
        }
    }

    /// The type of field `field` of a value whose field view type is
    /// `view` (see `field_lookup`).
    pub fn field_ty(&mut self, view: &Ty, field: u64, span: Span) -> (r: Option<Ty>)
        requires
            cache_valid(*old(self)),
        ensures
            r == field_lookup(*old(self), *view, field, span).0,
            final(self).diagnostics@ == old(self).diagnostics@ + field_lookup(*old(self), *view, field, span).1,
            final(self).same_program_and_state(*old(self)),
            cache_valid(*final(self)),
        decreases view,
    {
        let ghost tc0 = *self;
        match view {
            Ty::OpaqueState { base, state } => {
                let inner = self.field_ty(base, field, span);
                match inner {
                    Some(t) => Some(self.project_opaque_field_ty(t, state, field)),
                    None => None,
                }
            },
            Ty::Slice { mutability, elem } => {
                if field == self.program.std.ptr_field {
                    assert(self.diagnostics@ + Seq::<Diagnostic>::empty() =~= self.diagnostics@);
                    Some(Ty::Pointer { nullable: false, mutability: *mutability, inner: Box::new(copy_ty(elem)) })
                } else if field == self.program.std.len_field {
                    assert(self.diagnostics@ + Seq::<Diagnostic>::empty() =~= self.diagnostics@);
                    Some(Ty::Usize)
                } else {
                    self.report(span, DiagKind::NoSuchField { ty: copy_ty(view), field });
                    proof {
                        lemma_cache_valid_context(tc0, *self);
                    }
                    None
                }
            },
            Ty::Named { name, args } => {
                match self.find_struct_instance(*name, args) {
                    Some(i) => {
                        match find_field(&self.program.structs[i].fields, field) {
                            Some(k) => {
                                let t = copy_ty(&self.program.structs[i].fields[k].ty);
                                self.report_unsafe_field_access(*name, args, span);
                                proof {
                                    lemma_cache_valid_context(tc0, *self);
                                    if !unsafe_struct_instance(tc0, *name, *args) {
                                        assert(self.diagnostics@ =~= tc0.diagnostics@ + Seq::<Diagnostic>::empty());
                                    } else if tc0.state.unsafe_depth != 0 {
                                        assert(self.diagnostics@ =~= tc0.diagnostics@ + Seq::<Diagnostic>::empty());
                                    } else {
                                        assert(self.diagnostics@ =~= tc0.diagnostics@ + seq![
                                            diag(span, DiagKind::RequiresUnsafe(UnsafeReason::UnsafeStructFieldAccess(*name))),
                                        ]);
                                    }
                                }
                                Some(t)
                            },
                            None => {
                                self.report(span, DiagKind::UnknownField { ty: copy_ty(view), field });
                                proof {
                                    lemma_cache_valid_context(tc0, *self);
                                }
                                None
                            },
                        }
                    },
                    None => match self.find_struct_template(*name) {
                        Some(ti) => {
                            let count = self.program.struct_templates[ti].generics.len();
                            if !list_len_is(args, count) {
                                self.report(
                                    span,
                                    DiagKind::WrongTypeArgumentCount {
                                        name: *name,
                                        expected_count: count as u64,
                                        args: copy_tys(args),
                                    },
                                );
                                proof {
                                    lemma_cache_valid_context(tc0, *self);
                                }
                                return None;
                            }
                            let names = generic_name_vec(&self.program.struct_templates[ti].generics);
                            let b = bindings_for(&names, args);
                            let found = match find_field(&self.program.struct_templates[ti].fields, field) {
                                Some(k) => Some(substitute_ty(&self.program.struct_templates[ti].fields[k].ty, &b)),
                                None => None,
                            };
                            let gens = copy_generics(&self.program.struct_templates[ti].generics);
                            self.check_generic_constraints(&gens, &b, span);
                            let ghost tc1 = *self;
                            match found {
                                Some(t) => {
                                    self.report_unsafe_field_access(*name, args, span);
                                    proof {
                                        lemma_cache_valid_context(tc1, *self);
                                        if !unsafe_struct_instance(tc0, *name, *args) || tc0.state.unsafe_depth != 0 {
                                            assert(self.diagnostics@ =~= tc1.diagnostics@);
                                        } else {
                                            assert(self.diagnostics@ =~= tc1.diagnostics@.push(
                                                diag(span, DiagKind::RequiresUnsafe(UnsafeReason::UnsafeStructFieldAccess(*name))),
                                            ));
                                        }
                                    }
                                    Some(t)
                                },
                                None => {
                                    self.report(span, DiagKind::UnknownField { ty: copy_ty(view), field });
                                    proof {
                                        lemma_cache_valid_context(tc1, *self);
                                    }
                                    None
                                },
                            }
                        },
                        None => {
                            self.report(span, DiagKind::NoSuchField { ty: copy_ty(view), field });
                            proof {
                                lemma_cache_valid_context(tc0, *self);
                            }
                            None
                        },
                    },
                }
            },
            _ => {
                self.report(span, DiagKind::NoSuchField { ty: copy_ty(view), field });
                proof {
                    lemma_cache_valid_context(tc0, *self);
                }
                None
            },
        }
    }

    /// The type of a field, as `field_ty` finds it, without reporting anything.
    pub fn field_ty_silent(&mut self, view: &Ty, field: u64, span: Span) -> (r: Option<Ty>)
        requires
            cache_valid(*old(self)),
        ensures
            r == field_lookup(*old(self), *view, field, span).0,
            final(self).diagnostics@ == old(self).diagnostics@,
            final(self).same_program_and_state(*old(self)),
            cache_valid(*final(self)),
    {
        let ghost tc0 = *self;
        let count = self.diagnostics.len();
        let r = self.field_ty(view, field, span);
        let ghost tc1 = *self;
        self.diagnostics.truncate(count);
        proof {
            assert(self.diagnostics@ =~= tc0.diagnostics@);
            lemma_cache_valid_context(tc1, *self);
        }
        r
    }

    /// Whether struct `name<args>` is a resource, and the types of its
    /// fields (none for a resource); `None` for a type that is no struct
    /// (see `struct_info`).
    pub fn named_struct_info(&self, ty: &Ty) -> (r: Option<AffineStructInfo>)
        ensures
            r matches Some(info) ==> struct_info(self.program, *ty) == Some((info.is_resource, info.fields@)),
            r is None ==> struct_info(self.program, *ty) is None,
    {
        match ty {
            Ty::Named { name, args } => {
                match self.struct_member_items(*name, args) {
                    Some(items) => {
                        if self.struct_is_resource(*name, args) {
                            Some(AffineStructInfo { is_resource: true, fields: Vec::new() })
                        } else {
                            Some(AffineStructInfo { is_resource: false, fields: item_type_vec(&items) })
                        }
                    },
                    None => None,
                }
            },
            _ => None,
        }
    }

    /// The payload types of all variants of enum `name<args>`, in order;
    /// `None` for a type that is no enum.
    pub fn named_enum_payloads(&self, ty: &Ty) -> (r: Option<Vec<Ty>>)
        ensures
            r matches Some(v) ==> enum_payloads(self.program, *ty) == Some(v@),
            r is None ==> enum_payloads(self.program, *ty) is None,
    {
        match ty {
            Ty::Named { name, args } => match self.enum_member_items(*name, args) {
                Some(items) => Some(item_type_vec(&items)),
                None => None,
            },
            _ => None,
        }
    }

    fn struct_is_resource(&self, name: u64, args: &TyList) -> (r: bool)
        ensures
            r == resource_struct(self.program, name, *args),
    {
        match self.find_struct_instance(name, args) {
            Some(i) => self.program.structs[i].is_resource,
            None => match self.find_struct_template(name) {
                Some(i) => self.program.struct_templates[i].is_resource,
                None => false,
            },
        }
    }

    /// The fields of struct `name<args>` (see `struct_fields`).
    pub fn symbolic_struct_fields(&self, name: u64, args: &TyList) -> (r: Option<Vec<FieldInfo>>)
        ensures
            r matches Some(v) ==> struct_fields(self.program, name, *args) == Some(v@),
            r is None ==> struct_fields(self.program, name, *args) is None,
    {
        match self.find_struct_instance(name, args) {
            Some(i) => Some(copy_fields(&self.program.structs[i].fields, None)),
            None => match self.find_struct_template(name) {
                Some(i) => {
                    let tpl = &self.program.struct_templates[i];
                    if list_len_is(args, tpl.generics.len()) {
                        let names = generic_name_vec(&tpl.generics);
                        let b = bindings_for(&names, args);
                        Some(copy_fields(&tpl.fields, Some(&b)))
                    } else {
                        None
                    }
                },
                None => None,
            },
        }
    }

    /// The payload of each variant of enum `name<args>` (see
    /// `enum_variant_payloads`).
    pub fn symbolic_enum_variants(&self, name: u64, args: &TyList) -> (r: Option<Vec<TyList>>)
        ensures
            r matches Some(v) ==> enum_variant_payloads(self.program, name, *args) == Some(v@),
            r is None ==> enum_variant_payloads(self.program, name, *args) is None,
    {
        let named = Ty::Named { name, args: copy_tys(args) };
        match self.find_enum_of(&named) {
            Some(i) => Some(copy_payloads(&self.program.enums[i].variants, None)),
            None => match self.find_enum_template(name) {
                Some(i) => {
                    let tpl = &self.program.enum_templates[i];
                    if list_len_is(args, tpl.generics.len()) {
                        let b = bindings_for(&tpl.generics, args);
                        Some(copy_payloads(&tpl.variants, Some(&b)))
                    } else {
                        None
                    }
                },
                None => None,
            },
        }
    }
}

} // verus!
