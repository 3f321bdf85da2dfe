//! Checks of the functions declared with the C ABI: what one declaration may
//! say, and how the declarations of one symbol must agree.
use vstd::prelude::*;
use crate::checker::{diag, FunctionSig, TypeChecker};
use crate::diag::{DiagKind, Diagnostic};
use crate::props::{has_closure, has_closure_list, is_erased_ty, list_contains_closure, type_contains_closure};
use crate::ty::{known_ty_matches, tys_match, TyList};

verus! {

/// Whether some parameter type is `void` or `never` (a value that does not exist).
pub open spec fn any_param_erased(l: TyList) -> bool
    decreases l,
{
    match l {
        TyList::Nil => false,
        TyList::Cons(h, t) => is_erased_ty(*h) || any_param_erased(*t),
    }
}

/// One diagnostic when `cond` holds, none otherwise.
pub open spec fn diag_if(cond: bool, d: Diagnostic) -> Seq<Diagnostic> {
    if cond {
        seq![d]
    } else {
        seq![]
    }
}

/// What is wrong with one C ABI declaration taken alone, in the order checked.
pub open spec fn c_signature_diags(s: FunctionSig) -> Seq<Diagnostic> {
    diag_if(!s.has_body && !s.is_unsafe, diag(s.span, DiagKind::ImportedCNotUnsafe))
        + diag_if(s.is_async, diag(s.span, DiagKind::ExternCAsync))
        + diag_if(s.has_body && !s.exported, diag(s.span, DiagKind::ExternCBodyNotExported))
        + diag_if(s.generics@.len() > 0, diag(s.span, DiagKind::ExternCGeneric))
        + diag_if(
        has_closure(s.ret) || has_closure_list(s.params),
        diag(s.span, DiagKind::ExternCClosureType),
    ) + diag_if(any_param_erased(s.params), diag(s.span, DiagKind::ExternCVoidParameter))
}

/// The per-declaration diagnostics of the C ABI functions among the first `n`.
pub open spec fn c_signatures_diags(fs: Seq<FunctionSig>, n: nat) -> Seq<Diagnostic>
    decreases n,
{
    if n == 0 {
        seq![]
    } else {
        c_signatures_diags(fs, (n - 1) as nat) + if fs[n - 1].c_abi {
            c_signature_diags(fs[n - 1])
        } else {
            seq![]
        }
    }
}

/// Among the first `n` functions, the index of the C ABI declaration of
/// `name` (a definition, with a body, when `bodies_only`) with the smallest
/// definition id; of equal ids the earliest.
pub open spec fn first_c_symbol(fs: Seq<FunctionSig>, n: nat, name: u64, bodies_only: bool) -> Option<int>
    decreases n,
{
    if n == 0 {
        None
    } else {
        let prev = first_c_symbol(fs, (n - 1) as nat, name, bodies_only);
        let s = fs[n - 1];
        let qualifies = s.c_abi && s.name == name && (!bodies_only || s.has_body);
        let earlier = match prev {
            None => true,
            Some(p) => s.def_id < fs[p].def_id,
        };
        if qualifies && earlier {
            Some(n - 1)
        } else {
            prev
        }
    }
}

/// The declaration at `i` is not the first of its symbol and disagrees with
/// the first one in its return or parameter types.
pub open spec fn conflicts_with_first(fs: Seq<FunctionSig>, i: int) -> bool {
    let s = fs[i];
    s.c_abi && match first_c_symbol(fs, fs.len(), s.name, false) {
        Some(f) => f != i && (fs[f].ret != s.ret || fs[f].params != s.params),
        None => false,
    }
}

/// The declaration at `i` is a definition of its symbol other than the first.
pub open spec fn repeats_definition(fs: Seq<FunctionSig>, i: int) -> bool {
    let s = fs[i];
    s.c_abi && s.has_body && match first_c_symbol(fs, fs.len(), s.name, true) {
        Some(f) => f != i,
        None => false,
    }
}

/// The agreement diagnostics of the first `n` declarations.
pub open spec fn c_symbol_diags(fs: Seq<FunctionSig>, n: nat) -> Seq<Diagnostic>
    decreases n,
{
    if n == 0 {
        seq![]
    } else {
        let i = n - 1;
        c_symbol_diags(fs, (n - 1) as nat) + diag_if(
            conflicts_with_first(fs, i),
            diag(fs[i].span, DiagKind::ConflictingCDeclarations { symbol: fs[i].name }),
        ) + diag_if(
            repeats_definition(fs, i),
            diag(fs[i].span, DiagKind::MultipleCDefinitions { symbol: fs[i].name }),
        )
    }
}

/// All C ABI diagnostics of a program's functions: first each declaration on
/// its own, then the agreement of the declarations of each symbol.
pub open spec fn c_abi_diags(fs: Seq<FunctionSig>) -> Seq<Diagnostic> {
    c_signatures_diags(fs, fs.len()) + c_symbol_diags(fs, fs.len())
}

fn params_have_erased(l: &TyList) -> (r: bool)
    ensures
        r == any_param_erased(*l),
    decreases l,
{
    match l {
        TyList::Nil => false,
        TyList::Cons(h, t) => h.is_erased_value() || params_have_erased(t),
    }
}

fn push_if(cond: bool, d: Diagnostic, out: &mut Vec<Diagnostic>)
    ensures
        final(out)@ == old(out)@ + diag_if(cond, d),
{
    if cond {
        out.push(d);
    } else {
        assert(old(out)@ + Seq::<Diagnostic>::empty() =~= old(out)@);
    }
}

fn push_c_signature_diags(s: &FunctionSig, out: &mut Vec<Diagnostic>)
    ensures
        final(out)@ == old(out)@ + c_signature_diags(*s),
{
    let mut found: Vec<Diagnostic> = Vec::new();
    push_if(
        !s.has_body && !s.is_unsafe,
        Diagnostic { span: s.span, kind: DiagKind::ImportedCNotUnsafe },
        &mut found,
    );
    assert(found@ =~= diag_if(!s.has_body && !s.is_unsafe, diag(s.span, DiagKind::ImportedCNotUnsafe)));
    push_if(s.is_async, Diagnostic { span: s.span, kind: DiagKind::ExternCAsync }, &mut found);
    push_if(
        s.has_body && !s.exported,
        Diagnostic { span: s.span, kind: DiagKind::ExternCBodyNotExported },
        &mut found,
    );
    push_if(s.generics.len() > 0, Diagnostic { span: s.span, kind: DiagKind::ExternCGeneric }, &mut found);
    push_if(
        type_contains_closure(&s.ret) || list_contains_closure(&s.params),
        Diagnostic { span: s.span, kind: DiagKind::ExternCClosureType },
        &mut found,
    );
    push_if(
        params_have_erased(&s.params),
        Diagnostic { span: s.span, kind: DiagKind::ExternCVoidParameter },
        &mut found,
    );
    out.append(&mut found);
}

/// The index of the C ABI declaration of `name` with the smallest definition
/// id (a definition with a body when `bodies_only`).
fn first_c_symbol_index(fs: &Vec<FunctionSig>, name: u64, bodies_only: bool) -> (r: Option<usize>)
    ensures
        match r {
            Some(k) => k < fs.len() && first_c_symbol(fs@, fs@.len(), name, bodies_only) == Some(
                k as int,
            ),
            None => first_c_symbol(fs@, fs@.len(), name, bodies_only) is None,
        },
{
    let mut best: Option<usize> = None;
    let mut j: usize = 0;
    while j < fs.len()
        invariant
            j <= fs.len(),
            match best {
                Some(k) => k < j && first_c_symbol(fs@, j as nat, name, bodies_only) == Some(k as int),
                None => first_c_symbol(fs@, j as nat, name, bodies_only) is None,
            },
        decreases fs.len() - j,
    {
        let s = &fs[j];
        let qualifies = s.c_abi && s.name == name && (!bodies_only || s.has_body);
        let earlier = match best {
            None => true,
            Some(k) => s.def_id < fs[k].def_id,
        };
        if qualifies && earlier {
            best = Some(j);
        }
        j = j + 1;
    }
    best
}

/// The C ABI diagnostics of the given functions (see `c_abi_diags`).
pub fn c_abi_diagnostics(fs: &Vec<FunctionSig>) -> (r: Vec<Diagnostic>)
    ensures
        r@ == c_abi_diags(fs@),
{
    let mut out: Vec<Diagnostic> = Vec::new();
    let mut i: usize = 0;
    while i < fs.len()
        invariant
            i <= fs.len(),
            out@ == c_signatures_diags(fs@, i as nat),
        decreases fs.len() - i,
    {
        let ghost before = out@;
        if fs[i].c_abi {
            push_c_signature_diags(&fs[i], &mut out);
        }
        proof {
            assert(c_signatures_diags(fs@, (i + 1) as nat) == c_signatures_diags(fs@, i as nat) + if fs@[i as int].c_abi {
                c_signature_diags(fs@[i as int])
            } else {
                seq![]
            });
            if !fs@[i as int].c_abi {
                assert(out@ =~= before + Seq::<Diagnostic>::empty());
            }
        }
        i = i + 1;
    }
    let ghost phase1 = out@;
    let mut i: usize = 0;
    while i < fs.len()
        invariant
            i <= fs.len(),
            phase1 == c_signatures_diags(fs@, fs@.len()),
            out@ == phase1 + c_symbol_diags(fs@, i as nat),
        decreases fs.len() - i,
    {
        let ghost before = out@;
        let s = &fs[i];
        let mut conflict = false;
        if s.c_abi {
            match first_c_symbol_index(fs, s.name, false) {
                Some(f) => {
                    if f != i {
                        let first = &fs[f];
                        conflict = !known_ty_matches(&first.ret, &s.ret) || !tys_match(
                            &first.params,
                            &s.params,
                        );
                    }
                },
                None => {},
            }
        }
        if conflict {
            out.push(
                Diagnostic { span: s.span, kind: DiagKind::ConflictingCDeclarations { symbol: s.name } },
            );
        }
        let ghost mid = out@;
        let mut repeated = false;
        if s.c_abi && s.has_body {
            match first_c_symbol_index(fs, s.name, true) {
                Some(f) => {
                    repeated = f != i;
                },
                None => {},
            }
        }
        if repeated {
            out.push(
                Diagnostic { span: s.span, kind: DiagKind::MultipleCDefinitions { symbol: s.name } },
            );
        }
        proof {
            let d1 = diag_if(
                conflicts_with_first(fs@, i as int),
                diag(fs@[i as int].span, DiagKind::ConflictingCDeclarations { symbol: fs@[i as int].name }),
            );
            let d2 = diag_if(
                repeats_definition(fs@, i as int),
                diag(fs@[i as int].span, DiagKind::MultipleCDefinitions { symbol: fs@[i as int].name }),
            );
            assert(conflict == conflicts_with_first(fs@, i as int));
            assert(repeated == repeats_definition(fs@, i as int));
            assert(mid =~= before + d1);
            assert(out@ =~= before + d1 + d2);
            assert(c_symbol_diags(fs@, (i + 1) as nat) == c_symbol_diags(fs@, i as nat) + d1 + d2);
            assert(out@ =~= phase1 + c_symbol_diags(fs@, (i + 1) as nat));
        }
        i = i + 1;
    }
    out
}

impl TypeChecker {
    /// Checks the functions declared with the C ABI and reports what is wrong
    /// with them (see `c_abi_diags`).
    pub fn validate_c_abi_functions(&mut self)
        ensures
            final(self).diagnostics@ == old(self).diagnostics@ + c_abi_diags(old(self).program.functions@),
            final(self).same_context(*old(self)),
    {
        let mut found = c_abi_diagnostics(&self.program.functions);
        self.diagnostics.append(&mut found);
    }
}

} // verus!
