//! Which receiver selectors a module sees: its own, and those exported by
//! the modules it imports, following re-exports through the import graph.
use std::collections::HashSet;
use vstd::prelude::*;
use crate::checker::{ImportInfo, Program, ReceiverSelectorSig, TypeChecker};
use crate::selector::{dedup_receiver_selectors, dedup_selectors, Ident};

verus! {

/// The imports of module `m` (none for an id that names no module).
pub open spec fn imports_of(p: Program, m: u64) -> Seq<ImportInfo> {
    if m < p.modules@.len() {
        p.modules@[m as int].imports@
    } else {
        seq![]
    }
}

/// How many of the modules `0..n` are not yet visited.
pub open spec fn unvisited_count(n: nat, v: Set<u64>) -> nat
    decreases n,
{
    if n == 0 {
        0
    } else {
        unvisited_count((n - 1) as nat, v) + if n - 1 <= u64::MAX && !v.contains((n - 1) as u64) {
            1nat
        } else {
            0nat
        }
    }
}

/// How many modules of the program are not yet visited.
pub open spec fn unvisited(p: Program, v: Set<u64>) -> nat {
    unvisited_count(p.modules@.len(), v)
}

/// Visiting a module beyond the first `n` does not change how many of them
/// are unvisited.
pub proof fn lemma_mark_beyond(n: nat, v: Set<u64>, m: u64)
    requires
        n <= m,
    ensures
        unvisited_count(n, v.insert(m)) == unvisited_count(n, v),
    decreases n,
{
    if n > 0 {
        lemma_mark_beyond((n - 1) as nat, v, m);
    }
}

/// Marking an unvisited module visited leaves one fewer unvisited.
pub proof fn lemma_mark_visited(n: nat, v: Set<u64>, m: u64)
    requires
        m < n,
        !v.contains(m),
    ensures
        unvisited_count(n, v.insert(m)) + 1 == unvisited_count(n, v),
    decreases n,
{
    let k = (n - 1) as u64;
    if m == n - 1 {
        assert(k == m);
        assert(v.insert(m).contains(k));
        lemma_mark_beyond((n - 1) as nat, v, m);
    } else {
        if n - 1 <= u64::MAX {
            assert(k != m);
            assert(v.insert(m).contains(k) == v.contains(k));
        }
        lemma_mark_visited((n - 1) as nat, v, m);
    }
}

/// The selectors named `name` declared in module `m` (only the exported
/// ones when `exported_only`), in declaration order.
pub open spec fn selectors_of(s: Seq<ReceiverSelectorSig>, m: u64, name: u64, exported_only: bool) -> Seq<
    ReceiverSelectorSig,
>
    decreases s.len(),
{
    if s.len() == 0 {
        seq![]
    } else {
        let x = s.last();
        selectors_of(s.drop_last(), m, name, exported_only) + if x.module == m && x.selector == name && (
        !exported_only || x.exported) {
            seq![x]
        } else {
            seq![]
        }
    }
}

/// Depth-first walk from module `m` through re-exporting imports (exported,
/// without an alias), collecting the exported selectors named `name` of each
/// module on first visit.  `v` marks the visited modules, `out` is what was
/// collected before; an id that names no module counts as visited.
pub open spec fn selector_walk(p: Program, m: u64, name: u64, v: Set<u64>, out: Seq<ReceiverSelectorSig>) -> (
    Set<u64>,
    Seq<ReceiverSelectorSig>,
)
    decreases unvisited(p, v), 0nat, 0nat,
{
    if m >= p.modules@.len() || v.contains(m) {
        (v, out)
    } else {
        proof {
            lemma_mark_visited(p.modules@.len(), v, m);
        }
        selector_walk_imports(
            p,
            m,
            name,
            0,
            v.insert(m),
            out + selectors_of(p.receiver_selectors@, m, name, true),
        )
    }
}

/// The walk over the imports of `m` from the `i`-th on.
pub open spec fn selector_walk_imports(
    p: Program,
    m: u64,
    name: u64,
    i: nat,
    v: Set<u64>,
    out: Seq<ReceiverSelectorSig>,
) -> (Set<u64>, Seq<ReceiverSelectorSig>)
    decreases unvisited(p, v), 1nat, imports_of(p, m).len() - i,
{
    if i >= imports_of(p, m).len() {
        (v, out)
    } else {
        let imp = imports_of(p, m)[i as int];
        if imp.exported && imp.alias is None && imp.target is Some {
            let r = selector_walk(p, imp.target->0, name, v, out);
            if unvisited(p, r.0) <= unvisited(p, v) {
                selector_walk_imports(p, m, name, i + 1, r.0, r.1)
            } else {
                r
            }
        } else {
            selector_walk_imports(p, m, name, i + 1, v, out)
        }
    }
}

/// The walk keeps the number of modules and never unvisits one.
pub proof fn lemma_selector_walk(p: Program, m: u64, name: u64, v: Set<u64>, out: Seq<ReceiverSelectorSig>)
    ensures
        unvisited(p, selector_walk(p, m, name, v, out).0) <= unvisited(p, v),
    decreases unvisited(p, v), 0nat, 0nat,
{
    if m >= p.modules@.len() || v.contains(m) {
    } else {
        lemma_mark_visited(p.modules@.len(), v, m);
        lemma_selector_walk_imports(
            p,
            m,
            name,
            0,
            v.insert(m),
            out + selectors_of(p.receiver_selectors@, m, name, true),
        );
    }
}

pub proof fn lemma_selector_walk_imports(
    p: Program,
    m: u64,
    name: u64,
    i: nat,
    v: Set<u64>,
    out: Seq<ReceiverSelectorSig>,
)
    ensures
        unvisited(p, selector_walk_imports(p, m, name, i, v, out).0) <= unvisited(p, v),
    decreases unvisited(p, v), 1nat, imports_of(p, m).len() - i,
{
    if i >= imports_of(p, m).len() {
    } else {
        let imp = imports_of(p, m)[i as int];
        if imp.exported && imp.alias is None && imp.target is Some {
            let r = selector_walk(p, imp.target->0, name, v, out);
            lemma_selector_walk(p, imp.target->0, name, v, out);
            lemma_selector_walk_imports(p, m, name, i + 1, r.0, r.1);
        } else {
            lemma_selector_walk_imports(p, m, name, i + 1, v, out);
        }
    }
}

/// Depth-first walk from module `m` through re-exporting imports (exported,
/// without an alias), collecting the targets of the exported imports that
/// carry the alias `alias`.
pub open spec fn alias_walk(p: Program, m: u64, alias: u64, v: Set<u64>, out: Seq<u64>) -> (Set<u64>, Seq<u64>)
    decreases unvisited(p, v), 0nat, 0nat,
{
    if m >= p.modules@.len() || v.contains(m) {
        (v, out)
    } else {
        proof {
            lemma_mark_visited(p.modules@.len(), v, m);
        }
        alias_walk_imports(p, m, alias, 0, v.insert(m), out)
    }
}

/// The alias walk over the imports of `m` from the `i`-th on.
pub open spec fn alias_walk_imports(p: Program, m: u64, alias: u64, i: nat, v: Set<u64>, out: Seq<u64>) -> (
    Set<u64>,
    Seq<u64>,
)
    decreases unvisited(p, v), 1nat, imports_of(p, m).len() - i,
{
    if i >= imports_of(p, m).len() {
        (v, out)
    } else {
        let imp = imports_of(p, m)[i as int];
        if !imp.exported {
            alias_walk_imports(p, m, alias, i + 1, v, out)
        } else if imp.alias == Some(alias) {
            let out1 = match imp.target {
                Some(t) => out.push(t),
                None => out,
            };
            alias_walk_imports(p, m, alias, i + 1, v, out1)
        } else if imp.alias is None && imp.target is Some {
            let r = alias_walk(p, imp.target->0, alias, v, out);
            if unvisited(p, r.0) <= unvisited(p, v) {
                alias_walk_imports(p, m, alias, i + 1, r.0, r.1)
            } else {
                r
            }
        } else {
            alias_walk_imports(p, m, alias, i + 1, v, out)
        }
    }
}

pub proof fn lemma_alias_walk(p: Program, m: u64, alias: u64, v: Set<u64>, out: Seq<u64>)
    ensures
        unvisited(p, alias_walk(p, m, alias, v, out).0) <= unvisited(p, v),
    decreases unvisited(p, v), 0nat, 0nat,
{
    if m >= p.modules@.len() || v.contains(m) {
    } else {
        lemma_mark_visited(p.modules@.len(), v, m);
        lemma_alias_walk_imports(p, m, alias, 0, v.insert(m), out);
    }
}

pub proof fn lemma_alias_walk_imports(p: Program, m: u64, alias: u64, i: nat, v: Set<u64>, out: Seq<u64>)
    ensures
        unvisited(p, alias_walk_imports(p, m, alias, i, v, out).0) <= unvisited(p, v),
    decreases unvisited(p, v), 1nat, imports_of(p, m).len() - i,
{
    if i >= imports_of(p, m).len() {
    } else {
        let imp = imports_of(p, m)[i as int];
        if !imp.exported {
            lemma_alias_walk_imports(p, m, alias, i + 1, v, out);
        } else if imp.alias == Some(alias) {
            let out1 = match imp.target {
                Some(t) => out.push(t),
                None => out,
            };
            lemma_alias_walk_imports(p, m, alias, i + 1, v, out1);
        } else if imp.alias is None && imp.target is Some {
            let r = alias_walk(p, imp.target->0, alias, v, out);
            lemma_alias_walk(p, imp.target->0, alias, v, out);
            lemma_alias_walk_imports(p, m, alias, i + 1, r.0, r.1);
        } else {
            lemma_alias_walk_imports(p, m, alias, i + 1, v, out);
        }
    }
}

/// The direct targets of the imports that carry the alias `alias`.
pub open spec fn direct_alias_targets(imps: Seq<ImportInfo>, alias: u64) -> Seq<u64>
    decreases imps.len(),
{
    if imps.len() == 0 {
        seq![]
    } else {
        let imp = imps.last();
        direct_alias_targets(imps.drop_last(), alias) + if imp.alias == Some(alias) && imp.target is Some {
            seq![imp.target->0]
        } else {
            seq![]
        }
    }
}

/// The alias walk started from each plain (alias-free) import of a module,
/// from the `i`-th on, all sharing one set of visited modules.
pub open spec fn alias_walk_from_imports(
    p: Program,
    imps: Seq<ImportInfo>,
    alias: u64,
    i: nat,
    v: Set<u64>,
    out: Seq<u64>,
) -> Seq<u64>
    decreases imps.len() - i,
{
    if i >= imps.len() {
        out
    } else {
        let imp = imps[i as int];
        if imp.alias is None && imp.target is Some {
            let r = alias_walk(p, imp.target->0, alias, v, out);
            alias_walk_from_imports(p, imps, alias, i + 1, r.0, r.1)
        } else {
            alias_walk_from_imports(p, imps, alias, i + 1, v, out)
        }
    }
}

/// The module ids with later repetitions removed.
pub open spec fn dedup_ids(s: Seq<u64>) -> Seq<u64>
    decreases s.len(),
{
    if s.len() == 0 {
        s
    } else {
        let init = s.drop_last();
        if init.contains(s.last()) {
            dedup_ids(init)
        } else {
            dedup_ids(init).push(s.last())
        }
    }
}

/// The modules that the alias `alias` may name in module `m`: the targets of
/// its own imports with that alias, then those re-exported under that alias
/// by the modules it imports plainly, without repetitions.
pub open spec fn alias_targets(p: Program, m: u64, alias: u64) -> Seq<u64> {
    let imps = imports_of(p, m);
    dedup_ids(
        alias_walk_from_imports(
            p,
            imps,
            alias,
            0,
            Set::<u64>::empty(),
            direct_alias_targets(imps, alias),
        ),
    )
}

/// The selector walk started from each plain (alias-free) import of a
/// module, from the `i`-th on, all sharing one set of visited modules.
pub open spec fn selector_walk_from_imports(
    p: Program,
    imps: Seq<ImportInfo>,
    name: u64,
    i: nat,
    v: Set<u64>,
    out: Seq<ReceiverSelectorSig>,
) -> Seq<ReceiverSelectorSig>
    decreases imps.len() - i,
{
    if i >= imps.len() {
        out
    } else {
        let imp = imps[i as int];
        if imp.alias is None && imp.target is Some {
            let r = selector_walk(p, imp.target->0, name, v, out);
            selector_walk_from_imports(p, imps, name, i + 1, r.0, r.1)
        } else {
            selector_walk_from_imports(p, imps, name, i + 1, v, out)
        }
    }
}

/// The selector walk started afresh from each of `targets`, from the `j`-th on.
pub open spec fn selector_walk_from_targets(
    p: Program,
    targets: Seq<u64>,
    name: u64,
    j: nat,
    out: Seq<ReceiverSelectorSig>,
) -> Seq<ReceiverSelectorSig>
    decreases targets.len() - j,
{
    if j >= targets.len() {
        out
    } else {
        let r = selector_walk(p, targets[j as int], name, Set::<u64>::empty(), out);
        selector_walk_from_targets(p, targets, name, j + 1, r.1)
    }
}

/// The selector declarations a selector path names in module `m`, without
/// repetitions.  A bare name sees the module's own selectors and those
/// exported by the modules it imports plainly (and, through re-exports, by
/// theirs); `alias.name` sees those exported by the modules the alias may
/// name.  Longer or empty paths name nothing.
pub open spec fn visible_candidates(p: Program, m: u64, path: Seq<Ident>) -> Seq<ReceiverSelectorSig> {
    if path.len() == 1 {
        let name = path[0].name;
        dedup_selectors(
            selector_walk_from_imports(
                p,
                imports_of(p, m),
                name,
                0,
                Set::<u64>::empty(),
                selectors_of(p.receiver_selectors@, m, name, false),
            ),
        )
    } else if path.len() == 2 {
        dedup_selectors(selector_walk_from_targets(p, alias_targets(p, m, path[0].name), path[1].name, 0, seq![]))
    } else {
        seq![]
    }
}

fn push_selectors_of(
    sels: &Vec<ReceiverSelectorSig>,
    m: u64,
    name: u64,
    exported_only: bool,
    out: &mut Vec<ReceiverSelectorSig>,
)
    ensures
        final(out)@ == old(out)@ + selectors_of(sels@, m, name, exported_only),
{
    let ghost start = out@;
    let mut i: usize = 0;
    assert(sels@.subrange(0, 0) =~= Seq::<ReceiverSelectorSig>::empty());
    assert(start + Seq::<ReceiverSelectorSig>::empty() =~= start);
    while i < sels.len()
        invariant
            i <= sels.len(),
            out@ == start + selectors_of(sels@.subrange(0, i as int), m, name, exported_only),
        decreases sels.len() - i,
    {
        let x = sels[i];
        let ghost pre = sels@.subrange(0, i + 1);
        assert(pre.drop_last() =~= sels@.subrange(0, i as int));
        assert(pre.last() == x);
        if x.module == m && x.selector == name && (!exported_only || x.exported) {
            out.push(x);
        }
        assert(out@ =~= start + selectors_of(pre, m, name, exported_only));
        i += 1;
    }
    assert(sels@.subrange(0, sels.len() as int) =~= sels@);
}

/// Removes later repetitions of a module id, keeping the first.
pub fn dedup_modules(modules: &mut Vec<u64>)
    ensures
        final(modules)@ == dedup_ids(old(modules)@),
{
    let ghost s = modules@;
    let mut out: Vec<u64> = Vec::new();
    let mut i: usize = 0;
    assert(s.subrange(0, 0) =~= Seq::<u64>::empty());
    while i < modules.len()
        invariant
            s == modules@,
            i <= s.len(),
            out@ == dedup_ids(s.subrange(0, i as int)),
        decreases s.len() - i,
    {
        let x = modules[i];
        let mut seen = false;
        let mut j: usize = 0;
        while j < i
            invariant
                s == modules@,
                i < s.len(),
                j <= i,
                x == s[i as int],
                seen == s.subrange(0, j as int).contains(x),
            decreases i - j,
        {
            proof {
                let a = s.subrange(0, j as int);
                let b = s.subrange(0, j + 1);
                assert(b =~= a.push(s[j as int]));
                if s[j as int] == x {
                    assert(b[j as int] == x);
                } else if a.contains(x) {
                    let k = choose|k: int| 0 <= k < a.len() && a[k] == x;
                    assert(b[k] == x);
                } else {
                    assert forall|k: int| 0 <= k < b.len() implies b[k] != x by {
                        if k < j {
                            assert(b[k] == a[k]);
                        }
                    }
                }
            }
            if modules[j] == x {
                seen = true;
            }
            j += 1;
        }
        let ghost pre = s.subrange(0, i + 1);
        assert(pre.drop_last() =~= s.subrange(0, i as int));
        if !seen {
            out.push(x);
        }
        i += 1;
    }
    assert(s.subrange(0, s.len() as int) =~= s);
    *modules = out;
}

impl TypeChecker {
    /// Collects, on first visit of each module reached from `module` through
    /// re-exporting imports, its exported selectors named `selector_name`
    /// (see `selector_walk`).
    pub fn exported_receiver_selectors_from_module(
        &self,
        module: u64,
        selector_name: u64,
        visited: &mut HashSet<u64>,
        out: &mut Vec<ReceiverSelectorSig>,
    )
        ensures
            (final(visited)@, final(out)@) == selector_walk(
                self.program,
                module,
                selector_name,
                old(visited)@,
                old(out)@,
            ),
    {
        self.selector_walk_bounded(module, selector_name, visited, out, Ghost(unvisited(self.program, visited@)));
    }

    fn selector_walk_bounded(
        &self,
        module: u64,
        selector_name: u64,
        visited: &mut HashSet<u64>,
        out: &mut Vec<ReceiverSelectorSig>,
        Ghost(bound): Ghost<nat>,
    )
        requires
            unvisited(self.program, old(visited)@) <= bound,
        ensures
            (final(visited)@, final(out)@) == selector_walk(
                self.program,
                module,
                selector_name,
                old(visited)@,
                old(out)@,
            ),
        decreases bound,
    {
        let ghost p = self.program;
        let ghost v0 = visited@;
        let ghost o0 = out@;
        if module >= self.program.modules.len() as u64 {
            return ;
        }
        let mi = module as usize;
        if visited.contains(&module) {
            return ;
        }
        proof {
            lemma_mark_visited(p.modules@.len(), v0, module);
        }
        visited.insert(module);
        push_selectors_of(&self.program.receiver_selectors, module, selector_name, true, out);
        let ghost v1 = visited@;
        let ghost o1 = out@;
        let imports = &self.program.modules[mi].imports;
        let mut i: usize = 0;
        while i < imports.len()
            invariant
                i <= imports.len(),
                imports@ == imports_of(p, module),
                p == self.program,
                unvisited(p, visited@) <= unvisited(p, v1),
                unvisited(p, v1) + 1 == unvisited(p, v0),
                unvisited(p, v0) <= bound,
                selector_walk_imports(p, module, selector_name, i as nat, visited@, out@)
                    == selector_walk_imports(p, module, selector_name, 0, v1, o1),
            decreases imports.len() - i,
        {
            let imp = imports[i];
            if imp.exported && imp.alias.is_none() {
                match imp.target {
                    Some(t) => {
                        let ghost vb = visited@;
                        let ghost ob = out@;
                        proof {
                            lemma_selector_walk(p, t, selector_name, vb, ob);
                        }
                        self.selector_walk_bounded(
                            t,
                            selector_name,
                            visited,
                            out,
                            Ghost((unvisited(p, v0) - 1) as nat),
                        );
                    },
                    None => {},
                }
            }
            i += 1;
        }
    }

    /// Collects, walking from `module` through re-exporting imports, the
    /// targets of the exported imports aliased `alias` (see `alias_walk`).
    pub fn exported_receiver_selector_alias_targets(
        &self,
        module: u64,
        alias: u64,
        visited: &mut HashSet<u64>,
        out: &mut Vec<u64>,
    )
        ensures
            (final(visited)@, final(out)@) == alias_walk(self.program, module, alias, old(visited)@, old(out)@),
    {
        self.alias_walk_bounded(module, alias, visited, out, Ghost(unvisited(self.program, visited@)));
    }

    fn alias_walk_bounded(
        &self,
        module: u64,
        alias: u64,
        visited: &mut HashSet<u64>,
        out: &mut Vec<u64>,
        Ghost(bound): Ghost<nat>,
    )
        requires
            unvisited(self.program, old(visited)@) <= bound,
        ensures
            (final(visited)@, final(out)@) == alias_walk(self.program, module, alias, old(visited)@, old(out)@),
        decreases bound,
    {
        let ghost p = self.program;
        let ghost v0 = visited@;
        if module >= self.program.modules.len() as u64 {
            return ;
        }
        let mi = module as usize;
        if visited.contains(&module) {
            return ;
        }
        proof {
            lemma_mark_visited(p.modules@.len(), v0, module);
        }
        visited.insert(module);
        let ghost v1 = visited@;
        let ghost o1 = out@;
        let imports = &self.program.modules[mi].imports;
        let mut i: usize = 0;
        while i < imports.len()
            invariant
                i <= imports.len(),
                imports@ == imports_of(p, module),
                p == self.program,
                unvisited(p, visited@) <= unvisited(p, v1),
                unvisited(p, v1) + 1 == unvisited(p, v0),
                unvisited(p, v0) <= bound,
                alias_walk_imports(p, module, alias, i as nat, visited@, out@) == alias_walk_imports(
                    p,
                    module,
                    alias,
                    0,
                    v1,
                    o1,
                ),
            decreases imports.len() - i,
        {
            let imp = imports[i];
            if imp.exported {
                if imp.alias == Some(alias) {
                    match imp.target {
                        Some(t) => out.push(t),
                        None => {},
                    }
                } else if imp.alias.is_none() {
                    match imp.target {
                        Some(t) => {
                            let ghost vb = visited@;
                            let ghost ob = out@;
                            proof {
                                lemma_alias_walk(p, t, alias, vb, ob);
                            }
                            self.alias_walk_bounded(
                                t,
                                alias,
                                visited,
                                out,
                                Ghost((unvisited(p, v0) - 1) as nat),
                            );
                        },
                        None => {},
                    }
                }
            }
            i += 1;
        }
    }

    /// The modules the alias `alias` may name in `module` (see `alias_targets`).
    pub fn receiver_selector_alias_targets(&self, module: u64, alias: u64) -> (r: Vec<u64>)
        requires
            module < self.program.modules@.len(),
        ensures
            r@ == alias_targets(self.program, module, alias),
    {
        let ghost p = self.program;
        assert(module < self.program.modules.len());
        let imports = &self.program.modules[module as usize].imports;
        let mut targets: Vec<u64> = Vec::new();
        let mut i: usize = 0;
        assert(imports@.subrange(0, 0) =~= Seq::<ImportInfo>::empty());
        while i < imports.len()
            invariant
                i <= imports.len(),
                imports@ == imports_of(p, module),
                targets@ == direct_alias_targets(imports@.subrange(0, i as int), alias),
            decreases imports.len() - i,
        {
            let imp = imports[i];
            let ghost pre = imports@.subrange(0, i + 1);
            assert(pre.drop_last() =~= imports@.subrange(0, i as int));
            if imp.alias == Some(alias) {
                match imp.target {
                    Some(t) => targets.push(t),
                    None => {},
                }
            }
            assert(targets@ =~= direct_alias_targets(pre, alias));
            i += 1;
        }
        assert(imports@.subrange(0, imports.len() as int) =~= imports@);
        let mut visited: HashSet<u64> = HashSet::new();
        let ghost v1 = visited@;
        let ghost o1 = targets@;
        let mut i: usize = 0;
        while i < imports.len()
            invariant
                i <= imports.len(),
                imports@ == imports_of(p, module),
                p == self.program,
                alias_walk_from_imports(p, imports@, alias, i as nat, visited@, targets@)
                    == alias_walk_from_imports(p, imports@, alias, 0, v1, o1),
            decreases imports.len() - i,
        {
            let imp = imports[i];
            if imp.alias.is_none() {
                match imp.target {
                    Some(t) => {
                        proof {
                            lemma_alias_walk(p, t, alias, visited@, targets@);
                        }
                        self.exported_receiver_selector_alias_targets(t, alias, &mut visited, &mut targets);
                    },
                    None => {},
                }
            }
            i += 1;
        }
        dedup_modules(&mut targets);
        targets
    }

    /// The selector declarations visible for a selector path in `module`
    /// (see `visible_candidates`).
    pub fn visible_receiver_selector_candidates(&self, module: u64, selector_path: &Vec<Ident>) -> (r: Vec<
        ReceiverSelectorSig,
    >)
        requires
            selector_path@.len() == 1 || selector_path@.len() == 2 ==> module
                < self.program.modules@.len(),
        ensures
            r@ == visible_candidates(self.program, module, selector_path@),
    {
        let ghost p = self.program;
        let mut out: Vec<ReceiverSelectorSig> = Vec::new();
        if selector_path.len() == 1 {
            let name = selector_path[0].name;
            push_selectors_of(&self.program.receiver_selectors, module, name, false, &mut out);
            assert(out@ =~= selectors_of(p.receiver_selectors@, module, name, false));
            assert(module < self.program.modules.len());
            let imports = &self.program.modules[module as usize].imports;
            let mut visited: HashSet<u64> = HashSet::new();
            let ghost v1 = visited@;
            let ghost o1 = out@;
            let mut i: usize = 0;
            while i < imports.len()
                invariant
                    i <= imports.len(),
                    imports@ == imports_of(p, module),
                    p == self.program,
                        selector_walk_from_imports(p, imports@, name, i as nat, visited@, out@)
                        == selector_walk_from_imports(p, imports@, name, 0, v1, o1),
                decreases imports.len() - i,
            {
                let imp = imports[i];
                if imp.alias.is_none() {
                    match imp.target {
                        Some(t) => {
                            proof {
                                lemma_selector_walk(p, t, name, visited@, out@);
                            }
                            self.exported_receiver_selectors_from_module(t, name, &mut visited, &mut out);
                        },
                        None => {},
                    }
                }
                i += 1;
            }
        } else if selector_path.len() == 2 {
            let name = selector_path[1].name;
            let targets = self.receiver_selector_alias_targets(module, selector_path[0].name);
            let mut j: usize = 0;
            assert(out@ =~= Seq::<ReceiverSelectorSig>::empty());
            while j < targets.len()
                invariant
                    j <= targets.len(),
                    p == self.program,
                    selector_walk_from_targets(p, targets@, name, j as nat, out@)
                        == selector_walk_from_targets(p, targets@, name, 0, seq![]),
                decreases targets.len() - j,
            {
                let mut visited: HashSet<u64> = HashSet::new();
                self.exported_receiver_selectors_from_module(targets[j], name, &mut visited, &mut out);
                j += 1;
            }
        }
        dedup_receiver_selectors(&mut out);
        out
    }
}

/// Every selector of `s` is named `name`.
pub open spec fn all_named(s: Seq<ReceiverSelectorSig>, name: u64) -> bool {
    forall|k: int| 0 <= k < s.len() ==> (#[trigger] s[k]).selector == name
}

pub proof fn lemma_selectors_of_named(s: Seq<ReceiverSelectorSig>, m: u64, name: u64, exported_only: bool)
    ensures
        all_named(selectors_of(s, m, name, exported_only), name),
    decreases s.len(),
{
    if s.len() > 0 {
        lemma_selectors_of_named(s.drop_last(), m, name, exported_only);
    }
}

pub proof fn lemma_all_named_concat(a: Seq<ReceiverSelectorSig>, b: Seq<ReceiverSelectorSig>, name: u64)
    requires
        all_named(a, name),
        all_named(b, name),
    ensures
        all_named(a + b, name),
{
    assert forall|k: int| 0 <= k < (a + b).len() implies (#[trigger] (a + b)[k]).selector == name by {
        if k < a.len() {
            assert((a + b)[k] == a[k]);
        } else {
            assert((a + b)[k] == b[k - a.len()]);
        }
    }
}

pub proof fn lemma_selector_walk_named(p: Program, m: u64, name: u64, v: Set<u64>, out: Seq<ReceiverSelectorSig>)
    requires
        all_named(out, name),
    ensures
        all_named(selector_walk(p, m, name, v, out).1, name),
    decreases unvisited(p, v), 0nat, 0nat,
{
    if m >= p.modules@.len() || v.contains(m) {
    } else {
        lemma_mark_visited(p.modules@.len(), v, m);
        lemma_selectors_of_named(p.receiver_selectors@, m, name, true);
        lemma_all_named_concat(out, selectors_of(p.receiver_selectors@, m, name, true), name);
        lemma_selector_walk_imports_named(
            p,
            m,
            name,
            0,
            v.insert(m),
            out + selectors_of(p.receiver_selectors@, m, name, true),
        );
    }
}

pub proof fn lemma_selector_walk_imports_named(
    p: Program,
    m: u64,
    name: u64,
    i: nat,
    v: Set<u64>,
    out: Seq<ReceiverSelectorSig>,
)
    requires
        all_named(out, name),
    ensures
        all_named(selector_walk_imports(p, m, name, i, v, out).1, name),
    decreases unvisited(p, v), 1nat, imports_of(p, m).len() - i,
{
    if i >= imports_of(p, m).len() {
    } else {
        let imp = imports_of(p, m)[i as int];
        if imp.exported && imp.alias is None && imp.target is Some {
            let r = selector_walk(p, imp.target->0, name, v, out);
            lemma_selector_walk_named(p, imp.target->0, name, v, out);
            lemma_selector_walk(p, imp.target->0, name, v, out);
            lemma_selector_walk_imports_named(p, m, name, i + 1, r.0, r.1);
        } else {
            lemma_selector_walk_imports_named(p, m, name, i + 1, v, out);
        }
    }
}

pub proof fn lemma_walk_from_imports_named(
    p: Program,
    imps: Seq<ImportInfo>,
    name: u64,
    i: nat,
    v: Set<u64>,
    out: Seq<ReceiverSelectorSig>,
)
    requires
        all_named(out, name),
    ensures
        all_named(selector_walk_from_imports(p, imps, name, i, v, out), name),
    decreases imps.len() - i,
{
    if i < imps.len() {
        let imp = imps[i as int];
        if imp.alias is None && imp.target is Some {
            let r = selector_walk(p, imp.target->0, name, v, out);
            lemma_selector_walk_named(p, imp.target->0, name, v, out);
            lemma_walk_from_imports_named(p, imps, name, i + 1, r.0, r.1);
        } else {
            lemma_walk_from_imports_named(p, imps, name, i + 1, v, out);
        }
    }
}

pub proof fn lemma_walk_from_targets_named(
    p: Program,
    targets: Seq<u64>,
    name: u64,
    j: nat,
    out: Seq<ReceiverSelectorSig>,
)
    requires
        all_named(out, name),
    ensures
        all_named(selector_walk_from_targets(p, targets, name, j, out), name),
    decreases targets.len() - j,
{
    if j < targets.len() {
        let r = selector_walk(p, targets[j as int], name, Set::<u64>::empty(), out);
        lemma_selector_walk_named(p, targets[j as int], name, Set::<u64>::empty(), out);
        lemma_walk_from_targets_named(p, targets, name, j + 1, r.1);
    }
}

/// Every selector kept by removing repetitions was in the input.
pub proof fn lemma_dedup_selectors_subset(s: Seq<ReceiverSelectorSig>)
    ensures
        forall|k: int|
            0 <= k < dedup_selectors(s).len() ==> s.contains(#[trigger] dedup_selectors(s)[k]),
    decreases s.len(),
{
    if s.len() > 0 {
        let init = s.drop_last();
        lemma_dedup_selectors_subset(init);
        let d = dedup_selectors(s);
        assert forall|k: int| 0 <= k < d.len() implies s.contains(#[trigger] d[k]) by {
            if k < dedup_selectors(init).len() {
                assert(d[k] == dedup_selectors(init)[k]);
                assert(init.contains(d[k]));
                let j = choose|j: int| 0 <= j < init.len() && init[j] == d[k];
                assert(s[j] == init[j]);
            } else {
                assert(d[k] == s.last());
                assert(s[s.len() - 1] == s.last());
            }
        }
    }
}

/// Removing repetitions from selectors all named `name` leaves selectors
/// all named `name`.
pub proof fn lemma_dedup_selectors_named(s: Seq<ReceiverSelectorSig>, name: u64)
    requires
        all_named(s, name),
    ensures
        all_named(dedup_selectors(s), name),
{
    lemma_dedup_selectors_subset(s);
    let d = dedup_selectors(s);
    assert forall|k: int| 0 <= k < d.len() implies (#[trigger] d[k]).selector == name by {
        assert(s.contains(d[k]));
        let j = choose|j: int| 0 <= j < s.len() && s[j] == d[k];
        assert(s[j].selector == name);
    }
}

/// Removing repetitions keeps exactly the ids that occur, each once.
pub proof fn lemma_dedup_ids(s: Seq<u64>)
    ensures
        forall|x: u64| dedup_ids(s).contains(x) <==> s.contains(x),
        forall|i: int, j: int|
            0 <= i < j < dedup_ids(s).len() ==> dedup_ids(s)[i] != dedup_ids(s)[j],
    decreases s.len(),
{
    if s.len() > 0 {
        let init = s.drop_last();
        lemma_dedup_ids(init);
        assert forall|x: u64| s.contains(x) <==> (init.contains(x) || x == s.last()) by {
            if s.contains(x) {
                let k = choose|k: int| 0 <= k < s.len() && s[k] == x;
                if k < init.len() {
                    assert(init[k] == x);
                }
            }
            if init.contains(x) {
                let k = choose|k: int| 0 <= k < init.len() && init[k] == x;
                assert(s[k] == x);
            }
            if x == s.last() {
                assert(s[s.len() - 1] == x);
            }
        }
        let d0 = dedup_ids(init);
        if !init.contains(s.last()) {
            let d = d0.push(s.last());
            assert forall|x: u64| d.contains(x) <==> (d0.contains(x) || x == s.last()) by {
                if d.contains(x) {
                    let k = choose|k: int| 0 <= k < d.len() && d[k] == x;
                    if k < d0.len() {
                        assert(d0[k] == x);
                    }
                }
                if d0.contains(x) {
                    let k = choose|k: int| 0 <= k < d0.len() && d0[k] == x;
                    assert(d[k] == x);
                }
                if x == s.last() {
                    assert(d[d.len() - 1] == x);
                }
            }
            assert forall|i: int, j: int| 0 <= i < j < d.len() implies d[i] != d[j] by {
                if j == d.len() - 1 {
                    assert(d[i] == d0[i]);
                    assert(d0.contains(d0[i]));
                } else {
                    assert(d[i] == d0[i] && d[j] == d0[j]);
                }
            }
        }
    }
}

} // verus!
