//! Lookups in the program database.
use vstd::prelude::*;
use crate::checker::{Program, StructInstance, StructTemplate, TypeChecker};
use crate::ty::{tys_match, TyList};

verus! {

pub open spec fn is_struct_instance(s: StructInstance, name: u64, args: TyList) -> bool {
    s.name == name && s.args == args
}

/// The position of the first checked instance of struct `name<args>`.
pub open spec fn struct_instance_index(p: Program, name: u64, args: TyList) -> Option<int> {
    if exists|i: int|
        0 <= i < p.structs@.len() && is_struct_instance(#[trigger] p.structs@[i], name, args) {
        Some(
            choose|i: int|
                0 <= i < p.structs@.len() && is_struct_instance(#[trigger] p.structs@[i], name, args)
                    && forall|j: int|
                    0 <= j < i ==> !is_struct_instance(#[trigger] p.structs@[j], name, args),
        )
    } else {
        None
    }
}

pub open spec fn has_enum_instance(p: Program, name: u64, args: TyList) -> bool {
    exists|i: int|
        0 <= i < p.enums@.len() && (#[trigger] p.enums@[i]).name == name && p.enums@[i].args
            == args
}

pub open spec fn template_index(p: Program, name: u64) -> Option<int> {
    if exists|i: int| 0 <= i < p.struct_templates@.len() && (#[trigger] p.struct_templates@[i]).name == name {
        Some(
            choose|i: int|
                0 <= i < p.struct_templates@.len() && (#[trigger] p.struct_templates@[i]).name
                    == name && forall|j: int|
                    0 <= j < i ==> (#[trigger] p.struct_templates@[j]).name != name,
        )
    } else {
        None
    }
}

pub open spec fn template_of(p: Program, name: u64) -> Option<StructTemplate> {
    match template_index(p, name) {
        Some(i) => Some(p.struct_templates@[i]),
        None => None,
    }
}

pub open spec fn is_opaque_struct(p: Program, name: u64) -> bool {
    p.opaque_structs@.contains(name)
}

impl TypeChecker {
    /// The position of the first checked instance of struct `name<args>`.
    pub fn find_struct_instance(&self, name: u64, args: &TyList) -> (r: Option<usize>)
        ensures
            r matches Some(i) ==> struct_instance_index(self.program, name, *args) == Some(i as int)
                && i < self.program.structs@.len(),
            r is None ==> struct_instance_index(self.program, name, *args) is None,
    {
        let mut i: usize = 0;
        while i < self.program.structs.len()
            invariant
                i <= self.program.structs@.len(),
                forall|j: int|
                    0 <= j < i ==> !is_struct_instance(
                        #[trigger] self.program.structs@[j],
                        name,
                        *args,
                    ),
            decreases self.program.structs@.len() - i,
        {
            let s = &self.program.structs[i];
            if s.name == name && tys_match(&s.args, args) {
                proof {
                    let k = struct_instance_index(self.program, name, *args)->0;
                    assert(is_struct_instance(self.program.structs@[i as int], name, *args));
                    if k < i {
                        assert(!is_struct_instance(self.program.structs@[k], name, *args));
                    }
                    if k > i {
                        assert(!is_struct_instance(self.program.structs@[i as int], name, *args));
                    }
                }
                return Some(i);
            }
            i += 1;
        }
        None
    }

    /// Whether an enum instance `name<args>` has been checked.
    pub fn find_enum_instance(&self, name: u64, args: &TyList) -> (r: Option<usize>)
        ensures
            r matches Some(i) ==> i < self.program.enums@.len() && self.program.enums@[i as int].name
                == name && self.program.enums@[i as int].args == *args,
            r is None ==> !has_enum_instance(self.program, name, *args),
    {
        let mut i: usize = 0;
        while i < self.program.enums.len()
            invariant
                i <= self.program.enums@.len(),
                forall|j: int|
                    0 <= j < i ==> !((#[trigger] self.program.enums@[j]).name == name
                        && self.program.enums@[j].args == *args),
            decreases self.program.enums@.len() - i,
        {
            let e = &self.program.enums[i];
            if e.name == name && tys_match(&e.args, args) {
                return Some(i);
            }
            i += 1;
        }
        None
    }

    /// The position of the first generic declaration of struct `name`.
    pub fn find_struct_template(&self, name: u64) -> (r: Option<usize>)
        ensures
            r matches Some(i) ==> template_index(self.program, name) == Some(i as int)
                && i < self.program.struct_templates@.len(),
            r is None ==> template_index(self.program, name) is None,
    {
        let mut i: usize = 0;
        while i < self.program.struct_templates.len()
            invariant
                i <= self.program.struct_templates@.len(),
                forall|j: int|
                    0 <= j < i ==> (#[trigger] self.program.struct_templates@[j]).name != name,
            decreases self.program.struct_templates@.len() - i,
        {
            if self.program.struct_templates[i].name == name {
                proof {
                    let k = template_index(self.program, name)->0;
                    if k < i {
                        assert(self.program.struct_templates@[k].name != name);
                    }
                    if k > i {
                        assert(self.program.struct_templates@[i as int].name != name);
                    }
                }
                return Some(i);
            }
            i += 1;
        }
        None
    }

    pub fn is_opaque_struct_name(&self, name: u64) -> (r: bool)
        ensures
            r == is_opaque_struct(self.program, name),
    {
        let mut i: usize = 0;
        while i < self.program.opaque_structs.len()
            invariant
                i <= self.program.opaque_structs@.len(),
                forall|j: int| 0 <= j < i ==> self.program.opaque_structs@[j] != name,
            decreases self.program.opaque_structs@.len() - i,
        {
            if self.program.opaque_structs[i] == name {
                return true;
            }
            i += 1;
        }
        false
    }
}

} // verus!
