//! The program database the checker consults and the checker's own state.
use vstd::prelude::*;
use crate::diag::{DiagKind, Diagnostic, Span, Text};
use crate::ty::{Bounds, Ty, TyList};

verus! {

/// A field of a struct: its name and type.
#[derive(Debug, PartialEq)]
pub struct FieldInfo {
    pub name: u64,
    pub ty: Ty,
}

/// A checked struct instance (a struct name applied to concrete arguments).
#[derive(Debug, PartialEq)]
pub struct StructInstance {
    pub name: u64,
    pub args: TyList,
    pub fields: Vec<FieldInfo>,
    pub is_resource: bool,
    pub is_unsafe: bool,
}

/// A generic parameter with what it requires of its argument.
#[derive(Debug, PartialEq)]
pub struct GenericInfo {
    pub name: u64,
    pub is_resource: bool,
    pub bounds: Option<Bounds>,
}

/// The names of generic parameters, in order.
pub open spec fn generic_names(g: Seq<GenericInfo>) -> Seq<u64> {
    g.map_values(|x: GenericInfo| x.name)
}

/// A generic struct declaration whose field types mention its generics.
#[derive(Debug, PartialEq)]
pub struct StructTemplate {
    pub name: u64,
    pub generics: Vec<GenericInfo>,
    pub fields: Vec<FieldInfo>,
    pub is_resource: bool,
    pub is_unsafe: bool,
}

/// One variant of a checked enum instance.
#[derive(Debug, PartialEq)]
pub struct VariantInfo {
    pub name: u64,
    pub payload: TyList,
}

/// A checked enum instance.
#[derive(Debug, PartialEq)]
pub struct EnumInstance {
    pub name: u64,
    pub args: TyList,
    pub variants: Vec<VariantInfo>,
}

/// A generic enum declaration whose variant payloads mention its generics.
#[derive(Debug, PartialEq)]
pub struct EnumTemplate {
    pub name: u64,
    pub generics: Vec<u64>,
    pub variants: Vec<VariantInfo>,
}

/// An implementation of an interface.  `args` are the interface's full
/// arguments, receiver first.  A generic implementation names its generic
/// parameters, with what they require, in `generics`; those may occur in
/// `args`.
#[derive(Debug, PartialEq)]
pub struct ImplSig {
    /// the module that declares the impl
    pub module: u64,
    pub interface: u64,
    pub args: TyList,
    pub generics: Vec<GenericInfo>,
}

/// A function signature, with what its declaration says of its linkage.
#[derive(Debug, PartialEq)]
pub struct FunctionSig {
    pub def_id: u64,
    /// the function's (link) name
    pub name: u64,
    pub params: TyList,
    pub ret: Ty,
    pub generics: Vec<u64>,
    /// declared with the C ABI (`extern "C"`)
    pub c_abi: bool,
    pub has_body: bool,
    pub is_unsafe: bool,
    pub is_async: bool,
    pub exported: bool,
    /// where the function is declared
    pub span: Span,
}

/// An interface declaration: its generics (receiver first) and the types of
/// its method's parameters, which mention the generics.
#[derive(Debug, PartialEq)]
pub struct InterfaceSig {
    pub def_id: u64,
    pub generics: Vec<u64>,
    pub params: TyList,
}

/// What a receiver selector resolves to.
#[derive(Debug, Clone, Copy, PartialEq, Eq, Structural)]
pub enum SelectorCallable {
    Function(u64),
    Interface(u64),
}

/// A receiver selector declaration (`value.name(...)` sugar).
#[derive(Debug, Clone, Copy, PartialEq, Eq, Structural)]
pub struct ReceiverSelectorSig {
    pub selector: u64,
    pub module: u64,
    pub callable: SelectorCallable,
    pub receiver_index: u64,
    /// visible to the modules that import the declaring module
    pub exported: bool,
    pub span: Span,
}

/// An import of a module: `import target` (possibly `as alias`), possibly
/// re-exported.  A target that did not resolve is `None`.
#[derive(Debug, Clone, Copy, PartialEq, Eq, Structural)]
pub struct ImportInfo {
    pub alias: Option<u64>,
    pub target: Option<u64>,
    pub exported: bool,
}

/// The structural (sum-of-products) representation a meta representation
/// or schema marker type stands for, as the meta lowering computed it.
#[derive(Debug, PartialEq)]
pub struct MetaSop {
    pub marker: Ty,
    pub sop: Ty,
}

/// The source name of an interned id (a type, field, interface, binding,
/// symbol, ...).
#[derive(Debug, PartialEq)]
pub struct NameEntry {
    pub id: u64,
    pub text: Text,
}

/// A module of the program; modules are numbered by their position.
#[derive(Debug, PartialEq)]
pub struct ModuleInfo {
    /// the module's path as written (`a::b`)
    pub path: Text,
    pub imports: Vec<ImportInfo>,
}

/// The standard-library definitions the checker recognizes.  Each is the
/// definition id of the item when the program declares it.
#[derive(Debug, PartialEq)]
pub struct StdDefs {
    pub message_clone: Option<u64>,
    pub message_capability: Option<u64>,
    pub share_handle: Option<u64>,
    pub thread_local: Option<u64>,
    pub async_frame_opt_in: Option<u64>,
    pub awaitable_future: Option<u64>,
    pub cancel_safe_future: Option<u64>,
    pub abort_future: Option<u64>,
    pub spawnable_future: Option<u64>,
    pub error_trait: Option<u64>,
    pub error_witness: Option<u64>,
    pub fn_value_marker: Option<u64>,
    pub closure_value_marker: Option<u64>,
    /// the name of the standard task struct `Task<Out, Err>`
    pub task_struct: Option<u64>,
    /// the name of the standard future struct `Future<Out>`
    pub future_struct: Option<u64>,
    /// the name of the standard result enum `Result<Ok, Err>`
    pub result_enum: Option<u64>,
    /// the name of the standard dynamic error value `Error`
    pub dyn_error_struct: Option<u64>,
    /// the name of the standard actor struct `Actor<Message>`
    pub actor_struct: Option<u64>,
    /// the names of the standard error structs: the report, the async
    /// runtime error and the resource error
    pub report_struct: Option<u64>,
    pub async_error_struct: Option<u64>,
    pub resource_error_struct: Option<u64>,
    /// the variant names an error enum may use to carry runtime failures
    pub runtime_variant: u64,
    pub async_variant: u64,
    pub task_group_async_variant: u64,
    pub resource_variant: u64,
    pub message_clone_variant: u64,
    /// the name of the standard marker type that stands for future state
    /// whose type is not known
    pub future_state_marker: Option<u64>,
    /// the name of the standard meta representation marker `Repr<T>`
    pub meta_repr_marker: Option<u64>,
    /// the names of the standard resource-handle structs
    pub resource_handles: Vec<u64>,
    /// the field names `ptr` and `len` of slices
    pub ptr_field: u64,
    pub len_field: u64,
}

/// How an `async` function's future may be cancelled.
#[derive(Debug, PartialEq)]
pub struct AsyncFunctionInfo {
    pub def_id: u64,
    pub cancel_safe: bool,
    pub abortable: bool,
}

/// The declarations of the program being checked.
#[derive(Debug, PartialEq)]
pub struct Program {
    pub structs: Vec<StructInstance>,
    pub struct_templates: Vec<StructTemplate>,
    pub enums: Vec<EnumInstance>,
    pub enum_templates: Vec<EnumTemplate>,
    pub opaque_structs: Vec<u64>,
    pub impls: Vec<ImplSig>,
    pub functions: Vec<FunctionSig>,
    pub interfaces: Vec<InterfaceSig>,
    pub receiver_selectors: Vec<ReceiverSelectorSig>,
    pub modules: Vec<ModuleInfo>,
    pub meta_sops: Vec<MetaSop>,
    pub names: Vec<NameEntry>,
    pub async_functions: Vec<AsyncFunctionInfo>,
    pub std: StdDefs,
}

/// A solved inference hole.
#[derive(Debug, PartialEq)]
pub struct HoleBinding {
    pub id: u64,
    pub ty: Ty,
}

/// The concrete type an opaque return type stands for.
#[derive(Debug, PartialEq)]
pub struct OpaqueBinding {
    pub def_id: u64,
    pub key_args: TyList,
    pub concrete: Ty,
}

/// The opaque return of the function being checked.
#[derive(Debug, PartialEq)]
pub struct OpaqueReturnState {
    pub opaque_ty: Ty,
    pub concrete_ty: Option<Ty>,
    pub saw_recursive_concrete_ty: bool,
}

/// A remembered answer of capability resolution.
#[derive(Debug, PartialEq)]
pub struct CapabilityCacheEntry {
    pub interface: u64,
    pub args: TyList,
    pub receiver: Ty,
    pub implements: bool,
}

/// The mutable state of a checking run, apart from the diagnostics.
#[derive(Debug, PartialEq)]
pub struct CheckerState {
    pub unsafe_depth: u64,
    pub async_depth: u64,
    pub resource_generic_stack: Vec<Vec<u64>>,
    pub hole_solutions: Vec<HoleBinding>,
    pub next_type_hole_id: u64,
    pub opaque_returns: Vec<OpaqueBinding>,
    pub current_opaque_return: Option<OpaqueReturnState>,
    pub symbolic_depth: u64,
    /// how many loops enclose the code being checked
    pub loop_depth: u64,
}

#[derive(Debug, PartialEq)]
pub struct TypeChecker {
    pub program: Program,
    pub state: CheckerState,
    pub diagnostics: Vec<Diagnostic>,
    /// remembered answers of capability resolution, valid for `capability_epoch`
    pub capability_cache: Vec<CapabilityCacheEntry>,
    pub capability_epoch: u64,
}

pub open spec fn diag(span: Span, kind: DiagKind) -> Diagnostic {
    Diagnostic { span, kind }
}

impl TypeChecker {
    /// The checker changed nothing but possibly its diagnostics.
    pub open spec fn same_context(self, other: TypeChecker) -> bool {
        &&& self.program == other.program
        &&& self.state == other.state
        &&& self.capability_cache == other.capability_cache
        &&& self.capability_epoch == other.capability_epoch
    }

    /// The program and the checking state are unchanged (remembered
    /// capability answers may have changed).
    pub open spec fn same_program_and_state(self, other: TypeChecker) -> bool {
        self.program == other.program && self.state == other.state
    }

    /// Reports one diagnostic.
    pub fn report(&mut self, span: Span, kind: DiagKind)
        ensures
            final(self).diagnostics@ == old(self).diagnostics@.push(diag(span, kind)),
            final(self).same_context(*old(self)),
    {
        self.diagnostics.push(Diagnostic { span, kind });
    }
}

} // verus!
