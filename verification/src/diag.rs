//! Diagnostics reported by the type checker.
use vstd::prelude::*;
use crate::ty::{Ty, TyList};

verus! {

/// A source range, as byte offsets.
#[derive(Debug, Clone, Copy, PartialEq, Eq, Structural)]
pub struct Span {
    pub start: u32,
    pub end: u32,
}

/// The smallest range that covers both spans.
pub open spec fn span_merge(a: Span, b: Span) -> Span {
    Span {
        start: if a.start <= b.start { a.start } else { b.start },
        end: if a.end >= b.end { a.end } else { b.end },
    }
}

impl Span {
    /// The smallest range that covers both spans.
    pub fn merge(self, other: Span) -> (r: Span)
        ensures
            r == span_merge(self, other),
    {
        Span {
            start: if self.start <= other.start { self.start } else { other.start },
            end: if self.end >= other.end { self.end } else { other.end },
        }
    }
}

/// Identifiers carried by a diagnostic, in order.
#[derive(Debug, PartialEq)]
pub enum IdList {
    Nil,
    Cons(u64, Box<IdList>),
}

/// The identifiers of `s`, in order.
pub open spec fn id_list(s: Seq<u64>) -> IdList
    decreases s.len(),
{
    if s.len() == 0 {
        IdList::Nil
    } else {
        IdList::Cons(s[0], Box::new(id_list(s.drop_first())))
    }
}

/// Source text carried by a diagnostic (a literal as written, a name), one
/// character at a time.
#[derive(Debug, PartialEq)]
pub enum Text {
    End,
    Char(char, Box<Text>),
}

/// The characters of a text.
pub open spec fn text_seq(t: Text) -> Seq<char>
    decreases t,
{
    match t {
        Text::End => Seq::empty(),
        Text::Char(c, rest) => seq![c] + text_seq(*rest),
    }
}

/// The text with the given characters.
pub open spec fn text_of(s: Seq<char>) -> Text
    decreases s.len(),
{
    if s.len() == 0 {
        Text::End
    } else {
        Text::Char(s[0], Box::new(text_of(s.drop_first())))
    }
}

/// The text of a string.
pub fn text_from_str(raw: &str) -> (r: Text)
    ensures
        r == text_of(raw@),
{
    let n = raw.unicode_len();
    let mut t = Text::End;
    let mut i: usize = n;
    assert(raw@.subrange(n as int, n as int) =~= Seq::<char>::empty());
    while i > 0
        invariant
            i <= n,
            n == raw@.len(),
            t == text_of(raw@.subrange(i as int, n as int)),
        decreases i,
    {
        let c = raw.get_char(i - 1);
        assert(raw@.subrange(i - 1, n as int).drop_first() =~= raw@.subrange(i as int, n as int));
        t = Text::Char(c, Box::new(t));
        i = i - 1;
    }
    assert(raw@.subrange(0, n as int) =~= raw@);
    t
}

/// The text `-` followed by the given string.
pub fn negated_text(raw: &str) -> (r: Text)
    ensures
        r == text_of(seq!['-'] + raw@),
{
    let t = text_from_str(raw);
    assert((seq!['-'] + raw@).drop_first() =~= raw@);
    Text::Char('-', Box::new(t))
}

/// The operator named in a "requires matching integer types" diagnostic.
#[derive(Debug, Clone, Copy, PartialEq, Eq, Structural)]
pub enum OperatorContext {
    Bitwise,
}

/// Why an operation needs an `unsafe` block.
#[derive(Debug, Clone, Copy, PartialEq, Eq, Structural)]
pub enum UnsafeReason {
    NullableToNonNullCast,
    CastFromVoidPointer,
    UnsafeStructFieldAccess(u64),
    UnsafeStructLiteral(u64),
    MetaReflectionOfUnsafeStruct(u64),
    MetaReconstructionOfUnsafeStruct(u64),
    RawStorageFromPointer,
}

/// Which callable of an actor a diagnostic is about.
#[derive(Debug, Clone, Copy, PartialEq, Eq, Structural)]
pub enum ActorCallableRole {
    StateInitializer,
    StateHandler,
    Handler,
}

/// What a diagnostic says.  Each variant corresponds to one message of the
/// checker; the types it names are carried along.
#[derive(Debug, PartialEq)]
pub enum DiagKind {
    /// `integer literal is out of range` (the literal is not a number)
    IntegerLiteralInvalid,
    /// `integer literal ... is out of range for ...`
    IntegerLiteralOutOfRange { literal: Text, ty: Ty },
    /// `float literal is invalid`
    FloatLiteralInvalid,
    /// `float literal ... is out of range for f32`
    FloatLiteralOutOfRange { literal: Text },
    /// `char literal ... is not a single byte`
    CharLiteralNotSingleByte { literal: Text },
    /// `constant shift count ... is out of range for ...; expected 0..max`;
    /// `count` is the count as written (with `-` for a negated literal)
    ShiftCountOutOfRange { ty: Ty, count: Text, max: u64 },
    /// `... requires matching integer types, got ... and ...`
    MismatchedIntegerTypes { operator: OperatorContext, left: Ty, right: Ty },
    /// an operation that is only allowed inside `unsafe`
    RequiresUnsafe(UnsafeReason),
    /// `cannot cast between ... and ...` (bool casts)
    CannotCastBool { source: Ty, target: Ty },
    /// `cannot cast ... to ...`
    CannotCast { source: Ty, target: Ty },
    /// `pointer casts must go through *void or ?*void`
    PointerCastNotThroughVoid,
    /// `... cannot have type never`
    NeverTypedValue { value_context: u64 },
    /// `... cannot use opaque struct ... by value`
    OpaqueByValue { value_context: u64, ty: Ty },
    /// `... cannot contain never by value`
    ContainsNeverValue { value_context: u64 },
    /// `function cannot return opaque struct ... by value`
    ReturnsOpaqueByValue { ty: Ty },
    /// `function return type cannot contain never by value`
    ReturnContainsNever,
    /// `resource struct ... must contain an owning resource field`
    ResourceStructWithoutResource { ty: Ty },
    /// `non-resource struct ... cannot store a resource field`
    NonResourceStoresResource { ty: Ty },
    /// `expected ..., got ...`, optionally prefixed by the argument's name
    TypeMismatch { expected: Ty, actual: Ty, argument: Option<u64> },
    /// two distinct opaque return identities
    OpaqueReturnMismatch { expected: Ty, actual: Ty, argument: Option<u64> },
    /// `relational operator does not accept ...`
    RelationalOperand { ty: Ty },
    /// `arithmetic operator does not accept ...`
    ArithmeticOperand { ty: Ty },
    /// `% requires integer operands`
    RemainderNeedsIntegers,
    /// `bitwise operator does not accept ...`
    BitwiseOperand { ty: Ty },
    /// `shift operator does not accept ...`
    ShiftOperand { ty: Ty },
    /// `shift count must be an integer, got ...`
    ShiftCountNotInteger { ty: Ty },
    /// `cannot compare ... and ...`
    CannotCompare { left: Ty, right: Ty },
    /// `struct, enum, slice, and dynamic interface values cannot be compared directly`
    AggregateComparison,
    /// `closure values cannot be compared directly`
    ClosureComparison,
    /// `null requires an expected nullable pointer type`
    NullWithoutPointer,
    /// `opaque return type requires ... to implement ...`
    OpaqueReturnRequires { concrete: Ty, def_id: u64, args: TyList },
    /// `opaque return type forbids ... from implementing ...`
    OpaqueReturnForbids { concrete: Ty, def_id: u64, args: TyList },
    /// `opaque return ... cannot use an opaque return type that resolves back to itself`
    OpaqueReturnRecursive { opaque: Ty },
    /// `opaque return function returns both ... and ...`
    OpaqueReturnConflict { existing: Ty, concrete: Ty },
    /// `closure conversion requires ... to implement ...`
    ClosureConversionRequires { source: Ty, def_id: u64, args: TyList },
    /// `closure conversion forbids ... from implementing ...`
    ClosureConversionForbids { source: Ty, def_id: u64, args: TyList },
    /// `conflicting selector .name for receiver ...`
    ConflictingSelector { selector: u64, receiver: Ty },
    /// `too many type arguments for ...`
    TooManyTypeArguments { label: u64 },
    /// `actor handle argument must be *Actor<M>, got ...`
    ActorHandleArgument { ty: Ty },
    /// `async task result (or error) type ... does not implement Message`
    TaskPayloadNotMessage { ty: Ty, is_error: bool },
    /// `async channel payload type ... does not implement Message`
    ChannelPayloadNotMessage { ty: Ty },
    /// `async task error type ... cannot represent async runtime failures`
    TaskErrorWithoutRuntimeCarrier { ty: Ty },
    /// `async task error type ... cannot represent task-boundary message-clone failures`
    TaskErrorWithoutMessageCloneCarrier { ty: Ty },
    /// `cannot erase nullable error receiver ... into ...`
    NullableErrorErasure { concrete: Ty, target: Ty },
    /// `cannot erase resource-affine type ... into ...`
    ResourceErrorErasure { concrete: Ty, target: Ty },
    /// `generic constraint not satisfied: ... is not a resource-affine type`
    NotResource { ty: Ty },
    /// a generic argument does not satisfy its constraint
    UnsatisfiedConstraint { ty: Ty, def_id: u64 },
    /// a forbidden capability is implemented by a generic argument
    ForbiddenConstraint { ty: Ty, def_id: u64 },
    /// `struct ... expects N type arguments, got M` (M is the length of `args`)
    WrongTypeArgumentCount { name: u64, expected_count: u64, args: TyList },
    /// `type ... has no field ...`
    NoSuchField { ty: Ty, field: u64 },
    /// `unknown field ... on ...`
    UnknownField { ty: Ty, field: u64 },
    /// a channel or actor payload type could not be determined
    UnknownPayload,
    /// `ambiguous generic impls for interface ...`, with the modules that
    /// declare the first (at most three) candidates, in order
    AmbiguousGenericImpls { interface: u64, candidates: IdList },
    /// `closure expressions cannot produce extern C function pointers`
    ClosureToExternFunction,
    /// `closure expressions cannot produce unsafe function pointers`
    ClosureToUnsafeFunction,
    /// `cannot replace resource subvalue of type ...`
    ReplaceResourceSubvalue { ty: Ty },
    /// `cannot mutate captured binding ...`
    MutateCapturedBinding { name: u64 },
    /// `cannot initialize immutable binding ... from a loop body`
    InitImmutableInLoop { name: u64 },
    /// `cannot initialize immutable binding ... more than once`
    InitImmutableTwice { name: u64 },
    /// `cannot reinitialize moved immutable binding ...`
    ReinitMovedImmutable { name: u64 },
    /// `cannot initialize maybe-assigned immutable binding ...`
    InitMaybeAssignedImmutable { name: u64 },
    /// `cannot reinitialize maybe-moved immutable binding ...`
    ReinitMaybeMovedImmutable { name: u64 },
    /// `cannot partially initialize immutable binding ...`
    PartialInitImmutable { name: u64 },
    /// `cannot mutate immutable binding ...`
    MutateImmutableBinding { name: u64 },
    /// `cannot write through read-only pointer`
    WriteThroughReadOnlyPointer,
    /// `cannot write through read-only slice`
    WriteThroughReadOnlySlice,
    /// `expression is not writable`
    NotWritable,
    /// `resource ... is declared outside this loop and cannot be moved inside it`
    ResourceMovedInLoop { name: u64 },
    /// `cannot move resource subvalue of type ...`
    MoveResourceSubvalue { ty: Ty },
    /// `use of moved resource ...`
    UseOfMovedResource { name: u64 },
    /// `local ... is not definitely assigned`
    NotDefinitelyAssigned { name: u64 },
    /// `unresolved local ...` (the name as written)
    UnresolvedLocal { name: u64 },
    /// `` `->` requires non-null pointer, got ... ``
    ArrowNeedsNonNullPointer { ty: Ty },
    /// `index must be integer`
    IndexMustBeInteger,
    /// `cannot index ...`
    CannotIndex { ty: Ty },
    /// `` `*` requires non-null pointer, got ... ``
    DerefNeedsNonNullPointer { ty: Ty },
    /// `cannot dereference ...`
    CannotDereference { ty: Ty },
    /// `expression is not assignable`
    NotAssignable,
    /// `closure annotation must be a closure or Ciel ABI function type, got ...`
    ClosureAnnotation { ty: Ty },
    /// `imported C function declarations must be in unsafe extern "C" blocks`
    ImportedCNotUnsafe,
    /// `extern "C" functions cannot be async`
    ExternCAsync,
    /// `extern "C" function bodies must be declared with export`
    ExternCBodyNotExported,
    /// `extern "C" functions cannot be generic`
    ExternCGeneric,
    /// `closure types are not allowed in extern C declarations`
    ExternCClosureType,
    /// `extern "C" parameters cannot have type void by value`
    ExternCVoidParameter,
    /// `conflicting extern "C" declarations for symbol ...`
    ConflictingCDeclarations { symbol: u64 },
    /// `multiple definitions of C ABI symbol ...`
    MultipleCDefinitions { symbol: u64 },
    /// `<role> ... is not callable`
    ActorNotCallable { role: ActorCallableRole, ty: Ty },
    /// `<role> expects N parameters, got M` (M is the length of `params`)
    ActorCallableArity { role: ActorCallableRole, expected_count: u64, params: TyList },
    /// `<role> parameter i mismatch: expected ..., got ...`
    ActorCallableParameter { role: ActorCallableRole, index: u64, expected: Ty, actual: Ty },
    /// `resource type ... cannot implement ...`
    ResourceCannotImplement { ty: Ty, interface: u64 },
    /// `<role> must return ..., got ...`
    ActorCallableReturn { role: ActorCallableRole, expected: Ty, actual: Ty },
}

#[derive(Debug, PartialEq)]
pub struct Diagnostic {
    pub span: Span,
    pub kind: DiagKind,
}

} // verus!
