//! The syntax-side vocabulary of the resolver: file identities, text ranges,
//! syntax nodes reduced to their kind and range, and the `InFile` wrapper that
//! tags a value with the file it was found in.

use vstd::prelude::*;

verus! {

/// Identity of a file: a real source file, or a virtual file produced by a
/// macro expansion.
#[derive(Clone, Copy, PartialEq, Eq, Structural, Debug, Hash)]
pub enum HirFileId {
    Real(u32),
    MacroExpansion(u32),
}

/// Text range of a syntax node within its file, as a half-open interval of
/// byte offsets.
#[derive(Clone, Copy, PartialEq, Eq, Structural, Debug, Hash)]
pub struct TextRange {
    pub start: u32,
    pub end: u32,
}

impl TextRange {
    /// A range is ordered: it never ends before it starts.
    pub open spec fn wf(self) -> bool {
        self.start <= self.end
    }
}

/// The syntactic kind of a node.
#[derive(Clone, Copy, PartialEq, Eq, Structural, Debug, Hash)]
pub enum NodeKind {
    SourceFile,
    Struct,
    Union,
    Enum,
    Variant,
    TupleField,
    RecordField,
    Fn,
    Const,
    Static,
    Trait,
    TypeAlias,
    Impl,
    Macro,
    Module,
    ItemList,
    TypeParam,
    LifetimeParam,
    ConstParam,
}

/// A syntax-tree node, reduced to what the resolver is answerable for: its
/// kind and the text range it occupies in its file.
#[derive(Clone, Copy, PartialEq, Eq, Structural, Debug, Hash)]
pub struct Node {
    pub kind: NodeKind,
    pub range: TextRange,
}

/// Relies on the `either` crate's `Either<L, R>`: a plain tagged choice of two
/// values, `Left(L)` or `Right(R)`, with nothing hidden inside.  The crate's
/// child-source maps use it to hold the two syntactic shapes a child can take.
#[verifier::external_type_specification]
#[verifier::reject_recursive_types(L)]
#[verifier::reject_recursive_types(R)]
pub struct ExEither<L, R>(either::Either<L, R>);

/// A stable pointer to a syntax node: a file plus an index into that file's
/// node table.
#[derive(Clone, Copy, PartialEq, Eq, Structural, Debug, Hash)]
pub struct AstId {
    pub file_id: HirFileId,
    pub idx: usize,
}

/// The two syntactic shapes a field can resolve to: a positional (tuple-style)
/// field node or a named (record-style) field node.
#[derive(Clone, Copy, PartialEq, Eq, Structural, Debug, Hash)]
pub enum FieldSource {
    Pos(Node),
    Named(Node),
}

/// The node that supplies a module's contents: the root of a whole source
/// file, or the item body of an inline `mod` item.
#[derive(Clone, Copy, PartialEq, Eq, Structural, Debug, Hash)]
pub enum ModuleSource {
    SourceFile(Node),
    Module(Node),
}

/// A value paired with the file it was found in.
#[derive(Clone, Copy, PartialEq, Eq, Debug, Hash)]
pub struct InFile<T> {
    pub file_id: HirFileId,
    pub value: T,
}

impl<T> InFile<T> {
    /// Tags `value` as having been found in `file_id`.
    pub fn new(file_id: HirFileId, value: T) -> (r: InFile<T>)
        ensures
            r.file_id == file_id,
            r.value == value,
    {
        InFile { file_id, value }
    }

    /// Reshapes the carried value while preserving the file tag.
    pub fn map<U, F: FnOnce(T) -> U>(self, f: F) -> (r: InFile<U>)
        requires
            call_requires(f, (self.value,)),
        ensures
            r.file_id == self.file_id,
            call_ensures(f, (self.value,), r.value),
    {
        InFile { file_id: self.file_id, value: f(self.value) }
    }
}

} // verus!
