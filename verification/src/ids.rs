//! Definition identifiers: opaque, kind-tagged handles to semantic entities,
//! allocated by the semantic layer and consumed here only as lookup keys.
//!
//! Simple owned kinds carry a direct index into the database's item table for
//! their kind.  Compound kinds decompose into a parent identifier and a local
//! ordinal into that parent's child-source map.

use vstd::prelude::*;

verus! {

#[derive(Clone, Copy, PartialEq, Eq, Structural, Debug, Hash)]
pub struct Struct {
    pub id: u32,
}

#[derive(Clone, Copy, PartialEq, Eq, Structural, Debug, Hash)]
pub struct Union {
    pub id: u32,
}

#[derive(Clone, Copy, PartialEq, Eq, Structural, Debug, Hash)]
pub struct Enum {
    pub id: u32,
}

/// An enum case; `id` is its ordinal in the parent enum's child-source map.
#[derive(Clone, Copy, PartialEq, Eq, Structural, Debug, Hash)]
pub struct Variant {
    pub parent: Enum,
    pub id: u32,
}

#[derive(Clone, Copy, PartialEq, Eq, Structural, Debug, Hash)]
pub struct Function {
    pub id: u32,
}

#[derive(Clone, Copy, PartialEq, Eq, Structural, Debug, Hash)]
pub struct Const {
    pub id: u32,
}

#[derive(Clone, Copy, PartialEq, Eq, Structural, Debug, Hash)]
pub struct Static {
    pub id: u32,
}

#[derive(Clone, Copy, PartialEq, Eq, Structural, Debug, Hash)]
pub struct Trait {
    pub id: u32,
}

#[derive(Clone, Copy, PartialEq, Eq, Structural, Debug, Hash)]
pub struct TypeAlias {
    pub id: u32,
}

#[derive(Clone, Copy, PartialEq, Eq, Structural, Debug, Hash)]
pub struct Impl {
    pub id: u32,
}

/// A macro definition; built-in and derived macros may have no backing syntax.
#[derive(Clone, Copy, PartialEq, Eq, Structural, Debug, Hash)]
pub struct MacroDef {
    pub id: u32,
}

/// The three kinds of definition that own fields.
#[derive(Clone, Copy, PartialEq, Eq, Structural, Debug, Hash)]
pub enum VariantDef {
    Struct(Struct),
    Union(Union),
    Variant(Variant),
}

/// A field; `id` is its ordinal in the parent's child-source map.
#[derive(Clone, Copy, PartialEq, Eq, Structural, Debug, Hash)]
pub struct Field {
    pub parent: VariantDef,
    pub id: u32,
}

/// A definition that owns generic parameters.
#[derive(Clone, Copy, PartialEq, Eq, Structural, Debug, Hash)]
pub struct GenericDef {
    pub id: u32,
}

#[derive(Clone, Copy, PartialEq, Eq, Structural, Debug, Hash)]
pub struct TypeParam {
    pub parent: GenericDef,
    pub local_id: u32,
}

#[derive(Clone, Copy, PartialEq, Eq, Structural, Debug, Hash)]
pub struct LifetimeParam {
    pub parent: GenericDef,
    pub local_id: u32,
}

#[derive(Clone, Copy, PartialEq, Eq, Structural, Debug, Hash)]
pub struct ConstParam {
    pub parent: GenericDef,
    pub local_id: u32,
}

/// A module, addressed by its crate and its slot in that crate's def map.
#[derive(Clone, Copy, PartialEq, Eq, Structural, Debug, Hash)]
pub struct Module {
    pub krate: u32,
    pub local_id: u32,
}

} // verus!
