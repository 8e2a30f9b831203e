//! The read-only database handle that resolution runs against: the state the
//! backing query engine has materialized, reduced to what source resolution
//! reads.  Per kind of definition it holds the definition-site locators, the
//! per-parent child-source maps, the optional ast-id association of macro
//! definitions, and per-module origin metadata.

use vstd::prelude::*;

use either::Either;

use crate::ids::{Enum, Function, GenericDef, MacroDef, Module, Variant, VariantDef};
use crate::syntax::{AstId, HirFileId, InFile, Node, NodeKind};

verus! {

/// Per-file syntax data: the file's text length and its node table, indexed
/// by ast-id.
pub struct FileData {
    pub text_len: u32,
    pub nodes: Vec<Node>,
}

/// A struct's or union's definition-site locator together with its
/// child-source map for fields.
pub struct AdtData {
    pub loc: AstId,
    pub fields: InFile<Vec<Either<Node, Node>>>,
}

/// The child-source map for the fields of one enum case.
pub struct VariantData {
    pub fields: InFile<Vec<Either<Node, Node>>>,
}

/// An enum's definition-site locator, its child-source map for cases, and the
/// per-case field maps.
pub struct EnumData {
    pub loc: AstId,
    pub variants: InFile<Vec<Node>>,
    pub variant_fields: Vec<VariantData>,
}

/// The child-source map of a definition that owns generic parameters.  A type
/// parameter's source is either the enclosing trait node itself (the implicit
/// `Self` parameter) or an explicit type-parameter node.
pub struct GenericDefData {
    pub file_id: HirFileId,
    pub type_params: Vec<Either<Node, Node>>,
    pub lifetime_params: Vec<Node>,
    pub const_params: Vec<Node>,
}

/// Where a module's syntax comes from: the crate root file, a file-backed
/// submodule, or an inline `mod` item.
#[derive(Clone, Copy, PartialEq, Eq, Structural, Debug)]
pub enum ModuleOrigin {
    /// The crate root: defined by a real file, declared nowhere.
    CrateRoot { definition_file: u32 },
    /// A file-backed submodule: declared by a `mod` item in the parent file,
    /// defined by a real file of its own.
    File { is_mod_rs: bool, declaration: AstId, definition_file: u32 },
    /// An inline module: declared by a `mod` item, defined by that item's
    /// body in the same file.
    Inline { declaration: AstId, definition: AstId },
}

/// Origin metadata of one module.
#[derive(Clone, Copy, PartialEq, Eq, Structural, Debug)]
pub struct ModuleData {
    pub origin: ModuleOrigin,
}

/// The def map of one crate: its modules, indexed by local module id.
pub struct CrateDefMap {
    pub modules: Vec<ModuleData>,
}

/// A node never reaches outside the text of length `len` it belongs to.
pub open spec fn node_fits(n: Node, len: u32) -> bool {
    n.range.start <= n.range.end && n.range.end <= len
}

/// Every node of the file lies within the file's text.
pub open spec fn file_wf(fd: FileData) -> bool {
    forall|i: int| 0 <= i < fd.nodes@.len() ==> node_fits(#[trigger] fd.nodes@[i], fd.text_len)
}

/// The database: everything resolution may read, in one read-only handle.
pub struct Database {
    pub real_files: Vec<FileData>,
    pub macro_files: Vec<FileData>,
    pub structs: Vec<AdtData>,
    pub unions: Vec<AdtData>,
    pub enums: Vec<EnumData>,
    pub functions: Vec<AstId>,
    pub consts: Vec<AstId>,
    pub statics: Vec<AstId>,
    pub traits: Vec<AstId>,
    pub type_aliases: Vec<AstId>,
    pub impls: Vec<AstId>,
    pub macro_defs: Vec<Option<AstId>>,
    pub generic_defs: Vec<GenericDefData>,
    pub crates: Vec<CrateDefMap>,
}

impl Database {
    /// The file identity denotes a file the database knows.
    pub open spec fn spec_valid_file(self, f: HirFileId) -> bool {
        match f {
            HirFileId::Real(i) => i < self.real_files@.len(),
            HirFileId::MacroExpansion(i) => i < self.macro_files@.len(),
        }
    }

    /// The syntax data of a known file.
    pub open spec fn spec_file(self, f: HirFileId) -> FileData
        recommends
            self.spec_valid_file(f),
    {
        match f {
            HirFileId::Real(i) => self.real_files@[i as int],
            HirFileId::MacroExpansion(i) => self.macro_files@[i as int],
        }
    }

    /// The locator points at a node the database has materialized.
    pub open spec fn valid_ast_id(self, a: AstId) -> bool {
        self.spec_valid_file(a.file_id) && a.idx < self.spec_file(a.file_id).nodes@.len()
    }

    /// The node a locator points at.
    pub open spec fn spec_node(self, a: AstId) -> Node
        recommends
            self.valid_ast_id(a),
    {
        self.spec_file(a.file_id).nodes@[a.idx as int]
    }

    /// The node lies within the text of the named file.
    pub open spec fn node_in_file(self, f: HirFileId, n: Node) -> bool {
        self.spec_valid_file(f) && node_fits(n, self.spec_file(f).text_len)
    }

    /// The locator is valid and points at a node of kind `k`.
    pub open spec fn ast_id_is(self, a: AstId, k: NodeKind) -> bool {
        self.valid_ast_id(a) && self.spec_node(a).kind == k
    }

    /// A locator materialized into its node, tagged with its file.
    pub open spec fn spec_item_source(self, a: AstId) -> InFile<Node>
        recommends
            self.valid_ast_id(a),
    {
        InFile { file_id: a.file_id, value: self.spec_node(a) }
    }

    /// One entry of a field child-source map: a positional field node on the
    /// left, a named field node on the right, either way within the map's file.
    pub open spec fn field_entry_wf(self, f: HirFileId, e: Either<Node, Node>) -> bool {
        match e {
            Either::Left(n) => n.kind == NodeKind::TupleField && self.node_in_file(f, n),
            Either::Right(n) => n.kind == NodeKind::RecordField && self.node_in_file(f, n),
        }
    }

    /// A field child-source map names a known file and holds well-shaped
    /// entries only.
    pub open spec fn field_map_wf(self, m: InFile<Vec<Either<Node, Node>>>) -> bool {
        &&& self.spec_valid_file(m.file_id)
        &&& forall|i: int|
            0 <= i < m.value@.len() ==> self.field_entry_wf(m.file_id, #[trigger] m.value@[i])
    }

    pub open spec fn adt_wf(self, a: AdtData, k: NodeKind) -> bool {
        self.ast_id_is(a.loc, k) && self.field_map_wf(a.fields)
    }

    pub open spec fn enum_wf(self, e: EnumData) -> bool {
        &&& self.ast_id_is(e.loc, NodeKind::Enum)
        &&& self.spec_valid_file(e.variants.file_id)
        &&& forall|i: int|
            0 <= i < e.variants.value@.len() ==> (#[trigger] e.variants.value@[i]).kind
                == NodeKind::Variant && self.node_in_file(e.variants.file_id, e.variants.value@[i])
        &&& e.variant_fields@.len() == e.variants.value@.len()
        &&& forall|i: int|
            0 <= i < e.variant_fields@.len() ==> self.field_map_wf(
                (#[trigger] e.variant_fields@[i]).fields,
            )
    }

    pub open spec fn generic_def_wf(self, g: GenericDefData) -> bool {
        &&& self.spec_valid_file(g.file_id)
        &&& forall|i: int|
            0 <= i < g.type_params@.len() ==> match #[trigger] g.type_params@[i] {
                Either::Left(n) => n.kind == NodeKind::Trait && self.node_in_file(g.file_id, n),
                Either::Right(n) => n.kind == NodeKind::TypeParam && self.node_in_file(
                    g.file_id,
                    n,
                ),
            }
        &&& forall|i: int|
            0 <= i < g.lifetime_params@.len() ==> (#[trigger] g.lifetime_params@[i]).kind
                == NodeKind::LifetimeParam && self.node_in_file(g.file_id, g.lifetime_params@[i])
        &&& forall|i: int|
            0 <= i < g.const_params@.len() ==> (#[trigger] g.const_params@[i]).kind
                == NodeKind::ConstParam && self.node_in_file(g.file_id, g.const_params@[i])
    }

    pub open spec fn module_wf(self, m: ModuleData) -> bool {
        match m.origin {
            ModuleOrigin::CrateRoot { definition_file } => definition_file < self.real_files@.len(),
            ModuleOrigin::File { is_mod_rs: _, declaration, definition_file } => self.ast_id_is(
                declaration,
                NodeKind::Module,
            ) && definition_file < self.real_files@.len(),
            ModuleOrigin::Inline { declaration, definition } => self.ast_id_is(
                declaration,
                NodeKind::Module,
            ) && self.ast_id_is(definition, NodeKind::ItemList) && declaration.file_id
                == definition.file_id,
        }
    }

    pub open spec fn crate_wf(self, c: CrateDefMap) -> bool {
        forall|i: int| 0 <= i < c.modules@.len() ==> self.module_wf(#[trigger] c.modules@[i])
    }

    /// Well-formedness of the whole database: every locator it hands out
    /// points at a materialized node of the right kind, and every node lies
    /// within its file.
    pub open spec fn wf(self) -> bool {
        &&& forall|i: int| 0 <= i < self.real_files@.len() ==> file_wf(#[trigger] self.real_files@[i])
        &&& forall|i: int|
            0 <= i < self.macro_files@.len() ==> file_wf(#[trigger] self.macro_files@[i])
        &&& forall|i: int|
            0 <= i < self.structs@.len() ==> self.adt_wf(#[trigger] self.structs@[i], NodeKind::Struct)
        &&& forall|i: int|
            0 <= i < self.unions@.len() ==> self.adt_wf(#[trigger] self.unions@[i], NodeKind::Union)
        &&& forall|i: int| 0 <= i < self.enums@.len() ==> self.enum_wf(#[trigger] self.enums@[i])
        &&& forall|i: int|
            0 <= i < self.functions@.len() ==> self.ast_id_is(#[trigger] self.functions@[i], NodeKind::Fn)
        &&& forall|i: int|
            0 <= i < self.consts@.len() ==> self.ast_id_is(#[trigger] self.consts@[i], NodeKind::Const)
        &&& forall|i: int|
            0 <= i < self.statics@.len() ==> self.ast_id_is(#[trigger] self.statics@[i], NodeKind::Static)
        &&& forall|i: int|
            0 <= i < self.traits@.len() ==> self.ast_id_is(#[trigger] self.traits@[i], NodeKind::Trait)
        &&& forall|i: int|
            0 <= i < self.type_aliases@.len() ==> self.ast_id_is(
                #[trigger] self.type_aliases@[i],
                NodeKind::TypeAlias,
            )
        &&& forall|i: int|
            0 <= i < self.impls@.len() ==> self.ast_id_is(#[trigger] self.impls@[i], NodeKind::Impl)
        &&& forall|i: int|
            0 <= i < self.macro_defs@.len() ==> match #[trigger] self.macro_defs@[i] {
                Some(a) => self.ast_id_is(a, NodeKind::Macro),
                None => true,
            }
        &&& forall|i: int|
            0 <= i < self.generic_defs@.len() ==> self.generic_def_wf(#[trigger] self.generic_defs@[i])
        &&& forall|i: int| 0 <= i < self.crates@.len() ==> self.crate_wf(#[trigger] self.crates@[i])
    }

    /// A known node lies within its file.
    pub proof fn lemma_valid_node_in_file(self, a: AstId)
        requires
            self.wf(),
            self.valid_ast_id(a),
        ensures
            self.node_in_file(a.file_id, self.spec_node(a)),
    {
        match a.file_id {
            HirFileId::Real(i) => {
                assert(file_wf(self.real_files@[i as int]));
                assert(node_fits(self.spec_file(a.file_id).nodes@[a.idx as int],
                    self.spec_file(a.file_id).text_len));
            },
            HirFileId::MacroExpansion(i) => {
                assert(file_wf(self.macro_files@[i as int]));
                assert(node_fits(self.spec_file(a.file_id).nodes@[a.idx as int],
                    self.spec_file(a.file_id).text_len));
            },
        }
    }

    // Identifier validity, kind by kind.  An identifier is valid when the
    // semantic layer could have handed it out against this database: its
    // indexes land in the tables and maps they were assigned from.
    pub open spec fn valid_struct(self, s: crate::ids::Struct) -> bool {
        s.id < self.structs@.len()
    }

    pub open spec fn valid_union(self, u: crate::ids::Union) -> bool {
        u.id < self.unions@.len()
    }

    pub open spec fn valid_enum(self, e: Enum) -> bool {
        e.id < self.enums@.len()
    }

    pub open spec fn valid_variant(self, v: Variant) -> bool {
        self.valid_enum(v.parent) && v.id < self.enums@[v.parent.id as int].variants.value@.len()
    }

    pub open spec fn valid_variant_def(self, vd: VariantDef) -> bool {
        match vd {
            VariantDef::Struct(s) => self.valid_struct(s),
            VariantDef::Union(u) => self.valid_union(u),
            VariantDef::Variant(v) => self.valid_variant(v),
        }
    }

    pub open spec fn valid_field(self, f: crate::ids::Field) -> bool {
        self.valid_variant_def(f.parent) && f.id < self.spec_variant_field_map(
            f.parent,
        ).value@.len()
    }

    pub open spec fn valid_function(self, f: Function) -> bool {
        f.id < self.functions@.len()
    }

    pub open spec fn valid_const(self, c: crate::ids::Const) -> bool {
        c.id < self.consts@.len()
    }

    pub open spec fn valid_static(self, s: crate::ids::Static) -> bool {
        s.id < self.statics@.len()
    }

    pub open spec fn valid_trait(self, t: crate::ids::Trait) -> bool {
        t.id < self.traits@.len()
    }

    pub open spec fn valid_type_alias(self, t: crate::ids::TypeAlias) -> bool {
        t.id < self.type_aliases@.len()
    }

    pub open spec fn valid_impl(self, i: crate::ids::Impl) -> bool {
        i.id < self.impls@.len()
    }

    pub open spec fn valid_macro_def(self, m: MacroDef) -> bool {
        m.id < self.macro_defs@.len()
    }

    pub open spec fn valid_generic_def(self, g: GenericDef) -> bool {
        g.id < self.generic_defs@.len()
    }

    pub open spec fn valid_type_param(self, t: crate::ids::TypeParam) -> bool {
        self.valid_generic_def(t.parent) && t.local_id < self.generic_defs@[t.parent.id as int].type_params@.len()
    }

    pub open spec fn valid_lifetime_param(self, l: crate::ids::LifetimeParam) -> bool {
        self.valid_generic_def(l.parent) && l.local_id
            < self.generic_defs@[l.parent.id as int].lifetime_params@.len()
    }

    pub open spec fn valid_const_param(self, c: crate::ids::ConstParam) -> bool {
        self.valid_generic_def(c.parent) && c.local_id
            < self.generic_defs@[c.parent.id as int].const_params@.len()
    }

    pub open spec fn valid_module(self, m: Module) -> bool {
        m.krate < self.crates@.len() && m.local_id < self.crates@[m.krate as int].modules@.len()
    }

    /// Origin metadata of a known module.
    pub open spec fn spec_module(self, m: Module) -> ModuleData
        recommends
            self.valid_module(m),
    {
        self.crates@[m.krate as int].modules@[m.local_id as int]
    }

    /// The freshly computed field child-source map of a field parent.
    pub open spec fn spec_variant_field_map(self, parent: VariantDef) -> InFile<
        Vec<Either<Node, Node>>,
    >
        recommends
            self.valid_variant_def(parent),
    {
        match parent {
            VariantDef::Struct(s) => self.structs@[s.id as int].fields,
            VariantDef::Union(u) => self.unions@[u.id as int].fields,
            VariantDef::Variant(v) => self.enums@[v.parent.id as int].variant_fields@[v.id as int].fields,
        }
    }

    /// The field child-source map of a known field parent is well-shaped.
    pub proof fn lemma_variant_field_map_wf(self, parent: VariantDef)
        requires
            self.wf(),
            self.valid_variant_def(parent),
        ensures
            self.field_map_wf(self.spec_variant_field_map(parent)),
    {
        match parent {
            VariantDef::Struct(s) => {
                assert(self.adt_wf(self.structs@[s.id as int], NodeKind::Struct));
            },
            VariantDef::Union(u) => {
                assert(self.adt_wf(self.unions@[u.id as int], NodeKind::Union));
            },
            VariantDef::Variant(v) => {
                assert(self.enum_wf(self.enums@[v.parent.id as int]));
                assert(self.field_map_wf(
                    self.enums@[v.parent.id as int].variant_fields@[v.id as int].fields,
                ));
            },
        }
    }

    /// Materializes a locator into its node (`astIdToNode`).
    pub fn node_at(&self, a: AstId) -> (r: Node)
        requires
            self.valid_ast_id(a),
        ensures
            r == self.spec_node(a),
    {
        match a.file_id {
            HirFileId::Real(i) => self.real_files[i as usize].nodes[a.idx],
            HirFileId::MacroExpansion(i) => self.macro_files[i as usize].nodes[a.idx],
        }
    }

    /// Materializes a locator into its node tagged with its file (`sourceOf`).
    pub fn item_source(&self, a: AstId) -> (r: InFile<Node>)
        requires
            self.valid_ast_id(a),
        ensures
            r == self.spec_item_source(a),
    {
        InFile { file_id: a.file_id, value: self.node_at(a) }
    }

    /// The field child-source map of a field parent, recomputed per call by
    /// the query engine and read here (`childSourceMap` for fields).
    pub fn variant_child_source(&self, parent: VariantDef) -> (r: &InFile<
        Vec<Either<Node, Node>>,
    >)
        requires
            self.wf(),
            self.valid_variant_def(parent),
        ensures
            *r == self.spec_variant_field_map(parent),
    {
        match parent {
            VariantDef::Struct(s) => &self.structs[s.id as usize].fields,
            VariantDef::Union(u) => &self.unions[u.id as usize].fields,
            VariantDef::Variant(v) => {
                proof {
                    assert(self.enum_wf(self.enums@[v.parent.id as int]));
                }
                &self.enums[v.parent.id as usize].variant_fields[v.id as usize].fields
            },
        }
    }

    /// The child-source map of an enum's cases (`childSourceMap` for variants).
    pub fn enum_child_source(&self, e: Enum) -> (r: &InFile<Vec<Node>>)
        requires
            self.valid_enum(e),
        ensures
            *r == self.enums@[e.id as int].variants,
    {
        &self.enums[e.id as usize].variants
    }

    /// The child-source map of a definition's generic parameters
    /// (`childSourceMap` for generic parameters).
    pub fn generic_child_source(&self, g: GenericDef) -> (r: &GenericDefData)
        requires
            self.valid_generic_def(g),
        ensures
            *r == self.generic_defs@[g.id as int],
    {
        &self.generic_defs[g.id as usize]
    }
}

} // verus!
