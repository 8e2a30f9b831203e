//! The laws the resolver obeys, written down once and proved from the
//! resolution rules themselves, so that a reader sees what is guaranteed
//! without re-deriving it.

use vstd::prelude::*;

use crate::db::{Database, ModuleOrigin};
use crate::ids::{ConstParam, Field, LifetimeParam, MacroDef, Module, TypeParam, Variant};
use crate::protocol::{spec_field_source, HasSource};
use crate::syntax::{InFile, ModuleSource, NodeKind};

verus! {

/// Resolution is a pure function of the identifier and the database state:
/// two results obtained against an unchanged database are one value, with
/// identical file identity and equal node.
pub proof fn lemma_resolution_idempotent<D: HasSource>(
    d: D,
    db: &Database,
    r1: Option<InFile<D::Ast>>,
    r2: Option<InFile<D::Ast>>,
)
    requires
        r1 == d.spec_source(db),
        r2 == d.spec_source(db),
    ensures
        r1 == r2,
        r1 matches Some(s1) ==> (r2 matches Some(s2) && s1.file_id == s2.file_id && s1.value
            == s2.value),
{
}

/// Resolving a field through the protocol agrees with directly indexing its
/// parent's freshly computed child-source map at the field's local ordinal,
/// reshaped into the field's source-shape choice with the same file tag.
pub proof fn lemma_field_agrees_with_child_source(db: &Database, f: Field)
    requires
        db.wf(),
        db.valid_field(f),
    ensures
        ({
            let m = db.spec_variant_field_map(f.parent);
            f.spec_source(db) == Some(
                InFile { file_id: m.file_id, value: spec_field_source(m.value@[f.id as int]) },
            )
        }),
{
}

/// Resolving an enum case through the protocol agrees with directly indexing
/// its parent enum's child-source map at the case's local ordinal.
pub proof fn lemma_variant_agrees_with_child_source(db: &Database, v: Variant)
    requires
        db.wf(),
        db.valid_variant(v),
    ensures
        ({
            let m = db.enums@[v.parent.id as int].variants;
            v.spec_source(db) == Some(InFile { file_id: m.file_id, value: m.value@[v.id as int] })
        }),
{
}

/// Resolving a type parameter through the protocol agrees with directly
/// indexing its parent's generic-parameter child-source map.
pub proof fn lemma_type_param_agrees_with_child_source(db: &Database, t: TypeParam)
    requires
        db.wf(),
        db.valid_type_param(t),
    ensures
        ({
            let g = db.generic_defs@[t.parent.id as int];
            t.spec_source(db) == Some(
                InFile { file_id: g.file_id, value: g.type_params@[t.local_id as int] },
            )
        }),
{
}

/// Resolving a lifetime parameter through the protocol agrees with directly
/// indexing its parent's generic-parameter child-source map.
pub proof fn lemma_lifetime_param_agrees_with_child_source(db: &Database, l: LifetimeParam)
    requires
        db.wf(),
        db.valid_lifetime_param(l),
    ensures
        ({
            let g = db.generic_defs@[l.parent.id as int];
            l.spec_source(db) == Some(
                InFile { file_id: g.file_id, value: g.lifetime_params@[l.local_id as int] },
            )
        }),
{
}

/// Resolving a const parameter through the protocol agrees with directly
/// indexing its parent's generic-parameter child-source map.
pub proof fn lemma_const_param_agrees_with_child_source(db: &Database, c: ConstParam)
    requires
        db.wf(),
        db.valid_const_param(c),
    ensures
        ({
            let g = db.generic_defs@[c.parent.id as int];
            c.spec_source(db) == Some(
                InFile { file_id: g.file_id, value: g.const_params@[c.local_id as int] },
            )
        }),
{
}

/// A macro definition resolves to nothing exactly when its underlying ast-id
/// association is absent; otherwise it resolves to the node that ast-id
/// points to.
pub proof fn lemma_macro_def_partiality(db: &Database, m: MacroDef)
    requires
        db.wf(),
        db.valid_macro_def(m),
    ensures
        m.spec_source(db) is None <==> db.macro_defs@[m.id as int] is None,
        db.macro_defs@[m.id as int] matches Some(a) ==> m.spec_source(db) == Some(
            db.spec_item_source(a),
        ),
{
}

/// The module dual-source rules: the declaration site is absent exactly for
/// the crate root; the definition site always exists and lies within a file
/// the database knows, as does any declaration site, which is a `mod` item;
/// and an inline module's two sites share one file.
pub proof fn lemma_module_dual_sources(db: &Database, m: Module)
    requires
        db.wf(),
        db.valid_module(m),
    ensures
        m.spec_declaration_source(db) is None <==> db.spec_module(m).origin is CrateRoot,
        m.spec_declaration_source(db) matches Some(s) ==> db.node_in_file(s.file_id, s.value)
            && s.value.kind == NodeKind::Module,
        ({
            let d = m.spec_definition_source(db);
            match d.value {
                ModuleSource::SourceFile(n) => db.node_in_file(d.file_id, n) && n.kind
                    == NodeKind::SourceFile,
                ModuleSource::Module(n) => db.node_in_file(d.file_id, n) && n.kind
                    == NodeKind::ItemList,
            }
        }),
        db.spec_module(m).origin is Inline ==> m.spec_definition_source(db).file_id
            == m.spec_declaration_source(db).unwrap().file_id,
{
    assert(db.crate_wf(db.crates@[m.krate as int]));
    assert(db.module_wf(db.spec_module(m)));
    match db.spec_module(m).origin {
        ModuleOrigin::CrateRoot { .. } => {},
        ModuleOrigin::File { declaration, .. } => {
            db.lemma_valid_node_in_file(declaration);
        },
        ModuleOrigin::Inline { declaration, definition } => {
            db.lemma_valid_node_in_file(declaration);
            db.lemma_valid_node_in_file(definition);
        },
    }
}

} // verus!
