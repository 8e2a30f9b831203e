//! Module dual-source logic.  A module is deliberately not part of the
//! unified protocol, because it has two source nodes at the same time: the
//! node that supplies its contents (definition site) and the node that
//! introduces it by name in the parent file (declaration site).

use vstd::prelude::*;

use crate::db::{Database, ModuleData, ModuleOrigin};
use crate::ids::Module;
use crate::syntax::{HirFileId, InFile, ModuleSource, Node, NodeKind, TextRange};

verus! {

/// The definition source of a module whose contents come from a whole real
/// file: the root node of that file.
pub open spec fn spec_file_definition(db: &Database, f: u32) -> InFile<ModuleSource>
    recommends
        f < db.real_files@.len(),
{
    InFile {
        file_id: HirFileId::Real(f),
        value: ModuleSource::SourceFile(
            Node {
                kind: NodeKind::SourceFile,
                range: TextRange { start: 0, end: db.real_files@[f as int].text_len },
            },
        ),
    }
}

fn file_definition(db: &Database, f: u32) -> (r: InFile<ModuleSource>)
    requires
        f < db.real_files@.len(),
    ensures
        r == spec_file_definition(db, f),
{
    let fd = &db.real_files[f as usize];
    InFile {
        file_id: HirFileId::Real(f),
        value: ModuleSource::SourceFile(
            Node { kind: NodeKind::SourceFile, range: TextRange { start: 0, end: fd.text_len } },
        ),
    }
}

impl Module {
    /// The resolution rule for a module's definition site: the root of the
    /// crate root file, the root of a file-backed submodule's file, or the
    /// item body of an inline `mod` item.  Total: every valid module has one.
    pub open spec fn spec_definition_source(self, db: &Database) -> InFile<ModuleSource>
        recommends
            db.valid_module(self),
    {
        match db.spec_module(self).origin {
            ModuleOrigin::CrateRoot { definition_file } => spec_file_definition(
                db,
                definition_file,
            ),
            ModuleOrigin::File { definition_file, .. } => spec_file_definition(db, definition_file),
            ModuleOrigin::Inline { definition, .. } => InFile {
                file_id: definition.file_id,
                value: ModuleSource::Module(db.spec_node(definition)),
            },
        }
    }

    /// The resolution rule for a module's declaration site: the `mod` item
    /// that introduces it.  Absent exactly for the crate root.
    pub open spec fn spec_declaration_source(self, db: &Database) -> Option<InFile<Node>>
        recommends
            db.valid_module(self),
    {
        match db.spec_module(self).origin {
            ModuleOrigin::CrateRoot { .. } => None,
            ModuleOrigin::File { declaration, .. } => Some(db.spec_item_source(declaration)),
            ModuleOrigin::Inline { declaration, .. } => Some(db.spec_item_source(declaration)),
        }
    }

    /// Whether the module's defining file follows the directory-index layout
    /// convention.
    pub open spec fn spec_is_mod_rs(self, db: &Database) -> bool
        recommends
            db.valid_module(self),
    {
        match db.spec_module(self).origin {
            ModuleOrigin::File { is_mod_rs, .. } => is_mod_rs,
            _ => false,
        }
    }

    /// Returns the node which defines this module: that is, a file root or
    /// the body of a `mod foo {}` with items.
    pub fn definition_source(self, db: &Database) -> (r: InFile<ModuleSource>)
        requires
            db.wf(),
            db.valid_module(self),
        ensures
            r == self.spec_definition_source(db),
    {
        proof {
            assert(db.crate_wf(db.crates@[self.krate as int]));
            assert(db.module_wf(db.spec_module(self)));
        }
        let md: &ModuleData = &db.crates[self.krate as usize].modules[self.local_id as usize];
        match md.origin {
            ModuleOrigin::CrateRoot { definition_file } => file_definition(db, definition_file),
            ModuleOrigin::File { is_mod_rs: _, declaration: _, definition_file } => file_definition(
                db,
                definition_file,
            ),
            ModuleOrigin::Inline { declaration: _, definition } => InFile {
                file_id: definition.file_id,
                value: ModuleSource::Module(db.node_at(definition)),
            },
        }
    }

    /// Whether this module's originating file is a directory-index file
    /// (`false` for inline modules and the crate root).
    pub fn is_mod_rs(self, db: &Database) -> (r: bool)
        requires
            db.valid_module(self),
        ensures
            r == self.spec_is_mod_rs(db),
            r ==> db.spec_module(self).origin is File,
    {
        let md: &ModuleData = &db.crates[self.krate as usize].modules[self.local_id as usize];
        match md.origin {
            ModuleOrigin::File { is_mod_rs, declaration: _, definition_file: _ } => is_mod_rs,
            _ => false,
        }
    }

    /// Returns the node which declares this module, either a `mod foo;` or a
    /// `mod foo {}`.  `None` for the crate root, and only for it.
    pub fn declaration_source(self, db: &Database) -> (r: Option<InFile<Node>>)
        requires
            db.wf(),
            db.valid_module(self),
        ensures
            r == self.spec_declaration_source(db),
            r is None <==> db.spec_module(self).origin is CrateRoot,
    {
        proof {
            assert(db.crate_wf(db.crates@[self.krate as int]));
            assert(db.module_wf(db.spec_module(self)));
        }
        let md: &ModuleData = &db.crates[self.krate as usize].modules[self.local_id as usize];
        match md.origin {
            ModuleOrigin::CrateRoot { .. } => None,
            ModuleOrigin::File { is_mod_rs: _, declaration, definition_file: _ } => Some(
                db.item_source(declaration),
            ),
            ModuleOrigin::Inline { declaration, definition: _ } => Some(
                db.item_source(declaration),
            ),
        }
    }
}

} // verus!
