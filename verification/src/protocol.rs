//! The source-resolution protocol: one resolution rule per definition kind,
//! unified under a single polymorphic contract.  Modules stand outside the
//! protocol (see `modules`): they have two source nodes at the same time.

use vstd::prelude::*;

use either::Either;

use crate::db::Database;
use crate::ids::{
    Const, ConstParam, Enum, Field, Function, Impl, LifetimeParam, MacroDef, Static, Struct, Trait,
    TypeAlias, TypeParam, Union, Variant,
};
use crate::syntax::{FieldSource, InFile, Node, NodeKind};

verus! {

/// How one entry of a field child-source map reshapes into the field's
/// source-shape choice: left is a positional field, right a named one.
pub open spec fn spec_field_source(e: Either<Node, Node>) -> FieldSource {
    match e {
        Either::Left(n) => FieldSource::Pos(n),
        Either::Right(n) => FieldSource::Named(n),
    }
}

/// The unified resolution protocol.  `source` is the sanctioned entry point;
/// `source_old` is the legacy form kept for callers that assume success, and
/// is by construction the unwrap of `source`, never divergent logic.
pub trait HasSource: Sized + Copy {
    type Ast;

    /// The identifier is one the semantic layer could have handed out against
    /// `db`.
    spec fn valid(self, db: &Database) -> bool;

    /// The resolution rule of this kind, as a function of the identifier and
    /// the database state alone.
    spec fn spec_source(self, db: &Database) -> Option<InFile<Self::Ast>>;

    /// Whether this kind's rule is total: every valid identifier resolves.
    spec fn always_resolves() -> bool;

    /// What it means for a resolved value to lie within the file it claims.
    spec fn ast_in_file(db: &Database, s: InFile<Self::Ast>) -> bool;

    /// Whatever resolves lands inside the file it claims, and a kind whose
    /// rule is total does resolve.
    proof fn lemma_source_in_file(self, db: &Database)
        requires
            db.wf(),
            self.valid(db),
        ensures
            self.spec_source(db) matches Some(s) ==> Self::ast_in_file(db, s),
            Self::always_resolves() ==> self.spec_source(db) is Some,
    ;

    /// Resolves the identifier to the syntax node it was derived from,
    /// tagged with the file that node lives in.
    fn source(self, db: &Database) -> (r: Option<InFile<Self::Ast>>)
        requires
            db.wf(),
            self.valid(db),
        ensures
            r == self.spec_source(db),
    ;

    /// Legacy entry point that assumes resolution succeeds.
    fn source_old(self, db: &Database) -> (r: InFile<Self::Ast>)
        requires
            db.wf(),
            self.valid(db),
            self.spec_source(db) is Some,
        ensures
            Some(r) == self.spec_source(db),
    {
        match self.source(db) {
            Some(src) => src,
            None => vstd::pervasive::unreached(),
        }
    }
}

impl HasSource for Struct {
    type Ast = Node;

    open spec fn valid(self, db: &Database) -> bool {
        db.valid_struct(self)
    }

    open spec fn spec_source(self, db: &Database) -> Option<InFile<Node>> {
        Some(db.spec_item_source(db.structs@[self.id as int].loc))
    }

    open spec fn always_resolves() -> bool {
        true
    }

    open spec fn ast_in_file(db: &Database, s: InFile<Node>) -> bool {
        db.node_in_file(s.file_id, s.value)
    }

    proof fn lemma_source_in_file(self, db: &Database) {
        assert(db.adt_wf(db.structs@[self.id as int], NodeKind::Struct));
        db.lemma_valid_node_in_file(db.structs@[self.id as int].loc);
    }

    fn source(self, db: &Database) -> (r: Option<InFile<Node>>) {
        proof {
            assert(db.adt_wf(db.structs@[self.id as int], NodeKind::Struct));
        }
        let loc = db.structs[self.id as usize].loc;
        Some(db.item_source(loc))
    }
}

impl HasSource for Union {
    type Ast = Node;

    open spec fn valid(self, db: &Database) -> bool {
        db.valid_union(self)
    }

    open spec fn spec_source(self, db: &Database) -> Option<InFile<Node>> {
        Some(db.spec_item_source(db.unions@[self.id as int].loc))
    }

    open spec fn always_resolves() -> bool {
        true
    }

    open spec fn ast_in_file(db: &Database, s: InFile<Node>) -> bool {
        db.node_in_file(s.file_id, s.value)
    }

    proof fn lemma_source_in_file(self, db: &Database) {
        assert(db.adt_wf(db.unions@[self.id as int], NodeKind::Union));
        db.lemma_valid_node_in_file(db.unions@[self.id as int].loc);
    }

    fn source(self, db: &Database) -> (r: Option<InFile<Node>>) {
        proof {
            assert(db.adt_wf(db.unions@[self.id as int], NodeKind::Union));
        }
        let loc = db.unions[self.id as usize].loc;
        Some(db.item_source(loc))
    }
}

impl HasSource for Enum {
    type Ast = Node;

    open spec fn valid(self, db: &Database) -> bool {
        db.valid_enum(self)
    }

    open spec fn spec_source(self, db: &Database) -> Option<InFile<Node>> {
        Some(db.spec_item_source(db.enums@[self.id as int].loc))
    }

    open spec fn always_resolves() -> bool {
        true
    }

    open spec fn ast_in_file(db: &Database, s: InFile<Node>) -> bool {
        db.node_in_file(s.file_id, s.value)
    }

    proof fn lemma_source_in_file(self, db: &Database) {
        assert(db.enum_wf(db.enums@[self.id as int]));
        db.lemma_valid_node_in_file(db.enums@[self.id as int].loc);
    }

    fn source(self, db: &Database) -> (r: Option<InFile<Node>>) {
        proof {
            assert(db.enum_wf(db.enums@[self.id as int]));
        }
        let loc = db.enums[self.id as usize].loc;
        Some(db.item_source(loc))
    }
}

impl HasSource for Variant {
    type Ast = Node;

    open spec fn valid(self, db: &Database) -> bool {
        db.valid_variant(self)
    }

    open spec fn spec_source(self, db: &Database) -> Option<InFile<Node>> {
        let m = db.enums@[self.parent.id as int].variants;
        Some(InFile { file_id: m.file_id, value: m.value@[self.id as int] })
    }

    open spec fn always_resolves() -> bool {
        true
    }

    open spec fn ast_in_file(db: &Database, s: InFile<Node>) -> bool {
        db.node_in_file(s.file_id, s.value)
    }

    proof fn lemma_source_in_file(self, db: &Database) {
        assert(db.enum_wf(db.enums@[self.parent.id as int]));
    }

    fn source(self, db: &Database) -> (r: Option<InFile<Node>>) {
        let src = db.enum_child_source(self.parent);
        Some(InFile { file_id: src.file_id, value: src.value[self.id as usize] })
    }
}

impl HasSource for Function {
    type Ast = Node;

    open spec fn valid(self, db: &Database) -> bool {
        db.valid_function(self)
    }

    open spec fn spec_source(self, db: &Database) -> Option<InFile<Node>> {
        Some(db.spec_item_source(db.functions@[self.id as int]))
    }

    open spec fn always_resolves() -> bool {
        true
    }

    open spec fn ast_in_file(db: &Database, s: InFile<Node>) -> bool {
        db.node_in_file(s.file_id, s.value)
    }

    proof fn lemma_source_in_file(self, db: &Database) {
        assert(db.ast_id_is(db.functions@[self.id as int], NodeKind::Fn));
        db.lemma_valid_node_in_file(db.functions@[self.id as int]);
    }

    fn source(self, db: &Database) -> (r: Option<InFile<Node>>) {
        proof {
            assert(db.ast_id_is(db.functions@[self.id as int], NodeKind::Fn));
        }
        let loc = db.functions[self.id as usize];
        Some(db.item_source(loc))
    }
}

impl HasSource for Const {
    type Ast = Node;

    open spec fn valid(self, db: &Database) -> bool {
        db.valid_const(self)
    }

    open spec fn spec_source(self, db: &Database) -> Option<InFile<Node>> {
        Some(db.spec_item_source(db.consts@[self.id as int]))
    }

    open spec fn always_resolves() -> bool {
        true
    }

    open spec fn ast_in_file(db: &Database, s: InFile<Node>) -> bool {
        db.node_in_file(s.file_id, s.value)
    }

    proof fn lemma_source_in_file(self, db: &Database) {
        assert(db.ast_id_is(db.consts@[self.id as int], NodeKind::Const));
        db.lemma_valid_node_in_file(db.consts@[self.id as int]);
    }

    fn source(self, db: &Database) -> (r: Option<InFile<Node>>) {
        proof {
            assert(db.ast_id_is(db.consts@[self.id as int], NodeKind::Const));
        }
        let loc = db.consts[self.id as usize];
        Some(db.item_source(loc))
    }
}

impl HasSource for Static {
    type Ast = Node;

    open spec fn valid(self, db: &Database) -> bool {
        db.valid_static(self)
    }

    open spec fn spec_source(self, db: &Database) -> Option<InFile<Node>> {
        Some(db.spec_item_source(db.statics@[self.id as int]))
    }

    open spec fn always_resolves() -> bool {
        true
    }

    open spec fn ast_in_file(db: &Database, s: InFile<Node>) -> bool {
        db.node_in_file(s.file_id, s.value)
    }

    proof fn lemma_source_in_file(self, db: &Database) {
        assert(db.ast_id_is(db.statics@[self.id as int], NodeKind::Static));
        db.lemma_valid_node_in_file(db.statics@[self.id as int]);
    }

    fn source(self, db: &Database) -> (r: Option<InFile<Node>>) {
        proof {
            assert(db.ast_id_is(db.statics@[self.id as int], NodeKind::Static));
        }
        let loc = db.statics[self.id as usize];
        Some(db.item_source(loc))
    }
}

impl HasSource for Trait {
    type Ast = Node;

    open spec fn valid(self, db: &Database) -> bool {
        db.valid_trait(self)
    }

    open spec fn spec_source(self, db: &Database) -> Option<InFile<Node>> {
        Some(db.spec_item_source(db.traits@[self.id as int]))
    }

    open spec fn always_resolves() -> bool {
        true
    }

    open spec fn ast_in_file(db: &Database, s: InFile<Node>) -> bool {
        db.node_in_file(s.file_id, s.value)
    }

    proof fn lemma_source_in_file(self, db: &Database) {
        assert(db.ast_id_is(db.traits@[self.id as int], NodeKind::Trait));
        db.lemma_valid_node_in_file(db.traits@[self.id as int]);
    }

    fn source(self, db: &Database) -> (r: Option<InFile<Node>>) {
        proof {
            assert(db.ast_id_is(db.traits@[self.id as int], NodeKind::Trait));
        }
        let loc = db.traits[self.id as usize];
        Some(db.item_source(loc))
    }
}

impl HasSource for TypeAlias {
    type Ast = Node;

    open spec fn valid(self, db: &Database) -> bool {
        db.valid_type_alias(self)
    }

    open spec fn spec_source(self, db: &Database) -> Option<InFile<Node>> {
        Some(db.spec_item_source(db.type_aliases@[self.id as int]))
    }

    open spec fn always_resolves() -> bool {
        true
    }

    open spec fn ast_in_file(db: &Database, s: InFile<Node>) -> bool {
        db.node_in_file(s.file_id, s.value)
    }

    proof fn lemma_source_in_file(self, db: &Database) {
        assert(db.ast_id_is(db.type_aliases@[self.id as int], NodeKind::TypeAlias));
        db.lemma_valid_node_in_file(db.type_aliases@[self.id as int]);
    }

    fn source(self, db: &Database) -> (r: Option<InFile<Node>>) {
        proof {
            assert(db.ast_id_is(db.type_aliases@[self.id as int], NodeKind::TypeAlias));
        }
        let loc = db.type_aliases[self.id as usize];
        Some(db.item_source(loc))
    }
}

impl HasSource for Impl {
    type Ast = Node;

    open spec fn valid(self, db: &Database) -> bool {
        db.valid_impl(self)
    }

    open spec fn spec_source(self, db: &Database) -> Option<InFile<Node>> {
        Some(db.spec_item_source(db.impls@[self.id as int]))
    }

    open spec fn always_resolves() -> bool {
        true
    }

    open spec fn ast_in_file(db: &Database, s: InFile<Node>) -> bool {
        db.node_in_file(s.file_id, s.value)
    }

    proof fn lemma_source_in_file(self, db: &Database) {
        assert(db.ast_id_is(db.impls@[self.id as int], NodeKind::Impl));
        db.lemma_valid_node_in_file(db.impls@[self.id as int]);
    }

    fn source(self, db: &Database) -> (r: Option<InFile<Node>>) {
        proof {
            assert(db.ast_id_is(db.impls@[self.id as int], NodeKind::Impl));
        }
        let loc = db.impls[self.id as usize];
        Some(db.item_source(loc))
    }
}

impl HasSource for MacroDef {
    type Ast = Node;

    open spec fn valid(self, db: &Database) -> bool {
        db.valid_macro_def(self)
    }

    open spec fn spec_source(self, db: &Database) -> Option<InFile<Node>> {
        match db.macro_defs@[self.id as int] {
            Some(a) => Some(db.spec_item_source(a)),
            None => None,
        }
    }

    open spec fn always_resolves() -> bool {
        false
    }

    open spec fn ast_in_file(db: &Database, s: InFile<Node>) -> bool {
        db.node_in_file(s.file_id, s.value)
    }

    proof fn lemma_source_in_file(self, db: &Database) {
        match db.macro_defs@[self.id as int] {
            Some(a) => {
                assert(db.ast_id_is(a, NodeKind::Macro));
                db.lemma_valid_node_in_file(a);
            },
            None => {},
        }
    }

    fn source(self, db: &Database) -> (r: Option<InFile<Node>>) {
        match db.macro_defs[self.id as usize] {
            Some(ast_id) => {
                proof {
                    assert(db.ast_id_is(db.macro_defs@[self.id as int].unwrap(), NodeKind::Macro));
                }
                Some(db.item_source(ast_id))
            },
            None => None,
        }
    }
}

impl HasSource for TypeParam {
    type Ast = Either<Node, Node>;

    open spec fn valid(self, db: &Database) -> bool {
        db.valid_type_param(self)
    }

    open spec fn spec_source(self, db: &Database) -> Option<InFile<Either<Node, Node>>> {
        let g = db.generic_defs@[self.parent.id as int];
        Some(InFile { file_id: g.file_id, value: g.type_params@[self.local_id as int] })
    }

    open spec fn always_resolves() -> bool {
        true
    }

    open spec fn ast_in_file(db: &Database, s: InFile<Either<Node, Node>>) -> bool {
        match s.value {
            Either::Left(n) => db.node_in_file(s.file_id, n),
            Either::Right(n) => db.node_in_file(s.file_id, n),
        }
    }

    proof fn lemma_source_in_file(self, db: &Database) {
        let g = db.generic_defs@[self.parent.id as int];
        assert(db.generic_def_wf(g));
        assert((self.local_id as int) < g.type_params@.len());
    }

    fn source(self, db: &Database) -> (r: Option<InFile<Either<Node, Node>>>) {
        let g = db.generic_child_source(self.parent);
        Some(InFile { file_id: g.file_id, value: g.type_params[self.local_id as usize] })
    }
}

impl HasSource for LifetimeParam {
    type Ast = Node;

    open spec fn valid(self, db: &Database) -> bool {
        db.valid_lifetime_param(self)
    }

    open spec fn spec_source(self, db: &Database) -> Option<InFile<Node>> {
        let g = db.generic_defs@[self.parent.id as int];
        Some(InFile { file_id: g.file_id, value: g.lifetime_params@[self.local_id as int] })
    }

    open spec fn always_resolves() -> bool {
        true
    }

    open spec fn ast_in_file(db: &Database, s: InFile<Node>) -> bool {
        db.node_in_file(s.file_id, s.value)
    }

    proof fn lemma_source_in_file(self, db: &Database) {
        let g = db.generic_defs@[self.parent.id as int];
        assert(db.generic_def_wf(g));
        assert((self.local_id as int) < g.lifetime_params@.len());
    }

    fn source(self, db: &Database) -> (r: Option<InFile<Node>>) {
        let g = db.generic_child_source(self.parent);
        Some(InFile { file_id: g.file_id, value: g.lifetime_params[self.local_id as usize] })
    }
}

impl HasSource for ConstParam {
    type Ast = Node;

    open spec fn valid(self, db: &Database) -> bool {
        db.valid_const_param(self)
    }

    open spec fn spec_source(self, db: &Database) -> Option<InFile<Node>> {
        let g = db.generic_defs@[self.parent.id as int];
        Some(InFile { file_id: g.file_id, value: g.const_params@[self.local_id as int] })
    }

    open spec fn always_resolves() -> bool {
        true
    }

    open spec fn ast_in_file(db: &Database, s: InFile<Node>) -> bool {
        db.node_in_file(s.file_id, s.value)
    }

    proof fn lemma_source_in_file(self, db: &Database) {
        let g = db.generic_defs@[self.parent.id as int];
        assert(db.generic_def_wf(g));
        assert((self.local_id as int) < g.const_params@.len());
    }

    fn source(self, db: &Database) -> (r: Option<InFile<Node>>) {
        let g = db.generic_child_source(self.parent);
        Some(InFile { file_id: g.file_id, value: g.const_params[self.local_id as usize] })
    }
}

impl HasSource for Field {
    type Ast = FieldSource;

    open spec fn valid(self, db: &Database) -> bool {
        db.valid_field(self)
    }

    open spec fn spec_source(self, db: &Database) -> Option<InFile<FieldSource>> {
        let m = db.spec_variant_field_map(self.parent);
        Some(InFile { file_id: m.file_id, value: spec_field_source(m.value@[self.id as int]) })
    }

    open spec fn always_resolves() -> bool {
        true
    }

    open spec fn ast_in_file(db: &Database, s: InFile<FieldSource>) -> bool {
        match s.value {
            FieldSource::Pos(n) => db.node_in_file(s.file_id, n),
            FieldSource::Named(n) => db.node_in_file(s.file_id, n),
        }
    }

    proof fn lemma_source_in_file(self, db: &Database) {
        let m = db.spec_variant_field_map(self.parent);
        db.lemma_variant_field_map_wf(self.parent);
        assert(db.field_entry_wf(m.file_id, m.value@[self.id as int]));
    }

    fn source(self, db: &Database) -> (r: Option<InFile<FieldSource>>) {
        let src = db.variant_child_source(self.parent);
        let value = match src.value[self.id as usize] {
            Either::Left(n) => FieldSource::Pos(n),
            Either::Right(n) => FieldSource::Named(n),
        };
        Some(InFile { file_id: src.file_id, value })
    }
}

} // verus!
