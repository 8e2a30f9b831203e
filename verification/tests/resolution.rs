use either::Either;

use hir_source::db::{
    AdtData, CrateDefMap, Database, EnumData, FileData, GenericDefData, ModuleData, ModuleOrigin,
    VariantData,
};
use hir_source::ids;
use hir_source::protocol::HasSource;
use hir_source::syntax::{
    AstId, FieldSource, HirFileId, InFile, ModuleSource, Node, NodeKind, TextRange,
};

fn node(kind: NodeKind, start: u32, end: u32) -> Node {
    Node {
        kind,
        range: TextRange { start, end },
    }
}

fn empty_db() -> Database {
    Database {
        real_files: Vec::new(),
        macro_files: Vec::new(),
        structs: Vec::new(),
        unions: Vec::new(),
        enums: Vec::new(),
        functions: Vec::new(),
        consts: Vec::new(),
        statics: Vec::new(),
        traits: Vec::new(),
        type_aliases: Vec::new(),
        impls: Vec::new(),
        macro_defs: Vec::new(),
        generic_defs: Vec::new(),
        crates: Vec::new(),
    }
}

fn ast_id(file: u32, idx: usize) -> AstId {
    AstId {
        file_id: HirFileId::Real(file),
        idx,
    }
}

#[test]
fn simple_owned_kinds_resolve_to_their_node() {
    let mut db = empty_db();
    db.real_files.push(FileData {
        text_len: 100,
        nodes: vec![
            node(NodeKind::Struct, 0, 10),
            node(NodeKind::Union, 11, 20),
            node(NodeKind::Enum, 21, 30),
            node(NodeKind::Fn, 31, 40),
            node(NodeKind::Const, 41, 50),
            node(NodeKind::Static, 51, 60),
            node(NodeKind::Trait, 61, 70),
            node(NodeKind::TypeAlias, 71, 80),
            node(NodeKind::Impl, 81, 90),
        ],
    });
    db.structs.push(AdtData {
        loc: ast_id(0, 0),
        fields: InFile {
            file_id: HirFileId::Real(0),
            value: Vec::new(),
        },
    });
    db.unions.push(AdtData {
        loc: ast_id(0, 1),
        fields: InFile {
            file_id: HirFileId::Real(0),
            value: Vec::new(),
        },
    });
    db.enums.push(EnumData {
        loc: ast_id(0, 2),
        variants: InFile {
            file_id: HirFileId::Real(0),
            value: Vec::new(),
        },
        variant_fields: Vec::new(),
    });
    db.functions.push(ast_id(0, 3));
    db.consts.push(ast_id(0, 4));
    db.statics.push(ast_id(0, 5));
    db.traits.push(ast_id(0, 6));
    db.type_aliases.push(ast_id(0, 7));
    db.impls.push(ast_id(0, 8));

    let file = HirFileId::Real(0);
    assert_eq!(
        ids::Struct { id: 0 }.source(&db),
        Some(InFile {
            file_id: file,
            value: node(NodeKind::Struct, 0, 10)
        })
    );
    assert_eq!(
        ids::Union { id: 0 }.source(&db),
        Some(InFile {
            file_id: file,
            value: node(NodeKind::Union, 11, 20)
        })
    );
    assert_eq!(
        ids::Enum { id: 0 }.source(&db),
        Some(InFile {
            file_id: file,
            value: node(NodeKind::Enum, 21, 30)
        })
    );
    assert_eq!(
        ids::Function { id: 0 }.source(&db),
        Some(InFile {
            file_id: file,
            value: node(NodeKind::Fn, 31, 40)
        })
    );
    assert_eq!(
        ids::Const { id: 0 }.source(&db),
        Some(InFile {
            file_id: file,
            value: node(NodeKind::Const, 41, 50)
        })
    );
    assert_eq!(
        ids::Static { id: 0 }.source(&db),
        Some(InFile {
            file_id: file,
            value: node(NodeKind::Static, 51, 60)
        })
    );
    assert_eq!(
        ids::Trait { id: 0 }.source(&db),
        Some(InFile {
            file_id: file,
            value: node(NodeKind::Trait, 61, 70)
        })
    );
    assert_eq!(
        ids::TypeAlias { id: 0 }.source(&db),
        Some(InFile {
            file_id: file,
            value: node(NodeKind::TypeAlias, 71, 80)
        })
    );
    assert_eq!(
        ids::Impl { id: 0 }.source(&db),
        Some(InFile {
            file_id: file,
            value: node(NodeKind::Impl, 81, 90)
        })
    );

    // The legacy entry point is the unwrap of the checked one.
    assert_eq!(
        ids::Struct { id: 0 }.source_old(&db),
        ids::Struct { id: 0 }.source(&db).unwrap()
    );

    // Every claimed range lies within the file's text.
    let s = ids::Struct { id: 0 }.source(&db).unwrap();
    assert!(s.value.range.end <= db.real_files[0].text_len);
}

#[test]
fn record_struct_field_resolves_to_named_shape() {
    // struct P { x: i32 }
    let mut db = empty_db();
    db.real_files.push(FileData {
        text_len: 21,
        nodes: vec![node(NodeKind::Struct, 0, 21)],
    });
    db.structs.push(AdtData {
        loc: ast_id(0, 0),
        fields: InFile {
            file_id: HirFileId::Real(0),
            value: vec![Either::Right(node(NodeKind::RecordField, 11, 17))],
        },
    });
    let field = ids::Field {
        parent: ids::VariantDef::Struct(ids::Struct { id: 0 }),
        id: 0,
    };
    let src = field.source(&db).unwrap();
    assert_eq!(src.file_id, HirFileId::Real(0));
    assert_eq!(src.value, FieldSource::Named(node(NodeKind::RecordField, 11, 17)));
}

#[test]
fn tuple_struct_field_resolves_to_positional_shape() {
    // struct Q(i32);
    let mut db = empty_db();
    db.real_files.push(FileData {
        text_len: 14,
        nodes: vec![node(NodeKind::Struct, 0, 14)],
    });
    db.structs.push(AdtData {
        loc: ast_id(0, 0),
        fields: InFile {
            file_id: HirFileId::Real(0),
            value: vec![Either::Left(node(NodeKind::TupleField, 9, 12))],
        },
    });
    let field = ids::Field {
        parent: ids::VariantDef::Struct(ids::Struct { id: 0 }),
        id: 0,
    };
    let src = field.source(&db).unwrap();
    assert_eq!(src.value, FieldSource::Pos(node(NodeKind::TupleField, 9, 12)));
}

#[test]
fn field_resolution_agrees_with_manual_child_map_lookup() {
    let mut db = empty_db();
    db.real_files.push(FileData {
        text_len: 50,
        nodes: vec![node(NodeKind::Struct, 0, 50)],
    });
    db.structs.push(AdtData {
        loc: ast_id(0, 0),
        fields: InFile {
            file_id: HirFileId::Real(0),
            value: vec![
                Either::Right(node(NodeKind::RecordField, 10, 20)),
                Either::Right(node(NodeKind::RecordField, 22, 32)),
            ],
        },
    });
    let parent = ids::VariantDef::Struct(ids::Struct { id: 0 });
    for ordinal in 0..2u32 {
        let field = ids::Field { parent, id: ordinal };
        let via_protocol = field.source(&db).unwrap();
        let map = db.variant_child_source(parent);
        let manual = match map.value[ordinal as usize] {
            Either::Left(n) => FieldSource::Pos(n),
            Either::Right(n) => FieldSource::Named(n),
        };
        assert_eq!(via_protocol.file_id, map.file_id);
        assert_eq!(via_protocol.value, manual);
    }
}

#[test]
fn enum_variant_and_its_field_resolve_through_parent_maps() {
    let mut db = empty_db();
    db.real_files.push(FileData {
        text_len: 60,
        nodes: vec![node(NodeKind::Enum, 0, 60)],
    });
    db.enums.push(EnumData {
        loc: ast_id(0, 0),
        variants: InFile {
            file_id: HirFileId::Real(0),
            value: vec![
                node(NodeKind::Variant, 10, 20),
                node(NodeKind::Variant, 22, 40),
            ],
        },
        variant_fields: vec![
            VariantData {
                fields: InFile {
                    file_id: HirFileId::Real(0),
                    value: Vec::new(),
                },
            },
            VariantData {
                fields: InFile {
                    file_id: HirFileId::Real(0),
                    value: vec![Either::Left(node(NodeKind::TupleField, 30, 35))],
                },
            },
        ],
    });
    let variant = ids::Variant {
        parent: ids::Enum { id: 0 },
        id: 1,
    };
    assert_eq!(
        variant.source(&db),
        Some(InFile {
            file_id: HirFileId::Real(0),
            value: node(NodeKind::Variant, 22, 40)
        })
    );
    // Manual lookup through the enum's own child-source map agrees.
    let map = db.enum_child_source(ids::Enum { id: 0 });
    assert_eq!(variant.source(&db).unwrap().value, map.value[1]);

    let field = ids::Field {
        parent: ids::VariantDef::Variant(variant),
        id: 0,
    };
    assert_eq!(
        field.source(&db).unwrap().value,
        FieldSource::Pos(node(NodeKind::TupleField, 30, 35))
    );
}

#[test]
fn macro_def_without_ast_id_resolves_to_none() {
    let mut db = empty_db();
    db.macro_defs.push(None);
    assert_eq!(ids::MacroDef { id: 0 }.source(&db), None);
}

#[test]
fn macro_def_with_ast_id_resolves_to_its_node() {
    let mut db = empty_db();
    db.real_files.push(FileData {
        text_len: 40,
        nodes: vec![node(NodeKind::Macro, 0, 33)],
    });
    db.macro_defs.push(Some(ast_id(0, 0)));
    assert_eq!(
        ids::MacroDef { id: 0 }.source(&db),
        Some(InFile {
            file_id: HirFileId::Real(0),
            value: node(NodeKind::Macro, 0, 33)
        })
    );
}

#[test]
fn macro_expansion_file_identity_is_kept_apart_from_real_files() {
    let mut db = empty_db();
    // One real file and one expansion-generated virtual file, each with its
    // own node table.
    db.real_files.push(FileData {
        text_len: 10,
        nodes: vec![node(NodeKind::Macro, 0, 9)],
    });
    db.macro_files.push(FileData {
        text_len: 30,
        nodes: vec![node(NodeKind::Macro, 2, 28)],
    });
    db.macro_defs.push(Some(AstId {
        file_id: HirFileId::MacroExpansion(0),
        idx: 0,
    }));
    let src = ids::MacroDef { id: 0 }.source(&db).unwrap();
    assert_eq!(src.file_id, HirFileId::MacroExpansion(0));
    assert_eq!(src.value, node(NodeKind::Macro, 2, 28));
}

#[test]
fn type_param_resolves_to_trait_self_or_explicit_node() {
    let mut db = empty_db();
    db.real_files.push(FileData {
        text_len: 80,
        nodes: Vec::new(),
    });
    db.generic_defs.push(GenericDefData {
        file_id: HirFileId::Real(0),
        type_params: vec![
            // The trait's implicit `Self` parameter: the trait node itself.
            Either::Left(node(NodeKind::Trait, 0, 70)),
            // An ordinary declared type parameter.
            Either::Right(node(NodeKind::TypeParam, 12, 13)),
        ],
        lifetime_params: vec![node(NodeKind::LifetimeParam, 8, 10)],
        const_params: vec![node(NodeKind::ConstParam, 15, 25)],
    });
    let parent = ids::GenericDef { id: 0 };

    let implicit_self = ids::TypeParam {
        parent,
        local_id: 0,
    };
    assert_eq!(
        implicit_self.source(&db).unwrap().value,
        Either::Left(node(NodeKind::Trait, 0, 70))
    );

    let explicit = ids::TypeParam {
        parent,
        local_id: 1,
    };
    assert_eq!(
        explicit.source(&db).unwrap().value,
        Either::Right(node(NodeKind::TypeParam, 12, 13))
    );

    let lifetime = ids::LifetimeParam {
        parent,
        local_id: 0,
    };
    assert_eq!(
        lifetime.source(&db).unwrap().value,
        node(NodeKind::LifetimeParam, 8, 10)
    );

    let const_param = ids::ConstParam {
        parent,
        local_id: 0,
    };
    assert_eq!(
        const_param.source(&db).unwrap().value,
        node(NodeKind::ConstParam, 15, 25)
    );
}

/// A crate with three modules: the root (file 0), `mod foo;` backed by file 1,
/// and an inline `mod bar { fn f() {} }` in file 0.
fn module_db() -> Database {
    let mut db = empty_db();
    db.real_files.push(FileData {
        text_len: 100,
        nodes: vec![
            node(NodeKind::Module, 0, 8),     // `mod foo;`
            node(NodeKind::Module, 10, 34),   // `mod bar { fn f() {} }`
            node(NodeKind::ItemList, 40, 60), // the body of `mod bar`
        ],
    });
    db.real_files.push(FileData {
        text_len: 55,
        nodes: Vec::new(),
    });
    db.crates.push(CrateDefMap {
        modules: vec![
            ModuleData {
                origin: ModuleOrigin::CrateRoot { definition_file: 0 },
            },
            ModuleData {
                origin: ModuleOrigin::File {
                    is_mod_rs: true,
                    declaration: ast_id(0, 0),
                    definition_file: 1,
                },
            },
            ModuleData {
                origin: ModuleOrigin::Inline {
                    declaration: ast_id(0, 1),
                    definition: ast_id(0, 2),
                },
            },
        ],
    });
    db
}

#[test]
fn crate_root_has_definition_but_no_declaration() {
    let db = module_db();
    let root = ids::Module {
        krate: 0,
        local_id: 0,
    };
    assert_eq!(root.declaration_source(&db), None);
    assert_eq!(
        root.definition_source(&db),
        InFile {
            file_id: HirFileId::Real(0),
            value: ModuleSource::SourceFile(node(NodeKind::SourceFile, 0, 100)),
        }
    );
    assert!(!root.is_mod_rs(&db));
}

#[test]
fn file_backed_module_declared_in_parent_defined_by_own_file() {
    let db = module_db();
    let foo = ids::Module {
        krate: 0,
        local_id: 1,
    };
    // `mod foo;` in the parent file.
    assert_eq!(
        foo.declaration_source(&db),
        Some(InFile {
            file_id: HirFileId::Real(0),
            value: node(NodeKind::Module, 0, 8),
        })
    );
    // The root of `foo.rs` supplies the contents.
    assert_eq!(
        foo.definition_source(&db),
        InFile {
            file_id: HirFileId::Real(1),
            value: ModuleSource::SourceFile(node(NodeKind::SourceFile, 0, 55)),
        }
    );
    assert!(foo.is_mod_rs(&db));
}

#[test]
fn inline_module_sources_share_a_file_at_distinct_ranges() {
    let db = module_db();
    let bar = ids::Module {
        krate: 0,
        local_id: 2,
    };
    let declaration = bar.declaration_source(&db).unwrap();
    let definition = bar.definition_source(&db);
    assert_eq!(declaration.file_id, definition.file_id);
    let body = match definition.value {
        ModuleSource::Module(n) => n,
        ModuleSource::SourceFile(_) => panic!("inline module defined by a file root"),
    };
    // Different, non-overlapping node ranges.
    assert_ne!(declaration.value.range, body.range);
    assert!(
        declaration.value.range.end <= body.range.start
            || body.range.end <= declaration.value.range.start
    );
    assert!(!bar.is_mod_rs(&db));
}

#[test]
fn resolving_twice_against_unchanged_state_gives_identical_results() {
    let db = module_db();
    let bar = ids::Module {
        krate: 0,
        local_id: 2,
    };
    assert_eq!(bar.declaration_source(&db), bar.declaration_source(&db));
    assert_eq!(bar.definition_source(&db), bar.definition_source(&db));

    let mut db2 = empty_db();
    db2.real_files.push(FileData {
        text_len: 9,
        nodes: vec![node(NodeKind::Fn, 0, 9)],
    });
    db2.functions.push(ast_id(0, 0));
    let f = ids::Function { id: 0 };
    let first = f.source(&db2);
    let second = f.source(&db2);
    assert_eq!(first, second);
    assert_eq!(
        first.unwrap().file_id,
        second.unwrap().file_id
    );
}

#[test]
fn in_file_map_reshapes_value_and_keeps_file_tag() {
    let located = InFile::new(HirFileId::MacroExpansion(7), node(NodeKind::Fn, 3, 9));
    let reshaped = located.map(|n: Node| n.range);
    assert_eq!(reshaped.file_id, HirFileId::MacroExpansion(7));
    assert_eq!(reshaped.value, TextRange { start: 3, end: 9 });
}
