use ts_transpiler::ast::{
    ClassDecl, ClassMember, Decl, EnumDecl, EnumMember, IndexParam, InterfaceDecl, KeywordKind,
    Module, ModuleItem, PropKey, TsType, TypeElement,
};
use ts_transpiler::classify::{classify, DeclKind};
use ts_transpiler::transpilers::proto::transpiler::ProtoTranspiler;
use ts_transpiler::transpilers::rust::transpiler::RustTranspiler;
use ts_transpiler::transpilers::{choose_transpiler, transpiler_factory, Transpiler};
use ts_transpiler::utils::TranspileError;

fn foo() -> InterfaceDecl {
    InterfaceDecl {
        name: "Foo".to_string(),
        generics: vec![],
        members: vec![
            TypeElement::Property {
                key: PropKey::Ident("a".to_string()),
                ty: Some(TsType::Keyword(KeywordKind::Str)),
                optional: false,
            },
            TypeElement::Property {
                key: PropKey::Ident("b".to_string()),
                ty: Some(TsType::Array(Box::new(TsType::Keyword(KeywordKind::Number)))),
                optional: false,
            },
        ],
    }
}

fn color() -> EnumDecl {
    EnumDecl {
        name: "Color".to_string(),
        members: vec![EnumMember::Ident("red".to_string()), EnumMember::Ident("green".to_string())],
    }
}

fn hidden() -> InterfaceDecl {
    InterfaceDecl { name: "Hidden".to_string(), generics: vec![], members: vec![] }
}

fn module() -> Module {
    Module {
        body: vec![
            ModuleItem { exported: true, decl: Decl::Enum(color()) },
            ModuleItem { exported: false, decl: Decl::Interface(hidden()) },
            ModuleItem { exported: true, decl: Decl::Other },
            ModuleItem { exported: true, decl: Decl::Interface(foo()) },
            ModuleItem {
                exported: true,
                decl: Decl::Class(ClassDecl { name: "Api".to_string(), body: vec![ClassMember::Other] }),
            },
        ],
    }
}

fn broken() -> Module {
    let bad = InterfaceDecl {
        name: "Bad".to_string(),
        generics: vec![],
        members: vec![TypeElement::Property {
            key: PropKey::Ident("a".to_string()),
            ty: Some(TsType::Keyword(KeywordKind::Other)),
            optional: false,
        }],
    };
    Module {
        body: vec![
            ModuleItem { exported: true, decl: Decl::Interface(foo()) },
            ModuleItem { exported: true, decl: Decl::Interface(bad) },
        ],
    }
}

#[test]
fn kinds_of_declarations() {
    assert_eq!(classify(&Decl::Enum(color())), Some(DeclKind::Enum));
    assert_eq!(
        classify(&Decl::Class(ClassDecl { name: "Api".to_string(), body: vec![] })),
        Some(DeclKind::ServiceClass)
    );
    assert_eq!(classify(&Decl::Interface(foo())), Some(DeclKind::Record));
    assert_eq!(classify(&Decl::Interface(hidden())), Some(DeclKind::Record));
    assert_eq!(classify(&Decl::Other), None);
    let map = InterfaceDecl {
        name: "M".to_string(),
        generics: vec![],
        members: vec![TypeElement::Index {
            params: vec![IndexParam::Ident {
                name: "k".to_string(),
                ty: Some(TsType::Keyword(KeywordKind::Str)),
            }],
            ty: Some(TsType::Other),
        }],
    };
    assert_eq!(classify(&Decl::Interface(map)), Some(DeclKind::MapRecord));
    let nested = InterfaceDecl {
        name: "N".to_string(),
        generics: vec![],
        members: vec![TypeElement::Property {
            key: PropKey::Ident("inner".to_string()),
            ty: Some(TsType::Lit(vec![])),
            optional: false,
        }],
    };
    assert_eq!(classify(&Decl::Interface(nested)), Some(DeclKind::NestedRecord));
    let other = InterfaceDecl {
        name: "O".to_string(),
        generics: vec![],
        members: vec![TypeElement::Other],
    };
    assert_eq!(classify(&Decl::Interface(other)), Some(DeclKind::Record));
    let keyless = InterfaceDecl {
        name: "K".to_string(),
        generics: vec![],
        members: vec![TypeElement::Index { params: vec![], ty: Some(TsType::Other) }],
    };
    assert_eq!(classify(&Decl::Interface(keyless)), Some(DeclKind::Record));
    let computed = InterfaceDecl {
        name: "C".to_string(),
        generics: vec![],
        members: vec![TypeElement::Property {
            key: PropKey::Other,
            ty: Some(TsType::Lit(vec![])),
            optional: false,
        }],
    };
    assert_eq!(classify(&Decl::Interface(computed)), Some(DeclKind::Record));
}

#[test]
fn module_as_rust() {
    assert_eq!(
        RustTranspiler::new(module()).transpile(),
        Ok(vec![
            "#[derive(Debug, Serialize, Deserialize)]\npub enum Color {\n\tRed\n\tGreen\n}\n"
                .to_string(),
            "#[derive(Debug, Serialize, Deserialize)]\n#[serde(rename_all = \"camelCase\")]\npub struct Foo {\n  a: String,\n  b: Vec<u64>,\n}\n"
                .to_string(),
            String::new(),
        ])
    );
}

#[test]
fn module_as_protobuf() {
    assert_eq!(
        ProtoTranspiler::new(module()).transpile(),
        Ok(vec![
            "enum Color {\n  Red = 1;\n  Green = 2;\n}\n".to_string(),
            "message Foo {\n  string a = 1;\n  repeated int64 b = 2;\n}\n".to_string(),
            String::new(),
        ])
    );
}

#[test]
fn empty_module() {
    assert_eq!(RustTranspiler::new(Module { body: vec![] }).transpile(), Ok(vec![]));
    assert_eq!(ProtoTranspiler::new(Module { body: vec![] }).transpile(), Ok(vec![]));
}

#[test]
fn error_ends_the_run() {
    assert_eq!(
        RustTranspiler::new(broken()).transpile(),
        Err(TranspileError::UnsupportedPrimitiveKind)
    );
    assert_eq!(
        ProtoTranspiler::new(broken()).transpile(),
        Err(TranspileError::UnsupportedPrimitiveKind)
    );
}

#[test]
fn single_items() {
    let hidden_item = ModuleItem { exported: false, decl: Decl::Enum(color()) };
    assert_eq!(RustTranspiler::transpile_item(&hidden_item), Ok(None));
    assert_eq!(ProtoTranspiler::transpile_item(&hidden_item), Ok(None));
    let shown = ModuleItem { exported: true, decl: Decl::Enum(color()) };
    assert_eq!(
        ProtoTranspiler::transpile_item(&shown),
        Ok(Some("enum Color {\n  Red = 1;\n  Green = 2;\n}\n".to_string()))
    );
}

#[test]
fn backend_by_name() {
    assert!(matches!(transpiler_factory(module(), "proto".to_string()), Transpiler::Proto(_)));
    assert!(matches!(transpiler_factory(module(), "PROTO".to_string()), Transpiler::Proto(_)));
    assert!(matches!(transpiler_factory(module(), "Proto".to_string()), Transpiler::Proto(_)));
    assert!(matches!(transpiler_factory(module(), "rust".to_string()), Transpiler::Rust(_)));
    assert!(matches!(transpiler_factory(module(), "".to_string()), Transpiler::Rust(_)));
    assert!(matches!(transpiler_factory(module(), "protobuf".to_string()), Transpiler::Rust(_)));
}

#[test]
fn backend_by_lowered_name() {
    assert!(matches!(choose_transpiler(module(), "proto"), Transpiler::Proto(_)));
    assert!(matches!(choose_transpiler(module(), "PROTO"), Transpiler::Rust(_)));
    assert!(matches!(choose_transpiler(module(), "anything"), Transpiler::Rust(_)));
}

#[test]
fn chosen_backend_writes_the_module() {
    assert_eq!(
        transpiler_factory(module(), "proto".to_string()).transpile(),
        ProtoTranspiler::new(module()).transpile()
    );
    assert_eq!(
        transpiler_factory(module(), "other".to_string()).transpile(),
        RustTranspiler::new(module()).transpile()
    );
}

#[test]
fn blocks_as_one_text() {
    let blocks = ProtoTranspiler::new(module()).transpile().unwrap();
    assert_eq!(
        ts_transpiler::transpilers::join_blocks(&blocks),
        "enum Color {\n  Red = 1;\n  Green = 2;\n}\n\nmessage Foo {\n  string a = 1;\n  repeated int64 b = 2;\n}\n\n"
    );
    assert_eq!(ts_transpiler::transpilers::join_blocks(&vec![]), "");
}
