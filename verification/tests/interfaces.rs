use ts_transpiler::ast::{
    EntityName, IndexParam, InterfaceDecl, KeywordKind, PropKey, TsType, TypeElement,
};
use ts_transpiler::classify::{classify_interface, DeclKind};
use ts_transpiler::interface::{handle_interface, Interface, MapInterface};
use ts_transpiler::utils::{ConversionType, Param, TranspileError};

fn keyword(kind: KeywordKind) -> TsType {
    TsType::Keyword(kind)
}

fn named(name: &str) -> TsType {
    TsType::Ref { name: EntityName::Ident(name.to_string()), type_args: None }
}
fn index(name: &str, kind: KeywordKind, ty: TsType) -> TypeElement {
    TypeElement::Index {
        params: vec![IndexParam::Ident {
            name: name.to_string(),
            ty: Some(TsType::Keyword(kind)),
        }],
        ty: Some(ty),
    }
}

fn array(elem: TsType) -> TsType {
    TsType::Array(Box::new(elem))
}

fn property(key: &str, ty: TsType, optional: bool) -> TypeElement {
    TypeElement::Property { key: PropKey::Ident(key.to_string()), ty: Some(ty), optional }
}

fn interface(name: &str, generics: &[&str], members: Vec<TypeElement>) -> InterfaceDecl {
    InterfaceDecl {
        name: name.to_string(),
        generics: generics.iter().map(|g| g.to_string()).collect(),
        members,
    }
}

fn foo() -> InterfaceDecl {
    interface(
        "Foo",
        &[],
        vec![
            property("a", keyword(KeywordKind::Str), false),
            property("b", array(keyword(KeywordKind::Number)), false),
        ],
    )
}

#[test]
fn two_fields_as_rust() {
    assert_eq!(
        handle_interface(&foo(), ConversionType::Rust),
        Ok("#[derive(Debug, Serialize, Deserialize)]\n#[serde(rename_all = \"camelCase\")]\npub struct Foo {\n  a: String,\n  b: Vec<u64>,\n}\n"
            .to_string())
    );
}

#[test]
fn two_fields_as_protobuf() {
    assert_eq!(
        handle_interface(&foo(), ConversionType::Protobuf),
        Ok("message Foo {\n   a string = 1;\n  repeated b int64 = 2;\n}\n".to_string())
    );
}

#[test]
fn record_keeps_every_property_in_order() {
    let decl = interface(
        "Wallet",
        &["T"],
        vec![
            property("walletId", keyword(KeywordKind::Str), false),
            property("balance", named("BigNumber"), true),
            property("isMine", keyword(KeywordKind::Boolean), false),
            property("items", array(named("T")), false),
        ],
    );
    assert_eq!(classify_interface(&decl), DeclKind::Record);
    assert_eq!(
        handle_interface(&decl, ConversionType::Rust),
        Ok("#[derive(Debug, Serialize, Deserialize)]\n#[serde(rename_all = \"camelCase\")]\npub struct Wallet<T> {\n  wallet_id: String,\n  balance: Option<Decimal>,\n  is_mine: bool,\n  items: Vec<T>,\n}\n"
            .to_string())
    );
}

#[test]
fn record_skips_members_that_are_no_properties() {
    let decl = interface(
        "Partly",
        &[],
        vec![
            property("a", keyword(KeywordKind::Str), false),
            TypeElement::Other,
            index("k", KeywordKind::Other, named("V")),
            property("b", TsType::Other, false),
        ],
    );
    assert_eq!(
        handle_interface(&decl, ConversionType::Rust),
        Ok("#[derive(Debug, Serialize, Deserialize)]\n#[serde(rename_all = \"camelCase\")]\npub struct Partly {\n  a: String,\n  b: UNINPLEMENTED TSTYPE FOR PROPERTY INTERFACE,\n}\n"
            .to_string())
    );
}

#[test]
fn record_with_unsupported_keyword_fails() {
    let decl = interface(
        "Bad",
        &[],
        vec![
            property("a", keyword(KeywordKind::Str), false),
            property("b", keyword(KeywordKind::Other), false),
        ],
    );
    assert_eq!(
        handle_interface(&decl, ConversionType::Rust),
        Err(TranspileError::UnsupportedPrimitiveKind)
    );
    assert_eq!(
        handle_interface(&decl, ConversionType::Protobuf),
        Err(TranspileError::UnsupportedPrimitiveKind)
    );
}

#[test]
fn index_signature_as_map() {
    let decl = interface(
        "Foo",
        &[],
        vec![index("key", KeywordKind::Str, keyword(KeywordKind::Number))],
    );
    assert_eq!(classify_interface(&decl), DeclKind::MapRecord);
    assert_eq!(
        handle_interface(&decl, ConversionType::Rust),
        Ok("#[derive(Debug, Serialize, Deserialize)]\npub struct Foo(HashMap<String, u64>);\n"
            .to_string())
    );
}

#[test]
fn generic_index_signature_as_map() {
    let decl = interface(
        "MasternodeResult",
        &["T"],
        vec![index("id", KeywordKind::Str, named("T"))],
    );
    assert_eq!(
        handle_interface(&decl, ConversionType::Rust),
        Ok("#[derive(Debug, Serialize, Deserialize)]\npub struct MasternodeResult<T>(HashMap<String, T>);\n"
            .to_string())
    );
}

#[test]
fn index_signature_with_unsupported_key_fails() {
    let decl = interface(
        "Foo",
        &[],
        vec![index("key", KeywordKind::Other, keyword(KeywordKind::Number))],
    );
    assert_eq!(
        handle_interface(&decl, ConversionType::Rust),
        Err(TranspileError::UnsupportedPrimitiveKind)
    );
}

#[test]
fn empty_interface_as_rust() {
    let decl = interface("Empty", &[], vec![]);
    assert_eq!(classify_interface(&decl), DeclKind::Record);
    assert_eq!(
        handle_interface(&decl, ConversionType::Rust),
        Ok("#[derive(Debug, Serialize, Deserialize)]\n#[serde(rename_all = \"camelCase\")]\npub struct Empty {\n}\n"
            .to_string())
    );
    assert_eq!(
        handle_interface(&decl, ConversionType::Protobuf),
        Ok("message Empty {\n}\n".to_string())
    );
}

#[test]
fn single_property_is_a_record() {
    let decl = interface("One", &[], vec![property("only", named("Thing"), false)]);
    assert_eq!(classify_interface(&decl), DeclKind::Record);
    assert_eq!(
        handle_interface(&decl, ConversionType::Rust),
        Ok("#[derive(Debug, Serialize, Deserialize)]\n#[serde(rename_all = \"camelCase\")]\npub struct One {\n  only: Thing,\n}\n"
            .to_string())
    );
}

#[test]
fn inline_object_gets_the_placeholder_in_rust() {
    let decl = interface(
        "Outer",
        &[],
        vec![property(
            "inner",
            TsType::Lit(vec![property("x", keyword(KeywordKind::Str), false)]),
            false,
        )],
    );
    assert_eq!(classify_interface(&decl), DeclKind::NestedRecord);
    assert_eq!(
        handle_interface(&decl, ConversionType::Rust),
        Ok("#[derive(Debug, Serialize, Deserialize)]\n#[serde(rename_all = \"camelCase\")]\npub struct Outer {\n  inner: UNINPLEMENTED TSTYPE FOR PROPERTY INTERFACE,\n}\n"
            .to_string())
    );
}

#[test]
fn record_written_directly() {
    let record = Interface {
        name: "Pair".to_string(),
        generics: vec!["A".to_string(), "B".to_string()],
        properties: vec![Param {
            prefix: String::new(),
            key: "firstItem".to_string(),
            val: "A".to_string(),
            optional: false,
            conversion_type: ConversionType::Rust,
        }],
        conversion_type: ConversionType::Rust,
    };
    assert_eq!(
        record.fmt_rust(),
        "#[derive(Debug, Serialize, Deserialize)]\n#[serde(rename_all = \"camelCase\")]\npub struct Pair<A, B> {\n  first_item: A,\n}\n"
    );
    assert_eq!(record.fmt_proto(), "message Pair<A B> {\n  first_item: A, = 1;\n}\n");
    assert_eq!(record.to_string(), record.fmt_rust());
}

#[test]
fn map_written_directly() {
    let map = MapInterface {
        prefix: String::new(),
        name: "Table".to_string(),
        generics: vec!["V".to_string()],
        key: "String".to_string(),
        val: "V".to_string(),
    };
    assert_eq!(
        map.to_string(),
        "#[derive(Debug, Serialize, Deserialize)]\npub struct Table<V>(HashMap<String, V>);\n"
    );
}
