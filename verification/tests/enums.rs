use ts_transpiler::ast::{EnumDecl, EnumMember};
use ts_transpiler::enums::{build_enum, handle_enum};

fn ident(name: &str) -> EnumMember {
    EnumMember::Ident(name.to_string())
}

#[test]
fn enum_as_rust() {
    let decl = EnumDecl {
        name: "Color".to_string(),
        members: vec![ident("red"), ident("darkGreen"), ident("LIGHT_BLUE")],
    };
    assert_eq!(
        handle_enum(&decl),
        "#[derive(Debug, Serialize, Deserialize)]\npub enum Color {\n\tRed\n\tDarkGreen\n\tLightBlue\n}\n"
    );
}

#[test]
fn enum_as_protobuf() {
    let decl = EnumDecl {
        name: "Color".to_string(),
        members: vec![ident("red"), ident("darkGreen")],
    };
    assert_eq!(
        build_enum(&decl).fmt_proto(),
        "enum Color {\n  Red = 1;\n  DarkGreen = 2;\n}\n"
    );
}

#[test]
fn enum_keeps_every_identifier_in_order() {
    let names = ["a", "b", "c", "d", "e", "f", "g", "h", "i", "j", "k", "l"];
    let decl = EnumDecl {
        name: "Letters".to_string(),
        members: names.iter().map(|n| ident(n)).collect(),
    };
    let ir = build_enum(&decl);
    assert_eq!(ir.name, "Letters");
    assert_eq!(ir.members.len(), names.len());
    assert_eq!(ir.members, vec!["A", "B", "C", "D", "E", "F", "G", "H", "I", "J", "K", "L"]);
    assert!(build_enum(&decl).fmt_proto().contains("  L = 12;\n"));
}

#[test]
fn enum_leaves_out_string_named_members() {
    let decl = EnumDecl {
        name: "Mixed".to_string(),
        members: vec![ident("one"), EnumMember::Str("two words".to_string()), ident("three")],
    };
    assert_eq!(build_enum(&decl).members, vec!["One", "Three"]);
}

#[test]
fn enum_without_members() {
    let decl = EnumDecl { name: "Nothing".to_string(), members: vec![] };
    assert_eq!(
        handle_enum(&decl),
        "#[derive(Debug, Serialize, Deserialize)]\npub enum Nothing {\n}\n"
    );
}

#[test]
fn enum_twice_gives_the_same_text() {
    let decl = EnumDecl {
        name: "Color".to_string(),
        members: vec![ident("red"), ident("darkGreen")],
    };
    assert_eq!(handle_enum(&decl), handle_enum(&decl));
    assert_eq!(build_enum(&decl).fmt_proto(), build_enum(&decl).fmt_proto());
}
