use ts_transpiler::ast::{
    ClassDecl, ClassMember, ClassMethod, EntityName, Expr, Function, KeywordKind, MemberProp,
    ParamPat, PropName, Stmt, TsType,
};
use ts_transpiler::class::{
    build_method, get_cmd_args, handle_class, into_arg, member_into_arg, unwrap_statement,
    MethodIR,
};
use ts_transpiler::utils::{ConversionType, Param, TranspileError};

fn named(name: &str) -> TsType {
    TsType::Ref { name: EntityName::Ident(name.to_string()), type_args: None }
}

fn promise(of: TsType) -> TsType {
    TsType::Ref { name: EntityName::Ident("Promise".to_string()), type_args: Some(vec![of]) }
}

fn array(elem: TsType) -> TsType {
    TsType::Array(Box::new(elem))
}

fn ident(name: &str) -> Option<Expr> {
    Some(Expr::Ident(name.to_string()))
}

fn member(obj: &str, prop: &str) -> Option<Expr> {
    Some(Expr::Member {
        obj: Box::new(Expr::Ident(obj.to_string())),
        prop: MemberProp::Ident(prop.to_string()),
    })
}

fn text(s: &str) -> Expr {
    Expr::Str(s.to_string())
}

fn return_await(args: Vec<Expr>) -> Stmt {
    Stmt::Return(Some(Expr::Await(Box::new(Expr::Call { args }))))
}

fn call(command: &str, elems: Vec<Option<Expr>>) -> Stmt {
    return_await(vec![text(command), Expr::Array(elems)])
}

fn param(name: &str, ty: TsType) -> ParamPat {
    ParamPat::Ident { name: name.to_string(), optional: false, ty: Some(ty) }
}

fn defaulted(name: &str, ty: TsType) -> ParamPat {
    ParamPat::Assign { left: Box::new(param(name, ty)) }
}

fn method(name: &str, function: Function) -> ClassMember {
    ClassMember::Method(ClassMethod { key: PropName::Ident(name.to_string()), function })
}

fn get_info() -> Function {
    Function {
        params: vec![param("walletId", TsType::Keyword(KeywordKind::Str))],
        body: Some(vec![call("getinfo", vec![ident("walletId")])]),
        return_type: Some(promise(named("WalletInfo"))),
    }
}

fn list_unspent() -> Function {
    Function {
        params: vec![
            param("minConf", TsType::Keyword(KeywordKind::Number)),
            ParamPat::Other,
            defaulted("utxos", array(named("Utxo"))),
            defaulted("ignored", named("Utxo")),
            param("alsoIgnored", TsType::Other),
            ParamPat::Ident { name: "untyped".to_string(), optional: false, ty: None },
            ParamPat::Assign { left: Box::new(ParamPat::Other) },
        ],
        body: Some(vec![
            Stmt::Other,
            Stmt::Return(None),
            Stmt::Return(Some(Expr::Ident("x".to_string()))),
            Stmt::Return(Some(Expr::Await(Box::new(Expr::Ident("x".to_string()))))),
            call(
                "listunspent",
                vec![
                    ident("minConf"),
                    Some(Expr::Other),
                    ident("utxos"),
                    member("queryOptions", "maxCount"),
                ],
            ),
        ]),
        return_type: Some(promise(array(named("Utxo")))),
    }
}

fn build(name: &str, function: &Function, ct: ConversionType) -> Result<MethodIR, TranspileError> {
    build_method(&name.to_string(), function, ct)
}

#[test]
fn command_and_arguments() {
    let args = vec![text("getinfo"), Expr::Array(vec![ident("walletId")])];
    assert_eq!(
        get_cmd_args(&args),
        (Some("getinfo".to_string()), vec!["wallet_id.into()".to_string()])
    );
}

#[test]
fn arguments_of_other_shapes_are_dropped() {
    let args = vec![
        text("send"),
        Expr::Array(vec![
            Some(Expr::Other),
            member("txOptions", "feeRate"),
            Some(Expr::Member {
                obj: Box::new(Expr::Other),
                prop: MemberProp::Ident("x".to_string()),
            }),
            Some(Expr::Member {
                obj: Box::new(Expr::Ident("a".to_string())),
                prop: MemberProp::Other,
            }),
            Some(text("literal")),
            ident("toAddress"),
        ]),
    ];
    assert_eq!(
        get_cmd_args(&args),
        (
            Some("send".to_string()),
            vec!["tx_options.fee_rate.into()".to_string(), "to_address.into()".to_string()]
        )
    );
}

#[test]
fn arguments_end_at_an_elision() {
    let args = vec![text("send"), Expr::Array(vec![ident("a"), None, ident("b")])];
    assert_eq!(get_cmd_args(&args), (Some("send".to_string()), vec!["a.into()".to_string()]));
    let first = vec![text("send"), Expr::Array(vec![None, ident("b")])];
    assert_eq!(get_cmd_args(&first), (Some("send".to_string()), vec![]));
}

#[test]
fn command_must_be_a_string_literal() {
    let none: Vec<String> = vec![];
    assert_eq!(get_cmd_args(&vec![]), (None, none.clone()));
    assert_eq!(get_cmd_args(&vec![Expr::Other]), (None, none.clone()));
    assert_eq!(
        get_cmd_args(&vec![Expr::Array(vec![ident("a")]), Expr::Array(vec![ident("b")])]),
        (None, vec!["b.into()".to_string()])
    );
    assert_eq!(get_cmd_args(&vec![text("ping")]), (Some("ping".to_string()), none.clone()));
    assert_eq!(
        get_cmd_args(&vec![text("ping"), text("x")]),
        (Some("ping".to_string()), none)
    );
}

#[test]
fn argument_expressions() {
    assert_eq!(into_arg("wallet_id"), "wallet_id.into()");
    assert_eq!(member_into_arg("options", "fee"), "options.fee.into()");
    assert_eq!(unwrap_statement("utxos"), "\tlet utxos = utxos.unwrap_or_default();\n");
}

#[test]
fn method_with_one_argument() {
    let class = ClassDecl {
        name: "Wallet".to_string(),
        body: vec![ClassMember::Other, method("getInfo", get_info())],
    };
    assert_eq!(
        handle_class(&class, ConversionType::Rust),
        Ok("pub async fn get_info(&self, wallet_id: String,) -> Result<WalletInfo> {\n\tself.call(\"getinfo\", &[wallet_id.into()]).await\n}\n\n"
            .to_string())
    );
}

#[test]
fn method_parts() {
    let ir = build("getInfo", &get_info(), ConversionType::Rust).unwrap();
    assert_eq!(ir.name, "get_info");
    assert_eq!(ir.command, "getinfo");
    assert_eq!(ir.call_args, vec!["wallet_id.into()"]);
    assert_eq!(ir.return_type, "WalletInfo");
    assert_eq!(ir.params.len(), 1);
    assert_eq!(ir.params[0].key, "walletId");
    assert_eq!(ir.params[0].val, "String");
    assert!(!ir.params[0].optional);
}

#[test]
fn method_with_optional_parameter() {
    let class = ClassDecl {
        name: "Wallet".to_string(),
        body: vec![method("listUnspent", list_unspent())],
    };
    assert_eq!(
        handle_class(&class, ConversionType::Rust),
        Ok("pub async fn list_unspent(&self, min_conf: u64,, utxos: Option<Utxo>,) -> Result<Vec<Utxo>> {\n\tlet utxos = utxos.unwrap_or_default();\n\tself.call(\"listunspent\", &[min_conf.into(), utxos.into(), query_options.max_count.into()]).await\n}\n\n"
            .to_string())
    );
}

#[test]
fn methods_in_source_order() {
    let class = ClassDecl {
        name: "Wallet".to_string(),
        body: vec![method("listUnspent", list_unspent()), method("getInfo", get_info())],
    };
    let both = handle_class(&class, ConversionType::Rust).unwrap();
    let first = build("listUnspent", &list_unspent(), ConversionType::Rust).unwrap().to_string();
    let second = build("getInfo", &get_info(), ConversionType::Rust).unwrap().to_string();
    assert_eq!(both, format!("{}{}", first, second));
}

#[test]
fn class_without_methods() {
    let class = ClassDecl {
        name: "Empty".to_string(),
        body: vec![
            ClassMember::Other,
            ClassMember::Method(ClassMethod { key: PropName::Other, function: get_info() }),
        ],
    };
    assert_eq!(handle_class(&class, ConversionType::Rust), Ok(String::new()));
}

#[test]
fn return_types() {
    let mut m = get_info();
    m.return_type = Some(promise(TsType::Keyword(KeywordKind::Number)));
    assert_eq!(build("m", &m, ConversionType::Rust).unwrap().return_type, "u64");
    assert_eq!(build("m", &m, ConversionType::Protobuf).unwrap().return_type, "int64");
    m.return_type = Some(promise(array(named("Utxo"))));
    assert_eq!(build("m", &m, ConversionType::Rust).unwrap().return_type, "Vec<Utxo>");
    m.return_type = Some(promise(named("BigNumber")));
    assert_eq!(build("m", &m, ConversionType::Rust).unwrap().return_type, "BigNumber");
    m.return_type = Some(promise(TsType::Other));
    assert_eq!(build("m", &m, ConversionType::Rust).unwrap().return_type, "NEED TO HANDLE ENUM");
    m.return_type = Some(promise(array(TsType::Keyword(KeywordKind::Str))));
    assert_eq!(build("m", &m, ConversionType::Rust).unwrap().return_type, "NEED TO HANDLE ENUM");
}

#[test]
fn missing_return_type() {
    let mut m = get_info();
    m.return_type = None;
    assert_eq!(
        build("m", &m, ConversionType::Rust).err(),
        Some(TranspileError::MissingReturnType)
    );
    m.return_type = Some(named("WalletInfo"));
    assert_eq!(
        build("m", &m, ConversionType::Rust).err(),
        Some(TranspileError::MissingReturnType)
    );
    m.return_type = Some(TsType::Keyword(KeywordKind::Str));
    assert_eq!(
        build("m", &m, ConversionType::Rust).err(),
        Some(TranspileError::MissingReturnType)
    );
    m.return_type = Some(TsType::Ref {
        name: EntityName::Ident("Promise".to_string()),
        type_args: Some(vec![]),
    });
    assert_eq!(
        build("m", &m, ConversionType::Rust).err(),
        Some(TranspileError::MissingReturnType)
    );
    m.return_type = Some(TsType::Ref {
        name: EntityName::Qualified,
        type_args: Some(vec![named("T")]),
    });
    assert_eq!(
        build("m", &m, ConversionType::Rust).err(),
        Some(TranspileError::MissingReturnType)
    );
}

#[test]
fn missing_command() {
    let mut m = get_info();
    m.body = None;
    assert_eq!(build("m", &m, ConversionType::Rust).err(), Some(TranspileError::MissingCommand));
    m.body = Some(vec![Stmt::Other]);
    assert_eq!(build("m", &m, ConversionType::Rust).err(), Some(TranspileError::MissingCommand));
    m.body = Some(vec![return_await(vec![Expr::Other])]);
    assert_eq!(build("m", &m, ConversionType::Rust).err(), Some(TranspileError::MissingCommand));
    m.body = Some(vec![Stmt::Return(Some(Expr::Call { args: vec![text("getinfo")] }))]);
    assert_eq!(build("m", &m, ConversionType::Rust).err(), Some(TranspileError::MissingCommand));
}

#[test]
fn unsupported_keyword_in_a_method() {
    let mut m = get_info();
    m.params = vec![param("x", TsType::Keyword(KeywordKind::Other))];
    m.return_type = None;
    assert_eq!(
        build("m", &m, ConversionType::Rust).err(),
        Some(TranspileError::UnsupportedPrimitiveKind)
    );
    let mut n = get_info();
    n.return_type = Some(promise(TsType::Keyword(KeywordKind::Other)));
    n.body = None;
    assert_eq!(
        build("m", &n, ConversionType::Rust).err(),
        Some(TranspileError::UnsupportedPrimitiveKind)
    );
}

#[test]
fn the_last_returned_call_counts() {
    let mut m = get_info();
    m.body = Some(vec![
        call("first", vec![ident("a")]),
        Stmt::Other,
        call("second", vec![ident("b")]),
        Stmt::Other,
    ]);
    let ir = build("m", &m, ConversionType::Rust).unwrap();
    assert_eq!(ir.command, "second");
    assert_eq!(ir.call_args, vec!["b.into()"]);
}

#[test]
fn first_failing_method_decides_the_error() {
    let mut no_command = get_info();
    no_command.body = None;
    let mut no_return = get_info();
    no_return.return_type = None;
    let class = ClassDecl {
        name: "Wallet".to_string(),
        body: vec![
            method("getInfo", get_info()),
            method("noCommand", no_command),
            method("noReturn", no_return),
        ],
    };
    assert_eq!(handle_class(&class, ConversionType::Rust), Err(TranspileError::MissingCommand));
}

#[test]
fn method_written_directly() {
    let ir = MethodIR {
        name: "ping".to_string(),
        params: vec![Param {
            prefix: String::new(),
            key: "retryCount".to_string(),
            val: "u64".to_string(),
            optional: true,
            conversion_type: ConversionType::Rust,
        }],
        return_type: "bool".to_string(),
        command: "ping".to_string(),
        call_args: vec![],
    };
    assert_eq!(
        ir.to_string(),
        "pub async fn ping(&self, retry_count: Option<u64>,) -> Result<bool> {\n\tlet retry_count = retry_count.unwrap_or_default();\n\tself.call(\"ping\", &[]).await\n}\n\n"
    );
}
