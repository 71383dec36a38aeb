//! Classes of remote-call methods: each method whose body returns an awaited
//! call becomes an `async fn` that forwards to that call.

use vstd::prelude::*;
use vstd::string::*;
use crate::ast::{
    arg_views, body_view, elem_view, elem_views, lemma_type_args_view, method_view, type_view,
    ArrayElemView,
    CallArgView, ClassDecl, ClassDeclView, ClassMember, ClassMemberView, ClassMethod,
    ClassMethodView, EntityName, Expr, Function, MemberProp, ParamPat, ParamPatView, PropName,
    Stmt, StmtView, TsType, TsTypeView,
};
use crate::collect::{collect, lemma_collect_error, lemma_collect_take};
use crate::model::{agrees, agrees_each, opt_view, views};
use crate::text::{
    cased, concat_all, join, join_strings, lemma_concat_all_take, to_case, CaseStyle,
};
use crate::utils::{param_text, vec_of, ConversionType, Param, ParamView, TranspileError};

verus! {

/// The command of a call: its first argument, where that is a string
/// literal.
pub open spec fn command_of(args: Seq<CallArgView>) -> Option<Seq<char>> {
    if args.len() > 0 {
        match args[0] {
            CallArgView::Str(s) => Some(s),
            _ => None,
        }
    } else {
        None
    }
}

/// The expression that hands over the binding `name`: `name.into()`.
pub open spec fn into_text(name: Seq<char>) -> Seq<char> {
    name + ".into()"@
}

/// The expression that hands over the property `prop` of `obj`:
/// `obj.prop.into()`.
pub open spec fn member_into_text(obj: Seq<char>, prop: Seq<char>) -> Seq<char> {
    obj + "."@ + prop + ".into()"@
}

/// Writes `name.into()`.
pub fn into_arg(name: &str) -> (r: String)
    ensures
        r@ == into_text(name@),
{
    let mut s = String::from_str(name);
    s.append(".into()");
    s
}

/// Writes `obj.prop.into()`.
pub fn member_into_arg(obj: &str, prop: &str) -> (r: String)
    ensures
        r@ == member_into_text(obj@, prop@),
{
    let mut s = String::from_str(obj);
    s.append(".");
    s.append(prop);
    s.append(".into()");
    s
}

/// An element of the argument list as an expression of the output: the
/// names in snake case, then `.into()`. None for an element that is neither
/// an identifier nor `object.property`.
pub open spec fn elem_text(e: ArrayElemView) -> Option<Seq<char>> {
    match e {
        ArrayElemView::Ident(name) => Some(into_text(cased(name, CaseStyle::Snake))),
        ArrayElemView::Member { obj, prop } => Some(
            member_into_text(cased(obj, CaseStyle::Snake), cased(prop, CaseStyle::Snake)),
        ),
        _ => None,
    }
}

/// The expressions of those of `elems` that have one, in their order.
pub open spec fn rendered_elems(elems: Seq<ArrayElemView>) -> Seq<Seq<char>>
    decreases elems.len(),
{
    if elems.len() == 0 {
        Seq::empty()
    } else {
        match elem_text(elems.last()) {
            Some(t) => rendered_elems(elems.drop_last()).push(t),
            None => rendered_elems(elems.drop_last()),
        }
    }
}

/// How many elements are walked: those in front of the first elision, or
/// all where there is none.
pub open spec fn walk_len(elems: Seq<ArrayElemView>) -> int
    decreases elems.len(),
{
    if elems.len() == 0 || elems[0] is Hole {
        0
    } else {
        1 + walk_len(elems.skip(1))
    }
}

/// `n` is `walk_len(elems)` if no elision stands in front of place `n`, and
/// place `n` is an elision or the end.
pub proof fn lemma_walk_len(elems: Seq<ArrayElemView>, n: int)
    requires
        0 <= n <= elems.len(),
        forall|j: int| 0 <= j < n ==> !(elems[j] is Hole),
        n < elems.len() ==> elems[n] is Hole,
    ensures
        walk_len(elems) == n,
    decreases n,
{
    if n > 0 {
        let rest = elems.skip(1);
        assert(!(elems[0] is Hole));
        assert forall|j: int| 0 <= j < n - 1 implies !(rest[j] is Hole) by {
            assert(rest[j] == elems[j + 1]);
        }
        lemma_walk_len(rest, n - 1);
    }
}

/// The arguments of a call: where its second argument is an array literal,
/// the expressions of the elements that are walked; else none.
pub open spec fn call_args_of(args: Seq<CallArgView>) -> Seq<Seq<char>> {
    if args.len() > 1 {
        match args[1] {
            CallArgView::Array(elems) => rendered_elems(elems.take(walk_len(elems))),
            _ => Seq::empty(),
        }
    } else {
        Seq::empty()
    }
}

/// Writes the expressions of the walked elements of an array literal.
fn render_elems(elems: &Vec<Option<Expr>>) -> (out: Vec<String>)
    ensures
        views(out@) == rendered_elems(elem_views(elems@).take(walk_len(elem_views(elems@)))),
{
    let ghost all = elem_views(elems@);
    let mut out: Vec<String> = Vec::new();
    let mut i: usize = 0;
    let mut walking = true;
    while walking && i < elems.len()
        invariant
            i <= elems.len(),
            all == elem_views(elems@),
            forall|j: int| 0 <= j < i - (if walking { 0int } else { 1int }) ==> !(all[j] is Hole),
            !walking ==> 0 < i && all[i - 1] is Hole,
            views(out@) == rendered_elems(all.take(i - (if walking { 0int } else { 1int }))),
        decreases elems.len() - i + (if walking { 1int } else { 0int }),
    {
        proof {
            assert(all.take(i + 1).drop_last() =~= all.take(i as int));
            assert(all.take(i + 1).last() == elem_view(elems[i as int]));
        }
        let ghost before = views(out@);
        match &elems[i] {
            Some(Expr::Member { obj, prop: MemberProp::Ident(prop) }) => match &**obj {
                Expr::Ident(obj) => {
                    let obj = to_case(obj.as_str(), CaseStyle::Snake);
                    let prop = to_case(prop.as_str(), CaseStyle::Snake);
                    let s = member_into_arg(obj.as_str(), prop.as_str());
                    out.push(s);
                    assert(views(out@) =~= before.push(s@));
                },
                _ => {},
            },
            Some(Expr::Ident(name)) => {
                let name = to_case(name.as_str(), CaseStyle::Snake);
                let s = into_arg(name.as_str());
                out.push(s);
                assert(views(out@) =~= before.push(s@));
            },
            None => {
                walking = false;
            },
            _ => {},
        }
        i += 1;
    }
    proof {
        let n = i - (if walking { 0int } else { 1int });
        lemma_walk_len(all, n);
    }
    out
}

/// Takes the command and the arguments out of the arguments of a call: the
/// command is the first argument where that is a string literal; the
/// arguments are the elements of the second where that is an array literal,
/// each identifier and each `object.property` in snake case and followed by
/// `.into()`, every other element left out, up to the first elision.
pub fn get_cmd_args(args: &Vec<Expr>) -> (r: (Option<String>, Vec<String>))
    ensures
        opt_view(r.0) == command_of(arg_views(args@)),
        views(r.1@) == call_args_of(arg_views(args@)),
{
    let cmd = if args.len() > 0 {
        match &args[0] {
            Expr::Str(value) => Some(value.clone()),
            _ => None,
        }
    } else {
        None
    };
    let out = if args.len() > 1 {
        match &args[1] {
            Expr::Array(elems) => render_elems(elems),
            _ => Vec::new(),
        }
    } else {
        Vec::new()
    };
    assert(views(out@) =~= call_args_of(arg_views(args@)));
    (cmd, out)
}

/// A method that forwards to a remote call.
#[derive(Debug)]
pub struct MethodIR {
    /// The name, in snake case.
    pub name: String,
    pub params: Vec<Param>,
    /// The token of the type inside the method's `Promise<..>`.
    pub return_type: String,
    /// The name of the remote operation.
    pub command: String,
    /// The expressions handed to the remote call.
    pub call_args: Vec<String>,
}

/// A [`MethodIR`] as a value of mathematics.
pub struct MethodView {
    pub name: Seq<char>,
    pub params: Seq<ParamView>,
    pub return_type: Seq<char>,
    pub command: Seq<char>,
    pub call_args: Seq<Seq<char>>,
}

impl View for MethodIR {
    type V = MethodView;

    open spec fn view(&self) -> MethodView {
        MethodView {
            name: self.name@,
            params: views(self.params@),
            return_type: self.return_type@,
            command: self.command@,
            call_args: views(self.call_args@),
        }
    }
}

/// The token written for a return type of a shape that is not handled.
pub open spec fn unhandled_return_token() -> Seq<char> {
    "NEED TO HANDLE ENUM"@
}

/// The parameter that a pattern gives. A plain identifier whose type is a
/// name or a primitive gives one of that type; an identifier with a default
/// whose type is an array of a named type gives an optional one of the
/// element's type. Every other pattern is skipped. A keyword that is no
/// primitive is an error.
pub open spec fn param_of(p: ParamPatView, ct: ConversionType) -> Result<
    Option<ParamView>,
    TranspileError,
> {
    match p {
        ParamPatView::Ident { name, optional, ty } => match ty {
            TsTypeView::Ref { name: ty_name, .. } => Ok(
                Some(
                    ParamView {
                        prefix: ""@,
                        key: name,
                        val: ty_name,
                        optional,
                        conversion_type: ct,
                    },
                ),
            ),
            TsTypeView::Keyword(kind) => match ct.primitive_token(kind) {
                Some(val) => Ok(
                    Some(ParamView { prefix: ""@, key: name, val, optional, conversion_type: ct }),
                ),
                None => Err(TranspileError::UnsupportedPrimitiveKind),
            },
            _ => Ok(None),
        },
        ParamPatView::Assign { name, ty } => match ty {
            TsTypeView::Array(elem) => match *elem {
                TsTypeView::Ref { name: ty_name, .. } => Ok(
                    Some(
                        ParamView {
                            prefix: ""@,
                            key: name,
                            val: ty_name,
                            optional: true,
                            conversion_type: ct,
                        },
                    ),
                ),
                _ => Ok(None),
            },
            _ => Ok(None),
        },
        ParamPatView::Other => Ok(None),
    }
}

/// [`param_of`] for a fixed backend.
pub open spec fn param_fn(ct: ConversionType) -> spec_fn(ParamPatView) -> Result<
    Option<ParamView>,
    TranspileError,
> {
    |p: ParamPatView| param_of(p, ct)
}

/// The token of a method's return type: that of the first type argument of
/// the declared type. An error where the declared type is no reference with
/// a type argument, or the argument is a keyword that is no primitive.
pub open spec fn return_type_of(rt: Option<TsTypeView>, ct: ConversionType) -> Result<
    Seq<char>,
    TranspileError,
> {
    match rt {
        Some(TsTypeView::Ref { type_args, .. }) => if type_args.len() > 0 {
            match type_args[0] {
                TsTypeView::Keyword(kind) => match ct.primitive_token(kind) {
                    Some(token) => Ok(token),
                    None => Err(TranspileError::UnsupportedPrimitiveKind),
                },
                TsTypeView::Array(elem) => match *elem {
                    TsTypeView::Ref { name, .. } => Ok(ConversionType::Rust.sequence_of(name)),
                    _ => Ok(unhandled_return_token()),
                },
                TsTypeView::Ref { name, .. } => Ok(name),
                _ => Ok(unhandled_return_token()),
            }
        } else {
            Err(TranspileError::MissingReturnType)
        },
        _ => Err(TranspileError::MissingReturnType),
    }
}

/// The arguments of the call that a body returns: those of its last
/// `return await call(..)`.
pub open spec fn returned_call(stmts: Seq<StmtView>) -> Option<Seq<CallArgView>>
    decreases stmts.len(),
{
    if stmts.len() == 0 {
        None
    } else {
        match stmts.last() {
            StmtView::ReturnAwaitCall { args } => Some(args),
            StmtView::Other => returned_call(stmts.drop_last()),
        }
    }
}

/// The arguments of the call that a method's body returns, if there is a
/// body and it returns one.
pub open spec fn body_call(body: Option<Seq<StmtView>>) -> Option<Seq<CallArgView>> {
    match body {
        Some(stmts) => returned_call(stmts),
        None => None,
    }
}

/// What a method becomes. The errors come in this order: a parameter with a
/// keyword that is no primitive; a return type that is not handled; a body
/// without a call, or with one whose command is no string literal.
pub open spec fn method_of(m: ClassMethodView, ct: ConversionType) -> Result<
    MethodView,
    TranspileError,
> {
    match collect(m.params, param_fn(ct)) {
        Err(e) => Err(e),
        Ok(params) => match return_type_of(m.return_type, ct) {
            Err(e) => Err(e),
            Ok(return_type) => match body_call(m.body) {
                None => Err(TranspileError::MissingCommand),
                Some(args) => match command_of(args) {
                    None => Err(TranspileError::MissingCommand),
                    Some(command) => Ok(
                        MethodView {
                            name: cased(m.name, CaseStyle::Snake),
                            params,
                            return_type,
                            command,
                            call_args: call_args_of(args),
                        },
                    ),
                },
            },
        },
    }
}

/// The parameters in a signature: each after a comma and a space.
pub open spec fn signature_params(params: Seq<ParamView>) -> Seq<Seq<char>> {
    Seq::new(params.len(), |i: int| ", "@ + param_text(params[i]))
}

/// The statement that gives the omitted parameter `key` its default.
pub open spec fn unwrap_text(key: Seq<char>) -> Seq<char> {
    "\tlet "@ + key + " = "@ + key + ".unwrap_or_default();\n"@
}

/// Writes the statement that gives the omitted parameter `key` its
/// default.
pub fn unwrap_statement(key: &str) -> (r: String)
    ensures
        r@ == unwrap_text(key@),
{
    let mut out = String::from_str("\tlet ");
    out.append(key);
    out.append(" = ");
    out.append(key);
    out.append(".unwrap_or_default();\n");
    out
}

/// The statement that gives an omitted optional parameter its default,
/// under its name in snake case; nothing for a parameter that is not
/// optional.
pub open spec fn unwrap_line(p: ParamView) -> Seq<char> {
    if p.optional {
        unwrap_text(cased(p.key, CaseStyle::Snake))
    } else {
        Seq::empty()
    }
}

/// The statements for the optional parameters, in their order.
pub open spec fn unwrap_lines(params: Seq<ParamView>) -> Seq<Seq<char>> {
    Seq::new(params.len(), |i: int| unwrap_line(params[i]))
}

/// A method as text: the signature, the defaults of the optional
/// parameters, the call with the command and the arguments, the closing
/// brace and an empty line.
pub open spec fn method_text(v: MethodView) -> Seq<char> {
    "pub async fn "@ + v.name + "(&self"@ + concat_all(signature_params(v.params)) + ")"@
        + " -> Result<"@ + v.return_type + "> {\n"@ + concat_all(unwrap_lines(v.params))
        + "\tself.call(\""@ + v.command + "\", &["@ + join(v.call_args, ", "@) + "]).await\n"@
        + "}\n\n"@
}

impl MethodIR {
    /// Writes the method.
    pub fn to_string(&self) -> (r: String)
        ensures
            r@ == method_text(self@),
    {
        let mut out = String::from_str("pub async fn ");
        out.append(self.name.as_str());
        out.append("(&self");
        let ghost head = out@;
        let ghost sig = signature_params(self@.params);
        let mut i: usize = 0;
        while i < self.params.len()
            invariant
                i <= self.params.len(),
                sig == signature_params(self@.params),
                sig.len() == self.params.len(),
                out@ == head + concat_all(sig.take(i as int)),
            decreases self.params.len() - i,
        {
            let p = self.params[i].to_string();
            out.append(", ");
            out.append(p.as_str());
            proof {
                lemma_concat_all_take(sig, i as int);
                assert(sig[i as int] == ", "@ + param_text(self.params[i as int]@));
                assert(out@ =~= head + concat_all(sig.take(i + 1)));
            }
            i += 1;
        }
        proof {
            assert(sig.take(self.params.len() as int) =~= sig);
        }
        out.append(")");
        out.append(" -> Result<");
        out.append(self.return_type.as_str());
        out.append("> {\n");
        let ghost head = out@;
        let ghost lines = unwrap_lines(self@.params);
        let mut i: usize = 0;
        while i < self.params.len()
            invariant
                i <= self.params.len(),
                lines == unwrap_lines(self@.params),
                lines.len() == self.params.len(),
                out@ == head + concat_all(lines.take(i as int)),
            decreases self.params.len() - i,
        {
            let ghost before = out@;
            if self.params[i].optional {
                let key = to_case(self.params[i].key.as_str(), CaseStyle::Snake);
                out.append(unwrap_statement(key.as_str()).as_str());
            }
            proof {
                lemma_concat_all_take(lines, i as int);
                assert(lines[i as int] == unwrap_line(self.params[i as int]@));
                assert(out@ =~= before + unwrap_line(self.params[i as int]@));
                assert(out@ =~= head + concat_all(lines.take(i + 1)));
            }
            i += 1;
        }
        proof {
            assert(lines.take(self.params.len() as int) =~= lines);
        }
        out.append("\tself.call(\"");
        out.append(self.command.as_str());
        out.append("\", &[");
        let args = join_strings(&self.call_args, ", ");
        out.append(args.as_str());
        out.append("]).await\n");
        out.append("}\n\n");
        out
    }
}

/// Collects the parameters of a method, as [`param_of`] says.
fn build_params(params: &Vec<ParamPat>, ct: ConversionType) -> (r: Result<
    Vec<Param>,
    TranspileError,
>)
    ensures
        agrees_each(r, collect(views(params@), param_fn(ct))),
{
    let mut out: Vec<Param> = Vec::new();
    let mut i: usize = 0;
    assert(views(out@) =~= Seq::empty());
    while i < params.len()
        invariant
            i <= params.len(),
            collect(views(params@).take(i as int), param_fn(ct)) == Ok::<_, TranspileError>(
                views(out@),
            ),
        decreases params.len() - i,
    {
        proof {
            reveal_with_fuel(type_view, 2);
            lemma_collect_take(views(params@), param_fn(ct), i as int);
        }
        let ghost before = views(out@);
        match &params[i] {
            ParamPat::Ident { name, optional, ty: Some(ty) } => match ty {
                TsType::Ref { name: EntityName::Ident(ty_name), .. } => {
                    let p = Param {
                        prefix: String::from_str(""),
                        key: name.clone(),
                        val: ty_name.clone(),
                        optional: *optional,
                        conversion_type: ct.get(),
                    };
                    out.push(p);
                    assert(views(out@) =~= before.push(p@));
                },
                TsType::Keyword(kind) => match ct.map_type(*kind) {
                    Ok(val) => {
                        let p = Param {
                            prefix: String::from_str(""),
                            key: name.clone(),
                            val,
                            optional: *optional,
                            conversion_type: ct.get(),
                        };
                        out.push(p);
                        assert(views(out@) =~= before.push(p@));
                    },
                    Err(e) => {
                        proof {
                            lemma_collect_error(views(params@), param_fn(ct), i + 1);
                        }
                        return Err(e);
                    },
                },
                _ => {},
            },
            ParamPat::Assign { left } => match &**left {
                ParamPat::Ident { name, ty: Some(ty), .. } => match ty {
                    TsType::Array(elem) => match &**elem {
                        TsType::Ref { name: EntityName::Ident(ty_name), .. } => {
                            let p = Param {
                                prefix: String::from_str(""),
                                key: name.clone(),
                                val: ty_name.clone(),
                                optional: true,
                                conversion_type: ct.get(),
                            };
                            out.push(p);
                            assert(views(out@) =~= before.push(p@));
                        },
                        _ => {},
                    },
                    _ => {},
                },
                _ => {},
            },
            _ => {},
        }
        i += 1;
    }
    proof {
        assert(views(params@).take(params.len() as int) =~= views(params@));
    }
    Ok(out)
}

/// Finds the call that a body returns and takes command and arguments out
/// of it.
fn find_call(function: &Function) -> (r: (Option<String>, Vec<String>))
    ensures
        match body_call(body_view(*function)) {
            Some(args) => opt_view(r.0) == command_of(args) && views(r.1@) == call_args_of(args),
            None => r.0 is None,
        },
{
    let mut fn_cmd: Option<String> = None;
    let mut fn_args: Vec<String> = Vec::new();
    if let Some(stmts) = &function.body {
        let mut i: usize = 0;
        while i < stmts.len()
            invariant
                i <= stmts.len(),
                match returned_call(views(stmts@).take(i as int)) {
                    Some(args) => opt_view(fn_cmd) == command_of(args) && views(fn_args@)
                        == call_args_of(args),
                    None => fn_cmd is None,
                },
            decreases stmts.len() - i,
        {
            proof {
                assert(views(stmts@).take(i + 1).drop_last() =~= views(stmts@).take(i as int));
                assert(views(stmts@).take(i + 1).last() == stmts[i as int]@);
            }
            match &stmts[i] {
                Stmt::Return(Some(Expr::Await(awaited))) => match &**awaited {
                    Expr::Call { args } => {
                        let (cmd, call_args) = get_cmd_args(args);
                        fn_cmd = cmd;
                        fn_args = call_args;
                    },
                    _ => {},
                },
                _ => {},
            }
            i += 1;
        }
        proof {
            assert(views(stmts@).take(stmts.len() as int) =~= views(stmts@));
        }
    }
    (fn_cmd, fn_args)
}

/// Maps the return type of a method, as [`return_type_of`] says.
fn build_return_type(rt: &Option<TsType>, ct: ConversionType) -> (r: Result<
    String,
    TranspileError,
>)
    ensures
        agrees(r, return_type_of(opt_view(*rt), ct)),
{
    proof {
        reveal_with_fuel(type_view, 3);
    }
    match rt {
        Some(TsType::Ref { name: EntityName::Ident(outer), type_args: Some(type_args) }) => {
            proof {
                lemma_type_args_view(*outer, *type_args);
            }
            if type_args.len() > 0 {
                match &type_args[0] {
                    TsType::Keyword(kind) => ct.map_type(*kind),
                    TsType::Array(elem) => match &**elem {
                        TsType::Ref { name: EntityName::Ident(name), .. } => Ok(
                            vec_of(name.as_str()),
                        ),
                        _ => Ok(String::from_str("NEED TO HANDLE ENUM")),
                    },
                    TsType::Ref { name: EntityName::Ident(name), .. } => Ok(name.clone()),
                    _ => Ok(String::from_str("NEED TO HANDLE ENUM")),
                }
            } else {
                Err(TranspileError::MissingReturnType)
            }
        },
        _ => Err(TranspileError::MissingReturnType),
    }
}

/// Builds the method that forwards to the call in the function's body,
/// as [`method_of`] says.
pub fn build_method(name: &String, function: &Function, ct: ConversionType) -> (r: Result<
    MethodIR,
    TranspileError,
>)
    ensures
        agrees(r, method_of(method_view(name@, *function), ct)),
{
    let name = to_case(name.as_str(), CaseStyle::Snake);
    let params = match build_params(&function.params, ct) {
        Ok(params) => params,
        Err(e) => {
            return Err(e);
        },
    };
    let (fn_cmd, call_args) = find_call(function);
    let return_type = match build_return_type(&function.return_type, ct) {
        Ok(token) => token,
        Err(e) => {
            return Err(e);
        },
    };
    match fn_cmd {
        Some(command) => Ok(MethodIR { name, params, return_type, command, call_args }),
        None => Err(TranspileError::MissingCommand),
    }
}

/// What a member of a class is written as: a method as its text, anything
/// else not at all.
pub open spec fn member_text(member: ClassMemberView, ct: ConversionType) -> Result<
    Option<Seq<char>>,
    TranspileError,
> {
    match member {
        ClassMemberView::Method(m) => match method_of(m, ct) {
            Ok(v) => Ok(Some(method_text(v))),
            Err(e) => Err(e),
        },
        ClassMemberView::Other => Ok(None),
    }
}

/// [`member_text`] for a fixed backend.
pub open spec fn member_text_fn(ct: ConversionType) -> spec_fn(ClassMemberView) -> Result<
    Option<Seq<char>>,
    TranspileError,
> {
    |member: ClassMemberView| member_text(member, ct)
}

/// A class as text: its methods, one after the other; or the error of the
/// first method that has one.
pub open spec fn class_text(class: ClassDeclView, ct: ConversionType) -> Result<
    Seq<char>,
    TranspileError,
> {
    match collect(class.body, member_text_fn(ct)) {
        Ok(methods) => Ok(concat_all(methods)),
        Err(e) => Err(e),
    }
}

/// Writes the methods of a class, as [`class_text`] says.
pub fn handle_class(class: &ClassDecl, conversion_type: ConversionType) -> (r: Result<
    String,
    TranspileError,
>)
    ensures
        agrees(r, class_text(class@, conversion_type)),
{
    let mut out = String::new();
    let ghost mut methods: Seq<Seq<char>> = Seq::empty();
    let mut i: usize = 0;
    while i < class.body.len()
        invariant
            i <= class.body.len(),
            collect(views(class.body@).take(i as int), member_text_fn(conversion_type)) == Ok::<
                _,
                TranspileError,
            >(methods),
            out@ == concat_all(methods),
        decreases class.body.len() - i,
    {
        proof {
            lemma_collect_take(views(class.body@), member_text_fn(conversion_type), i as int);
        }
        match &class.body[i] {
            ClassMember::Method(
                ClassMethod { key: PropName::Ident(name), function },
            ) => match build_method(name, function, conversion_type) {
                Ok(ir) => {
                    let text = ir.to_string();
                    out.append(text.as_str());
                    proof {
                        assert(methods.push(text@).drop_last() =~= methods);
                        methods = methods.push(text@);
                    }
                },
                Err(e) => {
                    proof {
                        lemma_collect_error(
                            views(class.body@),
                            member_text_fn(conversion_type),
                            i + 1,
                        );
                    }
                    return Err(e);
                },
            },
            _ => {},
        }
        i += 1;
    }
    proof {
        assert(views(class.body@).take(class.body.len() as int) =~= views(class.body@));
    }
    Ok(out)
}

} // verus!
