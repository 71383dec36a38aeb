//! The parsed declarations, and what the transpiler sees of them.
//!
//! The first half of this file is the syntax tree: what a parser hands
//! over, with the nodes that the transpiler never looks into folded into
//! `Other` variants. The second half gives each node its view: the shape
//! that the transpiler recognises in it. A node that has none of the
//! recognised shapes has the view `Other`; it is skipped, or written as a
//! placeholder.

use vstd::prelude::*;
use vstd::string::*;
use crate::model::{opt_view, views};

verus! {

/// The kind of a keyword type such as `string` or `number`.
#[derive(Debug, Clone, Copy, PartialEq, Eq, Structural)]
pub enum KeywordKind {
    /// `string`
    Str,
    /// `number`
    Number,
    /// `boolean`
    Boolean,
    /// Any other keyword (`any`, `void`, `null`, ...).
    Other,
}

/// The name in a reference to a type.
#[derive(Debug)]
pub enum EntityName {
    /// A plain identifier: `Foo`
    Ident(String),
    /// A qualified name: `ns.Foo`
    Qualified,
}

/// A type annotation.
#[derive(Debug)]
pub enum TsType {
    /// A keyword type: `string`, `number`, ...
    Keyword(KeywordKind),
    /// A reference to a type by name, with its type arguments where it has
    /// any: `Foo`, `Promise<T>`
    Ref { name: EntityName, type_args: Option<Vec<TsType>> },
    /// `T[]`
    Array(Box<TsType>),
    /// An inline object type: `{ a: string, ... }`
    Lit(Vec<TypeElement>),
    /// A union, an intersection, a function type, ...
    Other,
}

/// The key of a property signature.
#[derive(Debug)]
pub enum PropKey {
    /// An identifier.
    Ident(String),
    /// A string, a number, a computed key, ...
    Other,
}

/// A parameter of an index signature.
#[derive(Debug)]
pub enum IndexParam {
    /// `name` or `name: ty`
    Ident { name: String, ty: Option<TsType> },
    /// A pattern of another kind.
    Other,
}

/// A member of an interface body or of an inline object type.
#[derive(Debug)]
pub enum TypeElement {
    /// A property signature: `key: ty`, `key?: ty`, `key`
    Property { key: PropKey, ty: Option<TsType>, optional: bool },
    /// An index signature: `[params]: ty`
    Index { params: Vec<IndexParam>, ty: Option<TsType> },
    /// A method, call, construct, getter or setter signature.
    Other,
}

/// `interface Name<G1, G2> { members }`
#[derive(Debug)]
pub struct InterfaceDecl {
    pub name: String,
    pub generics: Vec<String>,
    pub members: Vec<TypeElement>,
}

/// The name of an enum member.
#[derive(Debug)]
pub enum EnumMember {
    /// A member named by an identifier.
    Ident(String),
    /// A member named by a string literal.
    Str(String),
}

/// `enum Name { members }`
#[derive(Debug)]
pub struct EnumDecl {
    pub name: String,
    pub members: Vec<EnumMember>,
}

/// The property of a member expression.
#[derive(Debug)]
pub enum MemberProp {
    /// `.name`
    Ident(String),
    /// A private name or a computed property.
    Other,
}

/// An expression.
#[derive(Debug)]
pub enum Expr {
    /// A string literal.
    Str(String),
    /// An array literal; `None` stands for an elision, the gap in
    /// `[a, , b]`.
    Array(Vec<Option<Expr>>),
    /// An identifier.
    Ident(String),
    /// `obj.prop`
    Member { obj: Box<Expr>, prop: MemberProp },
    /// `await arg`
    Await(Box<Expr>),
    /// `callee(args)`
    Call { args: Vec<Expr> },
    /// Any other expression.
    Other,
}

/// A statement of a method body.
#[derive(Debug)]
pub enum Stmt {
    /// `return` or `return arg`
    Return(Option<Expr>),
    /// Any other statement.
    Other,
}

/// A parameter of a method.
#[derive(Debug)]
pub enum ParamPat {
    /// `name`, `name: ty` or `name?: ty`
    Ident { name: String, optional: bool, ty: Option<TsType> },
    /// `left = default`
    Assign { left: Box<ParamPat> },
    /// A destructuring pattern, a rest parameter, ...
    Other,
}

/// The name of a method.
#[derive(Debug)]
pub enum PropName {
    /// An identifier.
    Ident(String),
    /// A string, a number, a computed name, ...
    Other,
}

/// The parameters, the body and the return type of a method.
#[derive(Debug)]
pub struct Function {
    pub params: Vec<ParamPat>,
    /// The statements of the body; `None` for a method without one.
    pub body: Option<Vec<Stmt>>,
    pub return_type: Option<TsType>,
}

/// A method of a class.
#[derive(Debug)]
pub struct ClassMethod {
    pub key: PropName,
    pub function: Function,
}

/// A member of a class body.
#[derive(Debug)]
pub enum ClassMember {
    Method(ClassMethod),
    /// A constructor, a property, a private method, ...
    Other,
}

/// `class Name { body }`
#[derive(Debug)]
pub struct ClassDecl {
    pub name: String,
    pub body: Vec<ClassMember>,
}

/// A declaration.
#[derive(Debug)]
pub enum Decl {
    Interface(InterfaceDecl),
    Class(ClassDecl),
    Enum(EnumDecl),
    /// A function, a variable, a type alias, ...
    Other,
}

/// A top-level item of a module.
#[derive(Debug)]
pub struct ModuleItem {
    /// Whether the item is an `export` of a declaration.
    pub exported: bool,
    pub decl: Decl,
}

/// A parsed module: its top-level items, in source order.
#[derive(Debug)]
pub struct Module {
    pub body: Vec<ModuleItem>,
}

/// What the transpiler sees of a type.
pub enum TsTypeView {
    /// A keyword type.
    Keyword(KeywordKind),
    /// A type named by a plain identifier, with its type arguments (none
    /// where none are written).
    Ref { name: Seq<char>, type_args: Seq<TsTypeView> },
    /// An array.
    Array(Box<TsTypeView>),
    /// An inline object type.
    Lit(Seq<TypeElementView>),
    /// Any other type, a type with a qualified name among them.
    Other,
}

/// What the transpiler sees of a member of an interface.
pub enum TypeElementView {
    /// A property with an identifier as key and with a type.
    Property { key: Seq<char>, ty: TsTypeView, optional: bool },
    /// An index signature with a type, whose first parameter is an
    /// identifier with a keyword as its type.
    Index { key_name: Seq<char>, key_kind: KeywordKind, ty: TsTypeView },
    /// Any other member.
    Other,
}

/// The view of a type.
pub open spec fn type_view(ty: TsType) -> TsTypeView
    decreases ty,
{
    match ty {
        TsType::Keyword(kind) => TsTypeView::Keyword(kind),
        TsType::Ref {
            name: EntityName::Ident(name),
            type_args: Some(type_args),
        } => TsTypeView::Ref {
            name: name@,
            type_args: Seq::new(
                type_args@.len(),
                |i: int|
                    if 0 <= i < type_args@.len() {
                        type_view(type_args@[i])
                    } else {
                        TsTypeView::Other
                    },
            ),
        },
        TsType::Ref { name: EntityName::Ident(name), type_args: None } => TsTypeView::Ref {
            name: name@,
            type_args: Seq::empty(),
        },
        TsType::Ref { name: EntityName::Qualified, .. } => TsTypeView::Other,
        TsType::Array(elem) => TsTypeView::Array(Box::new(type_view(*elem))),
        TsType::Lit(members) => TsTypeView::Lit(
            Seq::new(
                members@.len(),
                |i: int|
                    if 0 <= i < members@.len() {
                        element_view(members@[i])
                    } else {
                        TypeElementView::Other
                    },
            ),
        ),
        TsType::Other => TsTypeView::Other,
    }
}

/// The keyword that is the type of the first parameter of an index
/// signature, with the parameter's name; none where there is no first
/// parameter, or it is no identifier, or its type is no keyword.
pub open spec fn index_key(params: Seq<IndexParam>) -> Option<(Seq<char>, KeywordKind)> {
    if params.len() > 0 {
        match params[0] {
            IndexParam::Ident { name, ty: Some(TsType::Keyword(kind)) } => Some((name@, kind)),
            _ => None,
        }
    } else {
        None
    }
}

/// Finds the name and the keyword of the first parameter of an index
/// signature, as [`index_key`] says.
pub fn first_index_key(params: &Vec<IndexParam>) -> (r: Option<(&String, KeywordKind)>)
    ensures
        match r {
            Some((name, kind)) => index_key(params@) == Some((name@, kind)),
            None => index_key(params@) is None,
        },
{
    if params.len() > 0 {
        match &params[0] {
            IndexParam::Ident { name, ty: Some(TsType::Keyword(kind)) } => Some((name, *kind)),
            _ => None,
        }
    } else {
        None
    }
}

/// The view of a member.
pub open spec fn element_view(element: TypeElement) -> TypeElementView
    decreases element,
{
    match element {
        TypeElement::Property {
            key: PropKey::Ident(key),
            ty: Some(ty),
            optional,
        } => TypeElementView::Property { key: key@, ty: type_view(ty), optional },
        TypeElement::Index { params, ty: Some(ty) } => match index_key(params@) {
            Some((key_name, key_kind)) => TypeElementView::Index {
                key_name,
                key_kind,
                ty: type_view(ty),
            },
            None => TypeElementView::Other,
        },
        _ => TypeElementView::Other,
    }
}

impl View for TsType {
    type V = TsTypeView;

    open spec fn view(&self) -> TsTypeView {
        type_view(*self)
    }
}

impl View for TypeElement {
    type V = TypeElementView;

    open spec fn view(&self) -> TypeElementView {
        element_view(*self)
    }
}

/// The members of an inline object type are seen as the views of its
/// members.
pub proof fn lemma_lit_view(members: Vec<TypeElement>)
    ensures
        TsType::Lit(members)@ == TsTypeView::Lit(views(members@)),
{
    assert(TsType::Lit(members)@->Lit_0 =~= views(members@));
}

/// The type arguments of a reference are seen as the views of its type
/// arguments.
pub proof fn lemma_type_args_view(name: String, type_args: Vec<TsType>)
    ensures
        (TsType::Ref { name: EntityName::Ident(name), type_args: Some(type_args) })@ == (
        TsTypeView::Ref { name: name@, type_args: views(type_args@) }),
{
    assert((TsType::Ref {
        name: EntityName::Ident(name),
        type_args: Some(type_args),
    })@->type_args =~= views(type_args@));
}

/// What the transpiler sees of an interface.
pub struct InterfaceDeclView {
    pub name: Seq<char>,
    pub generics: Seq<Seq<char>>,
    pub members: Seq<TypeElementView>,
}

impl View for InterfaceDecl {
    type V = InterfaceDeclView;

    open spec fn view(&self) -> InterfaceDeclView {
        InterfaceDeclView {
            name: self.name@,
            generics: views(self.generics@),
            members: views(self.members@),
        }
    }
}

/// What the transpiler sees of an enum member.
pub enum EnumMemberView {
    Ident(Seq<char>),
    Str(Seq<char>),
}

impl View for EnumMember {
    type V = EnumMemberView;

    open spec fn view(&self) -> EnumMemberView {
        match self {
            EnumMember::Ident(name) => EnumMemberView::Ident(name@),
            EnumMember::Str(name) => EnumMemberView::Str(name@),
        }
    }
}

/// What the transpiler sees of an enum.
pub struct EnumDeclView {
    pub name: Seq<char>,
    pub members: Seq<EnumMemberView>,
}

impl View for EnumDecl {
    type V = EnumDeclView;

    open spec fn view(&self) -> EnumDeclView {
        EnumDeclView { name: self.name@, members: views(self.members@) }
    }
}

/// What the transpiler sees of an element of an array literal.
pub enum ArrayElemView {
    /// A plain identifier.
    Ident(Seq<char>),
    /// `obj.prop`, with identifiers on both sides.
    Member { obj: Seq<char>, prop: Seq<char> },
    /// Any other expression.
    Other,
    /// An elision.
    Hole,
}

/// The view of an element of an array literal.
pub open spec fn elem_view(elem: Option<Expr>) -> ArrayElemView {
    match elem {
        None => ArrayElemView::Hole,
        Some(Expr::Ident(name)) => ArrayElemView::Ident(name@),
        Some(Expr::Member { obj, prop: MemberProp::Ident(prop) }) => match *obj {
            Expr::Ident(obj) => ArrayElemView::Member { obj: obj@, prop: prop@ },
            _ => ArrayElemView::Other,
        },
        _ => ArrayElemView::Other,
    }
}

/// The views of the elements of an array literal.
pub open spec fn elem_views(elems: Seq<Option<Expr>>) -> Seq<ArrayElemView> {
    Seq::new(elems.len(), |i: int| elem_view(elems[i]))
}

/// What the transpiler sees of an argument of a call.
pub enum CallArgView {
    /// A string literal.
    Str(Seq<char>),
    /// An array literal.
    Array(Seq<ArrayElemView>),
    /// Any other expression.
    Other,
}

/// The view of an argument of a call.
pub open spec fn arg_view(arg: Expr) -> CallArgView {
    match arg {
        Expr::Str(s) => CallArgView::Str(s@),
        Expr::Array(elems) => CallArgView::Array(elem_views(elems@)),
        _ => CallArgView::Other,
    }
}

/// The views of the arguments of a call.
pub open spec fn arg_views(args: Seq<Expr>) -> Seq<CallArgView> {
    Seq::new(args.len(), |i: int| arg_view(args[i]))
}

/// What the transpiler sees of a statement.
pub enum StmtView {
    /// `return await callee(args)`
    ReturnAwaitCall { args: Seq<CallArgView> },
    /// Any other statement.
    Other,
}

impl View for Stmt {
    type V = StmtView;

    open spec fn view(&self) -> StmtView {
        match self {
            Stmt::Return(Some(Expr::Await(awaited))) => match **awaited {
                Expr::Call { args } => StmtView::ReturnAwaitCall { args: arg_views(args@) },
                _ => StmtView::Other,
            },
            _ => StmtView::Other,
        }
    }
}

/// What the transpiler sees of a parameter.
pub enum ParamPatView {
    /// An identifier with a type.
    Ident { name: Seq<char>, optional: bool, ty: TsTypeView },
    /// An identifier with a type and a default value.
    Assign { name: Seq<char>, ty: TsTypeView },
    /// Any other parameter.
    Other,
}

impl View for ParamPat {
    type V = ParamPatView;

    open spec fn view(&self) -> ParamPatView {
        match self {
            ParamPat::Ident { name, optional, ty: Some(ty) } => ParamPatView::Ident {
                name: name@,
                optional: *optional,
                ty: ty@,
            },
            ParamPat::Assign { left } => match **left {
                ParamPat::Ident { name, ty: Some(ty), .. } => ParamPatView::Assign {
                    name: name@,
                    ty: ty@,
                },
                _ => ParamPatView::Other,
            },
            _ => ParamPatView::Other,
        }
    }
}

/// What the transpiler sees of a method that is named by an identifier.
pub struct ClassMethodView {
    pub name: Seq<char>,
    pub params: Seq<ParamPatView>,
    pub body: Option<Seq<StmtView>>,
    pub return_type: Option<TsTypeView>,
}

/// The view of the body of a function.
pub open spec fn body_view(function: Function) -> Option<Seq<StmtView>> {
    match function.body {
        Some(stmts) => Some(views(stmts@)),
        None => None,
    }
}

/// The view of the method of the name `name` and the function `function`.
pub open spec fn method_view(name: Seq<char>, function: Function) -> ClassMethodView {
    ClassMethodView {
        name,
        params: views(function.params@),
        body: body_view(function),
        return_type: opt_view(function.return_type),
    }
}

/// What the transpiler sees of a member of a class.
pub enum ClassMemberView {
    /// A method that is named by an identifier.
    Method(ClassMethodView),
    /// Any other member.
    Other,
}

impl View for ClassMember {
    type V = ClassMemberView;

    open spec fn view(&self) -> ClassMemberView {
        match self {
            ClassMember::Method(ClassMethod { key: PropName::Ident(name), function }) => {
                ClassMemberView::Method(method_view(name@, *function))
            },
            _ => ClassMemberView::Other,
        }
    }
}

/// What the transpiler sees of a class.
pub struct ClassDeclView {
    pub name: Seq<char>,
    pub body: Seq<ClassMemberView>,
}

impl View for ClassDecl {
    type V = ClassDeclView;

    open spec fn view(&self) -> ClassDeclView {
        ClassDeclView { name: self.name@, body: views(self.body@) }
    }
}

/// What the transpiler sees of a declaration.
pub enum DeclView {
    Interface(InterfaceDeclView),
    Class(ClassDeclView),
    Enum(EnumDeclView),
    Other,
}

impl View for Decl {
    type V = DeclView;

    open spec fn view(&self) -> DeclView {
        match self {
            Decl::Interface(d) => DeclView::Interface(d@),
            Decl::Class(d) => DeclView::Class(d@),
            Decl::Enum(d) => DeclView::Enum(d@),
            Decl::Other => DeclView::Other,
        }
    }
}

/// What the transpiler sees of a top-level item.
pub struct ModuleItemView {
    pub exported: bool,
    pub decl: DeclView,
}

impl View for ModuleItem {
    type V = ModuleItemView;

    open spec fn view(&self) -> ModuleItemView {
        ModuleItemView { exported: self.exported, decl: self.decl@ }
    }
}

/// What the transpiler sees of a module.
pub struct ModuleView {
    pub body: Seq<ModuleItemView>,
}

impl View for Module {
    type V = ModuleView;

    open spec fn view(&self) -> ModuleView {
        ModuleView { body: views(self.body@) }
    }
}

} // verus!
