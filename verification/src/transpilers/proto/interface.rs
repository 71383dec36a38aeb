//! Interfaces as protobuf messages: plain messages, maps, and messages with
//! one message inside.

use vstd::prelude::*;
use vstd::string::*;
use crate::ast::{
    first_index_key, lemma_lit_view, type_view, EntityName, InterfaceDecl, InterfaceDeclView,
    KeywordKind, PropKey, TsType, TsTypeView, TypeElement, TypeElementView,
};
use crate::classify::{interface_kind, DeclKind};
use crate::collect::{collect, lemma_collect_error, lemma_collect_take};
use crate::model::{agrees, opt_view, views};
use crate::text::{concat_all, decimal, lemma_concat_all_take, number_text, FIRST_TAG};
use crate::utils::{unsupported_type, ConversionType, TranspileError};

verus! {

/// The primitive types.
#[derive(Debug, Clone, Copy, PartialEq, Eq, Structural)]
pub enum TypescriptKeywordType {
    BOOLEAN,
    NUMBER,
    STRING,
}

/// A field of a message, or the type of one where it has no name, as a
/// value of mathematics.
pub struct PropertyView {
    pub name: Option<Seq<char>>,
    /// Whether the field is `repeated`.
    pub repeated: bool,
    /// The token of the type; for a repeated field, of one element.
    pub token: Seq<char>,
}

/// A field as text: `repeated` where it is, the type, and the name where
/// there is one.
pub open spec fn property_text(p: PropertyView) -> Seq<char> {
    (if p.repeated {
        "repeated "@
    } else {
        Seq::empty()
    }) + p.token + (match p.name {
        Some(name) => " "@ + name,
        None => Seq::empty(),
    })
}

/// A field of a primitive type.
#[derive(Debug)]
pub struct TypescriptProperty {
    pub name: Option<String>,
    pub value: TypescriptKeywordType,
}

impl TypescriptProperty {
    /// The keyword of a primitive type.
    pub open spec fn kind_of(value: TypescriptKeywordType) -> KeywordKind {
        match value {
            TypescriptKeywordType::NUMBER => KeywordKind::Number,
            TypescriptKeywordType::BOOLEAN => KeywordKind::Boolean,
            TypescriptKeywordType::STRING => KeywordKind::Str,
        }
    }

    /// The token of a primitive type.
    pub open spec fn token_of(value: TypescriptKeywordType) -> Seq<char> {
        match value {
            TypescriptKeywordType::NUMBER => "int64"@,
            TypescriptKeywordType::BOOLEAN => "bool"@,
            TypescriptKeywordType::STRING => "string"@,
        }
    }

    /// Tells the primitive type of a keyword. Fails on a keyword that is
    /// no primitive, and only then.
    pub fn keyword_type(value: KeywordKind) -> (r: Result<TypescriptKeywordType, TranspileError>)
        ensures
            match r {
                Ok(k) => Self::kind_of(k) == value,
                Err(e) => value == KeywordKind::Other && e
                    == TranspileError::UnsupportedPrimitiveKind,
            },
    {
        match value {
            KeywordKind::Number => Ok(TypescriptKeywordType::NUMBER),
            KeywordKind::Boolean => Ok(TypescriptKeywordType::BOOLEAN),
            KeywordKind::Str => Ok(TypescriptKeywordType::STRING),
            KeywordKind::Other => Err(TranspileError::UnsupportedPrimitiveKind),
        }
    }

    /// A field of the primitive type of `value`. Fails on a keyword that
    /// is no primitive, and only then.
    pub fn new(name: Option<String>, value: KeywordKind) -> (r: Result<Self, TranspileError>)
        ensures
            match r {
                Ok(p) => p.name == name && Self::kind_of(p.value) == value,
                Err(e) => value == KeywordKind::Other && e
                    == TranspileError::UnsupportedPrimitiveKind,
            },
    {
        match TypescriptProperty::keyword_type(value) {
            Ok(value) => Ok(TypescriptProperty { name, value }),
            Err(e) => Err(e),
        }
    }

    /// Writes the field.
    pub fn to_string(&self) -> (r: String)
        ensures
            r@ == property_text(self@),
    {
        let mut out = match &self.value {
            TypescriptKeywordType::NUMBER => String::from_str("int64"),
            TypescriptKeywordType::BOOLEAN => String::from_str("bool"),
            TypescriptKeywordType::STRING => String::from_str("string"),
        };
        if let Some(name) = &self.name {
            out.append(" ");
            out.append(name.as_str());
        }
        assert(out@ =~= property_text(self@));
        out
    }
}

impl View for TypescriptProperty {
    type V = PropertyView;

    open spec fn view(&self) -> PropertyView {
        PropertyView {
            name: opt_view(self.name),
            repeated: false,
            token: Self::token_of(self.value),
        }
    }
}

/// The tokens of the primitive types are those of the protobuf backend.
pub proof fn lemma_token_of_primitive(value: TypescriptKeywordType)
    ensures
        ConversionType::Protobuf.primitive_token(TypescriptProperty::kind_of(value)) == Some(
            TypescriptProperty::token_of(value),
        ),
{
}

/// A repeated field of a primitive type.
#[derive(Debug)]
pub struct TypescriptArrayProperty {
    pub property: TypescriptProperty,
}

impl TypescriptArrayProperty {
    /// A repeated field of the primitive type of `value`. Fails on a
    /// keyword that is no primitive, and only then.
    pub fn new(name: Option<String>, value: KeywordKind) -> (r: Result<Self, TranspileError>)
        ensures
            match r {
                Ok(p) => p.property.name == name && TypescriptProperty::kind_of(p.property.value)
                    == value,
                Err(e) => value == KeywordKind::Other && e
                    == TranspileError::UnsupportedPrimitiveKind,
            },
    {
        match TypescriptProperty::new(name, value) {
            Ok(property) => Ok(TypescriptArrayProperty { property }),
            Err(e) => Err(e),
        }
    }

    /// Writes the field.
    pub fn to_string(&self) -> (r: String)
        ensures
            r@ == property_text(self@),
    {
        let mut out = String::from_str("repeated ");
        out.append(self.property.to_string().as_str());
        assert(out@ =~= property_text(self@));
        out
    }
}

impl View for TypescriptArrayProperty {
    type V = PropertyView;

    open spec fn view(&self) -> PropertyView {
        PropertyView { name: self.property@.name, repeated: true, token: self.property@.token }
    }
}

/// A field of a type that is given by its token.
#[derive(Debug)]
pub struct TypescriptCustomProperty {
    pub name: Option<String>,
    pub custom_type: String,
}

impl TypescriptCustomProperty {
    /// A field of the type `custom_type`.
    pub fn new(name: Option<String>, custom_type: String) -> (r: Self)
        ensures
            r.name == name,
            r.custom_type == custom_type,
    {
        Self { name, custom_type }
    }

    /// Writes the field.
    pub fn to_string(&self) -> (r: String)
        ensures
            r@ == property_text(self@),
    {
        let mut out = self.custom_type.clone();
        if let Some(name) = &self.name {
            out.append(" ");
            out.append(name.as_str());
        }
        assert(out@ =~= property_text(self@));
        out
    }
}

impl View for TypescriptCustomProperty {
    type V = PropertyView;

    open spec fn view(&self) -> PropertyView {
        PropertyView { name: opt_view(self.name), repeated: false, token: self.custom_type@ }
    }
}

/// A field of a message.
#[derive(Debug)]
pub enum Property {
    /// Of a primitive type.
    Keyword(TypescriptProperty),
    /// Repeated, of a primitive type.
    Array(TypescriptArrayProperty),
    /// Of a named type.
    Custom(TypescriptCustomProperty),
    /// Repeated, of a named type.
    CustomArray(TypescriptCustomProperty),
}

impl View for Property {
    type V = PropertyView;

    open spec fn view(&self) -> PropertyView {
        match self {
            Property::Keyword(p) => p@,
            Property::Array(p) => p@,
            Property::Custom(p) => p@,
            Property::CustomArray(p) => PropertyView {
                name: p@.name,
                repeated: true,
                token: p@.token,
            },
        }
    }
}

impl Property {
    /// Writes the field.
    pub fn to_string(&self) -> (r: String)
        ensures
            r@ == property_text(self@),
    {
        match self {
            Property::Keyword(p) => p.to_string(),
            Property::Array(p) => p.to_string(),
            Property::Custom(p) => p.to_string(),
            Property::CustomArray(p) => {
                let mut out = String::from_str("repeated ");
                out.append(p.to_string().as_str());
                assert(out@ =~= property_text(self@));
                out
            },
        }
    }
}

/// Whether a type makes its field repeated: an array of primitives or of a
/// named type.
pub open spec fn is_repeated(ty: TsTypeView) -> bool {
    match ty {
        TsTypeView::Array(elem) => match *elem {
            TsTypeView::Keyword(_) => true,
            TsTypeView::Ref { .. } => true,
            _ => false,
        },
        _ => false,
    }
}

/// The field of the name `name` and the type `ty`: its token is that of
/// the protobuf backend, and an array makes it repeated. An error where a
/// keyword that is no primitive stands in the type.
pub open spec fn property_of(name: Option<Seq<char>>, ty: TsTypeView) -> Result<
    PropertyView,
    TranspileError,
> {
    match ConversionType::Protobuf.type_token(ty) {
        Some(token) => Ok(PropertyView { name, repeated: is_repeated(ty), token }),
        None => Err(TranspileError::UnsupportedPrimitiveKind),
    }
}

/// Builds the field of the name `name` and the type `ts_type`, as
/// [`property_of`] says.
pub fn ts_type_factory(name: Option<String>, ts_type: &TsType) -> (r: Result<
    Property,
    TranspileError,
>)
    ensures
        agrees(r, property_of(opt_view(name), ts_type@)),
{
    proof {
        reveal_with_fuel(type_view, 2);
    }
    match ts_type {
        TsType::Keyword(kind) => match TypescriptProperty::new(name, *kind) {
            Ok(p) => {
                proof {
                    lemma_token_of_primitive(p.value);
                }
                Ok(Property::Keyword(p))
            },
            Err(e) => Err(e),
        },
        TsType::Array(elem) => match &**elem {
            TsType::Keyword(kind) => match TypescriptArrayProperty::new(name, *kind) {
                Ok(p) => {
                    proof {
                        lemma_token_of_primitive(p.property.value);
                    }
                    Ok(Property::Array(p))
                },
                Err(e) => Err(e),
            },
            TsType::Ref { name: EntityName::Ident(id), .. } => Ok(
                Property::CustomArray(TypescriptCustomProperty::new(name, id.clone())),
            ),
            _ => Ok(Property::Custom(TypescriptCustomProperty::new(name, unsupported_type()))),
        },
        TsType::Ref { name: EntityName::Ident(id), .. } => Ok(
            Property::Custom(
                TypescriptCustomProperty::new(
                    name,
                    ConversionType::Protobuf.map_non_ts_keywords(id.clone()),
                ),
            ),
        ),
        _ => Ok(Property::Custom(TypescriptCustomProperty::new(name, unsupported_type()))),
    }
}

/// A plain message: a name and fields.
#[derive(Debug)]
pub struct TypescriptInterface {
    pub name: String,
    pub properties: Vec<Property>,
    pub generics: Option<Vec<String>>,
}

/// A [`TypescriptInterface`] as a value of mathematics. The generic
/// parameters are not written, and are no part of it.
pub struct MessageView {
    pub name: Seq<char>,
    pub properties: Seq<PropertyView>,
}

impl View for TypescriptInterface {
    type V = MessageView;

    open spec fn view(&self) -> MessageView {
        MessageView { name: self.name@, properties: views(self.properties@) }
    }
}

/// The lines of the fields of a message: each indented, numbered from
/// [`FIRST_TAG`] on, on a line of its own.
pub open spec fn field_lines(properties: Seq<PropertyView>) -> Seq<Seq<char>> {
    Seq::new(
        properties.len(),
        |i: int|
            "  "@ + property_text(properties[i]) + " = "@ + decimal((i + FIRST_TAG) as nat)
                + ";\n"@,
    )
}

/// A message as text: the head, one numbered line for each field, the
/// closing brace.
pub open spec fn message_text(v: MessageView) -> Seq<char> {
    "message "@ + v.name + " {\n"@ + concat_all(field_lines(v.properties)) + "}\n"@
}

/// The field that a member of an interface gives: a property gives one,
/// named by its key; every other member is skipped.
pub open spec fn message_field_of(member: TypeElementView) -> Result<
    Option<PropertyView>,
    TranspileError,
> {
    match member {
        TypeElementView::Property { key, ty, .. } => match property_of(Some(key), ty) {
            Ok(p) => Ok(Some(p)),
            Err(e) => Err(e),
        },
        _ => Ok(None),
    }
}

/// [`message_field_of`] as a function value.
pub open spec fn message_field_fn() -> spec_fn(TypeElementView) -> Result<
    Option<PropertyView>,
    TranspileError,
> {
    |member: TypeElementView| message_field_of(member)
}

/// The message of the name `name` with the fields that `members` give, in
/// their order; or the error of the first member that has one.
pub open spec fn message_of(name: Seq<char>, members: Seq<TypeElementView>) -> Result<
    MessageView,
    TranspileError,
> {
    match collect(members, message_field_fn()) {
        Ok(properties) => Ok(MessageView { name, properties }),
        Err(e) => Err(e),
    }
}

impl TypescriptInterface {
    /// A message of these parts.
    pub fn new(n: String, p: Vec<Property>, g: Option<Vec<String>>) -> (r: Self)
        ensures
            r.name == n,
            r.properties == p,
            r.generics == g,
    {
        Self { name: n, properties: p, generics: g }
    }

    /// Builds the message of an interface body, as [`message_of`] says.
    pub fn from_interface_body(interface_id: String, interface_body_items: &Vec<TypeElement>) -> (r:
        Result<Self, TranspileError>)
        ensures
            agrees(r, message_of(interface_id@, views(interface_body_items@))),
            r is Ok ==> r->Ok_0.generics is None,
    {
        let mut properties: Vec<Property> = Vec::new();
        let mut i: usize = 0;
        assert(views(properties@) =~= Seq::empty());
        while i < interface_body_items.len()
            invariant
                i <= interface_body_items.len(),
                collect(views(interface_body_items@).take(i as int), message_field_fn()) == Ok::<
                    _,
                    TranspileError,
                >(views(properties@)),
            decreases interface_body_items.len() - i,
        {
            proof {
                lemma_collect_take(views(interface_body_items@), message_field_fn(), i as int);
            }
            let ghost before = views(properties@);
            match &interface_body_items[i] {
                TypeElement::Property {
                    key: PropKey::Ident(key),
                    ty: Some(ty),
                    ..
                } => match ts_type_factory(Some(key.clone()), ty) {
                    Ok(p) => {
                        properties.push(p);
                        assert(views(properties@) =~= before.push(p@));
                    },
                    Err(e) => {
                        proof {
                            lemma_collect_error(
                                views(interface_body_items@),
                                message_field_fn(),
                                i + 1,
                            );
                        }
                        return Err(e);
                    },
                },
                _ => {},
            }
            i += 1;
        }
        proof {
            assert(views(interface_body_items@).take(interface_body_items.len() as int)
                =~= views(interface_body_items@));
        }
        Ok(Self::new(interface_id, properties, None))
    }

    /// Writes the message.
    pub fn to_string(&self) -> (r: String)
        ensures
            r@ == message_text(self@),
    {
        let mut output = String::from_str("message ");
        output.append(self.name.as_str());
        output.append(" {\n");
        let ghost head = output@;
        let ghost lines = field_lines(self@.properties);
        let mut i: usize = 0;
        while i < self.properties.len()
            invariant
                i <= self.properties.len(),
                lines == field_lines(self@.properties),
                lines.len() == self.properties.len(),
                output@ == head + concat_all(lines.take(i as int)),
            decreases self.properties.len() - i,
        {
            let p = self.properties[i].to_string();
            let tag = number_text(i + FIRST_TAG);
            output.append("  ");
            output.append(p.as_str());
            output.append(" = ");
            output.append(tag.as_str());
            output.append(";\n");
            proof {
                lemma_concat_all_take(lines, i as int);
                assert(lines[i as int] == "  "@ + property_text(self.properties[i as int]@)
                    + " = "@ + decimal((i + FIRST_TAG) as nat) + ";\n"@);
                assert(output@ =~= head + concat_all(lines.take(i + 1)));
            }
            i += 1;
        }
        proof {
            assert(lines.take(self.properties.len() as int) =~= lines);
        }
        output.append("}\n");
        output
    }
}

/// A map: a message whose one field is a `map` from a primitive type to a
/// type.
#[derive(Debug)]
pub struct TypescriptMapInterface {
    pub name: String,
    pub keyword_name: String,
    pub keyword_type: TypescriptProperty,
    pub value_type: Property,
}

/// A [`TypescriptMapInterface`] as a value of mathematics.
pub struct MapMessageView {
    pub name: Seq<char>,
    pub keyword_name: Seq<char>,
    pub keyword_type: PropertyView,
    pub value_type: PropertyView,
}

impl View for TypescriptMapInterface {
    type V = MapMessageView;

    open spec fn view(&self) -> MapMessageView {
        MapMessageView {
            name: self.name@,
            keyword_name: self.keyword_name@,
            keyword_type: self.keyword_type@,
            value_type: self.value_type@,
        }
    }
}

/// A map as text: the head, the `map` field with the number
/// [`FIRST_TAG`], the closing brace.
pub open spec fn map_message_text(v: MapMessageView) -> Seq<char> {
    "message "@ + v.name + " {\n"@ + "  map<"@ + property_text(v.keyword_type) + ", "@
        + property_text(v.value_type) + "> "@ + v.keyword_name + " = "@ + decimal(FIRST_TAG as nat)
        + ";\n"@ + "}\n"@
}

/// The map of the name `name` whose key is called `keyword_name` and has
/// the primitive type of `keyword_kind`, and whose values have the type
/// `ty`. An error where a keyword that is no primitive is met.
pub open spec fn map_message_of(
    name: Seq<char>,
    keyword_name: Seq<char>,
    keyword_kind: KeywordKind,
    ty: TsTypeView,
) -> Result<MapMessageView, TranspileError> {
    match (ConversionType::Protobuf.primitive_token(keyword_kind), property_of(None, ty)) {
        (Some(token), Ok(value_type)) => Ok(
            MapMessageView {
                name,
                keyword_name,
                keyword_type: PropertyView { name: None, repeated: false, token },
                value_type,
            },
        ),
        _ => Err(TranspileError::UnsupportedPrimitiveKind),
    }
}

impl TypescriptMapInterface {
    /// Builds a map, as [`map_message_of`] says.
    pub fn new(
        name: String,
        keyword_name: String,
        keyword_kind: KeywordKind,
        type_ann: &TsType,
    ) -> (r: Result<Self, TranspileError>)
        ensures
            agrees(r, map_message_of(name@, keyword_name@, keyword_kind, type_ann@)),
    {
        let keyword_type = match TypescriptProperty::new(None, keyword_kind) {
            Ok(p) => p,
            Err(e) => {
                return Err(e);
            },
        };
        proof {
            lemma_token_of_primitive(keyword_type.value);
        }
        let value_type = match ts_type_factory(None, type_ann) {
            Ok(p) => p,
            Err(e) => {
                return Err(e);
            },
        };
        Ok(Self { name, keyword_name, keyword_type, value_type })
    }

    /// Writes the map.
    pub fn to_string(&self) -> (r: String)
        ensures
            r@ == map_message_text(self@),
    {
        let mut output = String::from_str("message ");
        output.append(self.name.as_str());
        output.append(" {\n");
        output.append("  map<");
        output.append(self.keyword_type.to_string().as_str());
        output.append(", ");
        output.append(self.value_type.to_string().as_str());
        output.append("> ");
        output.append(self.keyword_name.as_str());
        output.append(" = ");
        output.append(number_text(FIRST_TAG).as_str());
        output.append(";\n");
        output.append("}\n");
        output
    }
}

/// A message with one message inside.
#[derive(Debug)]
pub struct TypescriptNestedInterface {
    pub name: String,
    pub value: TypescriptInterface,
}

/// A [`TypescriptNestedInterface`] as a value of mathematics.
pub struct NestedMessageView {
    pub name: Seq<char>,
    pub value: MessageView,
}

impl View for TypescriptNestedInterface {
    type V = NestedMessageView;

    open spec fn view(&self) -> NestedMessageView {
        NestedMessageView { name: self.name@, value: self.value@ }
    }
}

/// A nested message as text: the head, the inner message in full, the
/// closing brace.
pub open spec fn nested_message_text(v: NestedMessageView) -> Seq<char> {
    "message "@ + v.name + " {\n"@ + message_text(v.value) + "}\n"@
}

/// The message of the name `name` around the message that is called
/// `inner_name` and has the fields that `members` give.
pub open spec fn nested_message_of(
    name: Seq<char>,
    inner_name: Seq<char>,
    members: Seq<TypeElementView>,
) -> Result<NestedMessageView, TranspileError> {
    match message_of(inner_name, members) {
        Ok(value) => Ok(NestedMessageView { name, value }),
        Err(e) => Err(e),
    }
}

impl TypescriptNestedInterface {
    /// Builds a nested message, as [`nested_message_of`] says.
    pub fn new(interface_id: String, sub_interface_id: String, properties: &Vec<TypeElement>) -> (r:
        Result<Self, TranspileError>)
        ensures
            agrees(r, nested_message_of(interface_id@, sub_interface_id@, views(properties@))),
    {
        match TypescriptInterface::from_interface_body(sub_interface_id, properties) {
            Ok(interface) => Ok(Self { name: interface_id, value: interface }),
            Err(e) => Err(e),
        }
    }

    /// Writes the nested message.
    pub fn to_string(&self) -> (r: String)
        ensures
            r@ == nested_message_text(self@),
    {
        let mut output = String::from_str("message ");
        output.append(self.name.as_str());
        output.append(" {\n");
        output.append(self.value.to_string().as_str());
        output.append("}\n");
        output
    }
}

/// An interface as protobuf.
#[derive(Debug)]
pub enum Interface {
    Message(TypescriptInterface),
    MapMessage(TypescriptMapInterface),
    NestedMessage(TypescriptNestedInterface),
}

/// An [`Interface`] as a value of mathematics.
pub enum InterfaceView {
    Message(MessageView),
    MapMessage(MapMessageView),
    NestedMessage(NestedMessageView),
}

impl View for Interface {
    type V = InterfaceView;

    open spec fn view(&self) -> InterfaceView {
        match self {
            Interface::Message(m) => InterfaceView::Message(m@),
            Interface::MapMessage(m) => InterfaceView::MapMessage(m@),
            Interface::NestedMessage(m) => InterfaceView::NestedMessage(m@),
        }
    }
}

/// An interface as text, by its shape.
pub open spec fn interface_text(v: InterfaceView) -> Seq<char> {
    match v {
        InterfaceView::Message(m) => message_text(m),
        InterfaceView::MapMessage(m) => map_message_text(m),
        InterfaceView::NestedMessage(m) => nested_message_text(m),
    }
}

impl Interface {
    /// Writes the interface.
    pub fn to_string(&self) -> (r: String)
        ensures
            r@ == interface_text(self@),
    {
        match self {
            Interface::Message(m) => m.to_string(),
            Interface::MapMessage(m) => m.to_string(),
            Interface::NestedMessage(m) => m.to_string(),
        }
    }
}

/// What the only member of an interface is.
#[derive(Debug)]
pub enum TsInterfacePropertyTypes<'a> {
    /// A property of a type that is no inline object; `interface_id` is the
    /// property's key.
    TsProperty { interface_id: String, type_ann: &'a TsType },
    /// An index signature.
    TsIndexProperty {
        interface_id: String,
        keyword_id: String,
        keyword_kind: KeywordKind,
        type_ann: &'a TsType,
    },
    /// A property whose type is an inline object with these members.
    TsNestedProperty {
        interface_id: String,
        sub_interface_id: String,
        properties: &'a Vec<TypeElement>,
    },
    /// A member of any other shape.
    TsUnionType,
}

impl<'a> TsInterfacePropertyTypes<'a> {
    /// That `self` is what the member `element` of the interface called
    /// `id` is.
    pub open spec fn describes(self, element: TypeElementView, id: Seq<char>) -> bool {
        match element {
            TypeElementView::Property { key, ty, .. } => match ty {
                TsTypeView::Lit(members) => match self {
                    TsInterfacePropertyTypes::TsNestedProperty {
                        interface_id,
                        sub_interface_id,
                        properties,
                    } => interface_id@ == id && sub_interface_id@ == key && views(properties@)
                        == members,
                    _ => false,
                },
                _ => match self {
                    TsInterfacePropertyTypes::TsProperty { interface_id, type_ann } => interface_id@
                        == key && type_ann@ == ty,
                    _ => false,
                },
            },
            TypeElementView::Index { key_name, key_kind, ty } => match self {
                TsInterfacePropertyTypes::TsIndexProperty {
                    interface_id,
                    keyword_id,
                    keyword_kind,
                    type_ann,
                } => interface_id@ == id && keyword_id@ == key_name && keyword_kind == key_kind
                    && type_ann@ == ty,
                _ => false,
            },
            TypeElementView::Other => self is TsUnionType,
        }
    }

    /// Tells what a member of the interface called `ts_interface_id` is.
    pub fn extract_interface_params(element: &'a TypeElement, ts_interface_id: String) -> (r:
        TsInterfacePropertyTypes<'a>)
        ensures
            r.describes(element@, ts_interface_id@),
    {
        match element {
            TypeElement::Property { key: PropKey::Ident(key), ty: Some(ty), .. } => {
                if let TsType::Lit(members) = ty {
                    proof {
                        lemma_lit_view(*members);
                    }
                    TsInterfacePropertyTypes::TsNestedProperty {
                        interface_id: ts_interface_id,
                        sub_interface_id: key.clone(),
                        properties: members,
                    }
                } else {
                    TsInterfacePropertyTypes::TsProperty {
                        interface_id: key.clone(),
                        type_ann: ty,
                    }
                }
            },
            TypeElement::Index { params, ty: Some(ty) } => match first_index_key(params) {
                Some((key_name, key_kind)) => TsInterfacePropertyTypes::TsIndexProperty {
                    interface_id: ts_interface_id,
                    keyword_id: key_name.clone(),
                    keyword_kind: key_kind,
                    type_ann: ty,
                },
                None => TsInterfacePropertyTypes::TsUnionType,
            },
            _ => TsInterfacePropertyTypes::TsUnionType,
        }
    }
}

/// What an interface with the one member `member` becomes: an index
/// signature makes a map; a property whose type is an inline object makes
/// a nested message; any other property makes a message with that one
/// field, and any other member a message without fields.
pub open spec fn single_member_interface(name: Seq<char>, member: TypeElementView) -> Result<
    InterfaceView,
    TranspileError,
> {
    match member {
        TypeElementView::Index { key_name, key_kind, ty } => match map_message_of(
            name,
            key_name,
            key_kind,
            ty,
        ) {
            Ok(m) => Ok(InterfaceView::MapMessage(m)),
            Err(e) => Err(e),
        },
        TypeElementView::Property {
            key,
            ty: TsTypeView::Lit(members),
            ..
        } => match nested_message_of(name, key, members) {
            Ok(m) => Ok(InterfaceView::NestedMessage(m)),
            Err(e) => Err(e),
        },
        _ => match message_of(name, seq![member]) {
            Ok(m) => Ok(InterfaceView::Message(m)),
            Err(e) => Err(e),
        },
    }
}

/// What an interface becomes: with one member, what that member makes of
/// it; else the message of its properties.
pub open spec fn interface_of(interface: InterfaceDeclView) -> Result<
    InterfaceView,
    TranspileError,
> {
    if interface.members.len() == 1 {
        single_member_interface(interface.name, interface.members[0])
    } else {
        match message_of(interface.name, interface.members) {
            Ok(m) => Ok(InterfaceView::Message(m)),
            Err(e) => Err(e),
        }
    }
}

/// Builds the interface called `ts_interface_id` whose one member is
/// `property`, as [`single_member_interface`] says.
pub fn interface_factory(property: &TypeElement, ts_interface_id: String) -> (r: Result<
    Interface,
    TranspileError,
>)
    ensures
        agrees(r, single_member_interface(ts_interface_id@, property@)),
{
    let name = ts_interface_id.clone();
    proof {
        reveal_with_fuel(collect, 2);
        assert(seq![property@].drop_last() =~= Seq::<TypeElementView>::empty());
        assert(seq![property@].last() == property@);
    }
    match TsInterfacePropertyTypes::extract_interface_params(property, ts_interface_id) {
        TsInterfacePropertyTypes::TsIndexProperty {
            interface_id,
            keyword_id,
            keyword_kind,
            type_ann,
        } => match TypescriptMapInterface::new(interface_id, keyword_id, keyword_kind, type_ann) {
            Ok(m) => Ok(Interface::MapMessage(m)),
            Err(e) => Err(e),
        },
        TsInterfacePropertyTypes::TsNestedProperty {
            interface_id,
            sub_interface_id,
            properties,
        } => match TypescriptNestedInterface::new(interface_id, sub_interface_id, properties) {
            Ok(m) => Ok(Interface::NestedMessage(m)),
            Err(e) => Err(e),
        },
        TsInterfacePropertyTypes::TsProperty { interface_id, type_ann } => match ts_type_factory(
            Some(interface_id),
            type_ann,
        ) {
            Ok(p) => {
                let mut properties: Vec<Property> = Vec::new();
                properties.push(p);
                assert(views(properties@) =~= seq![p@]);
                assert(Seq::<PropertyView>::empty().push(p@) =~= seq![p@]);
                Ok(Interface::Message(TypescriptInterface::new(name, properties, None)))
            },
            Err(e) => Err(e),
        },
        TsInterfacePropertyTypes::TsUnionType => {
            let properties: Vec<Property> = Vec::new();
            assert(views(properties@) =~= Seq::empty());
            Ok(Interface::Message(TypescriptInterface::new(name, properties, None)))
        },
    }
}

/// Builds what an interface becomes, as [`interface_of`] says.
pub fn handle_interface(ts_interface: &InterfaceDecl) -> (r: Result<Interface, TranspileError>)
    ensures
        agrees(r, interface_of(ts_interface@)),
{
    if ts_interface.members.len() == 1 {
        assert(ts_interface@.members[0] == ts_interface.members[0]@);
        interface_factory(&ts_interface.members[0], ts_interface.name.clone())
    } else {
        match TypescriptInterface::from_interface_body(
            ts_interface.name.clone(),
            &ts_interface.members,
        ) {
            Ok(m) => Ok(Interface::Message(m)),
            Err(e) => Err(e),
        }
    }
}

/// The shape of what an interface becomes is the shape that its members
/// imply: a map for one index signature, a nested message for one property
/// of an inline object type, a plain message in every other case.
pub proof fn lemma_interface_shape(interface: InterfaceDeclView)
    requires
        interface_of(interface) is Ok,
    ensures
        match interface_kind(interface.members) {
            DeclKind::MapRecord => interface_of(interface)->Ok_0 is MapMessage,
            DeclKind::NestedRecord => interface_of(interface)->Ok_0 is NestedMessage,
            _ => interface_of(interface)->Ok_0 is Message,
        },
{
}

/// Whether a member is a property whose type has a token.
pub open spec fn is_mapped_property(member: TypeElementView) -> bool {
    match member {
        TypeElementView::Property { ty, .. } => ConversionType::Protobuf.type_token(ty) is Some,
        _ => false,
    }
}

/// The field of a property whose type has a token.
pub open spec fn property_field(member: TypeElementView) -> PropertyView
    recommends
        is_mapped_property(member),
{
    match member {
        TypeElementView::Property { key, ty, .. } => PropertyView {
            name: Some(key),
            repeated: is_repeated(ty),
            token: ConversionType::Protobuf.type_token(ty).unwrap(),
        },
        _ => arbitrary(),
    }
}

/// An interface with more than one member becomes a plain message. Where
/// each member is a property whose type has a token, the message has as
/// many fields as the interface has members, and the field in each place
/// is that of the member in that place.
pub proof fn lemma_message_keeps_fields(interface: InterfaceDeclView)
    requires
        interface.members.len() > 1,
        forall|i: int|
            0 <= i < interface.members.len() ==> is_mapped_property(
                #[trigger] interface.members[i],
            ),
    ensures
        interface_of(interface) == Ok::<_, TranspileError>(
            InterfaceView::Message(
                MessageView {
                    name: interface.name,
                    properties: Seq::new(
                        interface.members.len(),
                        |i: int| property_field(interface.members[i]),
                    ),
                },
            ),
        ),
{
    let members = interface.members;
    let f = message_field_fn();
    assert forall|i: int| 0 <= i < members.len() implies (#[trigger] f(members[i])) is Ok && f(
        members[i],
    )->Ok_0 is Some by {
        assert(is_mapped_property(members[i]));
    }
    crate::collect::lemma_collect_all_kept(members, f);
    let fields = collect(members, f)->Ok_0;
    let expected = Seq::new(members.len(), |i: int| property_field(members[i]));
    assert forall|i: int| 0 <= i < members.len() implies fields[i] == expected[i] by {
        assert(is_mapped_property(members[i]));
        assert(Some(fields[i]) == f(members[i])->Ok_0);
    }
    assert(fields =~= expected);
}

/// An interface whose only member is an index signature becomes a map
/// from the token of the key's type to the field of the value's type, and
/// not a plain message.
pub proof fn lemma_index_signature_is_map(interface: InterfaceDeclView)
    requires
        interface.members.len() == 1,
        interface.members[0] is Index,
    ensures
        match interface.members[0] {
            TypeElementView::Index { key_name, key_kind, ty } => match (
                ConversionType::Protobuf.primitive_token(key_kind),
                ConversionType::Protobuf.type_token(ty),
            ) {
                (Some(key), Some(val)) => interface_of(interface) == Ok::<_, TranspileError>(
                    InterfaceView::MapMessage(
                        MapMessageView {
                            name: interface.name,
                            keyword_name: key_name,
                            keyword_type: PropertyView { name: None, repeated: false, token: key },
                            value_type: PropertyView {
                                name: None,
                                repeated: is_repeated(ty),
                                token: val,
                            },
                        },
                    ),
                ),
                _ => interface_of(interface) == Err::<InterfaceView, _>(
                    TranspileError::UnsupportedPrimitiveKind,
                ),
            },
            _ => true,
        },
{
}

/// An interface without members becomes a message without fields.
pub proof fn lemma_empty_interface(interface: InterfaceDeclView)
    requires
        interface.members.len() == 0,
    ensures
        interface_of(interface) == Ok::<_, TranspileError>(
            InterfaceView::Message(
                MessageView { name: interface.name, properties: Seq::empty() },
            ),
        ),
{
}

} // verus!
