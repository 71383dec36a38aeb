//! The type mapper: from a TypeScript type to the token that stands for it
//! in the output, for either backend; and the fields that are built from it.

use vstd::prelude::*;
use vstd::string::*;
use crate::ast::{
    first_index_key, type_view, EntityName, KeywordKind, PropKey, TsType, TsTypeView, TypeElement,
    TypeElementView,
};
use crate::text::{cased, to_case, CaseStyle};

verus! {

/// Why a declaration cannot be transpiled.
#[derive(Debug, Clone, Copy, PartialEq, Eq, Structural)]
pub enum TranspileError {
    /// A keyword type other than `string`, `number` and `boolean` stands
    /// where a primitive is mapped.
    UnsupportedPrimitiveKind,
    /// A method's return type is not a generic type with an argument, such
    /// as `Promise<T>`.
    MissingReturnType,
    /// A method's body has no `return await call("command", ...)`.
    MissingCommand,
}

impl TranspileError {
    /// The error in words.
    pub open spec fn message_text(self) -> Seq<char> {
        match self {
            TranspileError::UnsupportedPrimitiveKind => "unsupported primitive kind"@,
            TranspileError::MissingReturnType => "Missing return type"@,
            TranspileError::MissingCommand => "Missing function command"@,
        }
    }

    /// Says the error in words.
    pub fn message(&self) -> (r: String)
        ensures
            r@ == self.message_text(),
    {
        match self {
            TranspileError::UnsupportedPrimitiveKind => String::from_str(
                "unsupported primitive kind",
            ),
            TranspileError::MissingReturnType => String::from_str("Missing return type"),
            TranspileError::MissingCommand => String::from_str("Missing function command"),
        }
    }
}

/// The backend: the syntax that is written.
#[derive(Debug, Clone, Copy, PartialEq, Eq, Structural)]
pub enum ConversionType {
    /// Rust structs and enums.
    Rust,
    /// Protobuf messages.
    Protobuf,
}

/// The token that is written for a type of a shape that is not handled.
pub open spec fn unsupported_type_token() -> Seq<char> {
    "UNINPLEMENTED TSTYPE FOR PROPERTY INTERFACE"@
}

/// A field of a record or a parameter of a method.
#[derive(Debug)]
pub struct Param {
    /// The modifier in front of a protobuf field: `repeated` or nothing.
    pub prefix: String,
    /// The name, as the source spells it.
    pub key: String,
    /// The token of the type.
    pub val: String,
    pub optional: bool,
    pub conversion_type: ConversionType,
}

/// A [`Param`] as a value of mathematics.
pub struct ParamView {
    pub prefix: Seq<char>,
    pub key: Seq<char>,
    pub val: Seq<char>,
    pub optional: bool,
    pub conversion_type: ConversionType,
}

impl View for Param {
    type V = ParamView;

    open spec fn view(&self) -> ParamView {
        ParamView {
            prefix: self.prefix@,
            key: self.key@,
            val: self.val@,
            optional: self.optional,
            conversion_type: self.conversion_type,
        }
    }
}

/// What an interface member contributes: the modifier, the key, the value's
/// token, whether it is optional, and whether the member is an index
/// signature (the key is then the token of the key's type).
pub struct MemberView {
    pub prefix: Seq<char>,
    pub key: Seq<char>,
    pub val: Seq<char>,
    pub optional: bool,
    pub map_interface: bool,
}

impl ConversionType {
    /// The backend itself.
    pub fn get(&self) -> (r: ConversionType)
        ensures
            r == *self,
    {
        match self {
            ConversionType::Protobuf => ConversionType::Protobuf,
            ConversionType::Rust => ConversionType::Rust,
        }
    }

    /// The token of a primitive type; none for a keyword that is no
    /// primitive.
    pub open spec fn primitive_token(self, kind: KeywordKind) -> Option<Seq<char>> {
        match self {
            ConversionType::Rust => match kind {
                KeywordKind::Str => Some("String"@),
                KeywordKind::Number => Some("u64"@),
                KeywordKind::Boolean => Some("bool"@),
                KeywordKind::Other => None,
            },
            ConversionType::Protobuf => match kind {
                KeywordKind::Str => Some("string"@),
                KeywordKind::Number => Some("int64"@),
                KeywordKind::Boolean => Some("bool"@),
                KeywordKind::Other => None,
            },
        }
    }

    fn map_type_rust(kind: KeywordKind) -> (r: Result<String, TranspileError>)
        ensures
            primitive_mapped(ConversionType::Rust, kind, r),
    {
        match kind {
            KeywordKind::Str => Ok(String::from_str("String")),
            KeywordKind::Number => Ok(String::from_str("u64")),
            KeywordKind::Boolean => Ok(String::from_str("bool")),
            KeywordKind::Other => Err(TranspileError::UnsupportedPrimitiveKind),
        }
    }

    fn map_type_proto(kind: KeywordKind) -> (r: Result<String, TranspileError>)
        ensures
            primitive_mapped(ConversionType::Protobuf, kind, r),
    {
        match kind {
            KeywordKind::Str => Ok(String::from_str("string")),
            KeywordKind::Number => Ok(String::from_str("int64")),
            KeywordKind::Boolean => Ok(String::from_str("bool")),
            KeywordKind::Other => Err(TranspileError::UnsupportedPrimitiveKind),
        }
    }

    /// Maps a primitive type to its token. Fails on a keyword that is no
    /// primitive, and only then.
    pub fn map_type(&self, kind: KeywordKind) -> (r: Result<String, TranspileError>)
        ensures
            primitive_mapped(*self, kind, r),
    {
        match self {
            ConversionType::Rust => ConversionType::map_type_rust(kind),
            ConversionType::Protobuf => ConversionType::map_type_proto(kind),
        }
    }

    /// The table of type names that are replaced: the replacement of `name`,
    /// if it has one.
    pub open spec fn replaced_name(self, name: Seq<char>) -> Option<Seq<char>> {
        if name == "BigNumber"@ {
            match self {
                ConversionType::Rust => Some("Decimal"@),
                ConversionType::Protobuf => Some("int64"@),
            }
        } else {
            None
        }
    }

    /// The token of a type that is referred to by name: its replacement if
    /// it has one, else the name itself.
    pub open spec fn named_token(self, name: Seq<char>) -> Seq<char> {
        match self.replaced_name(name) {
            Some(token) => token,
            None => name,
        }
    }

    /// Looks `name` up in the table of replaced type names.
    fn replacement(&self, name: &String) -> (r: Option<String>)
        ensures
            match r {
                Some(token) => self.replaced_name(name@) == Some(token@),
                None => self.replaced_name(name@) is None,
            },
    {
        let big_number = String::from_str("BigNumber");
        if *name == big_number {
            match self {
                ConversionType::Rust => Some(String::from_str("Decimal")),
                ConversionType::Protobuf => Some(String::from_str("int64")),
            }
        } else {
            None
        }
    }

    /// Maps the name of a type that is no keyword: `BigNumber` becomes the
    /// backend's decimal type, every other name stays.
    pub fn map_non_ts_keywords(&self, keyword: String) -> (r: String)
        ensures
            r@ == self.named_token(keyword@),
    {
        match self.replacement(&keyword) {
            Some(token) => token,
            None => keyword,
        }
    }

    /// The modifier that a type puts in front of its field: `repeated` for a
    /// protobuf array of primitives or of a named type, else nothing.
    pub open spec fn type_prefix(self, ty: TsTypeView) -> Seq<char> {
        match (self, ty) {
            (ConversionType::Protobuf, TsTypeView::Array(elem)) => match *elem {
                TsTypeView::Keyword(_) => "repeated"@,
                TsTypeView::Ref { .. } => "repeated"@,
                _ => ""@,
            },
            _ => ""@,
        }
    }

    /// The token of a type; none where a keyword that is no primitive stands
    /// in it. Rust wraps the element of an array in `Vec<..>`, protobuf
    /// leaves it bare (see [`Self::type_prefix`]). A type of any other shape
    /// has the placeholder [`unsupported_type_token`].
    pub open spec fn type_token(self, ty: TsTypeView) -> Option<Seq<char>> {
        match ty {
            TsTypeView::Ref { name, .. } => Some(self.named_token(name)),
            TsTypeView::Keyword(kind) => self.primitive_token(kind),
            TsTypeView::Array(elem) => match *elem {
                TsTypeView::Keyword(kind) => match self.primitive_token(kind) {
                    Some(token) => Some(self.sequence_of(token)),
                    None => None,
                },
                TsTypeView::Ref { name, .. } => Some(self.sequence_of(name)),
                _ => Some(unsupported_type_token()),
            },
            _ => Some(unsupported_type_token()),
        }
    }

    /// The token of an array whose elements have the token `elem`.
    pub open spec fn sequence_of(self, elem: Seq<char>) -> Seq<char> {
        match self {
            ConversionType::Rust => "Vec<"@ + elem + ">"@,
            ConversionType::Protobuf => elem,
        }
    }

    fn map_ts_type_rust(&self, type_ann: &TsType) -> (r: Result<(String, String), TranspileError>)
        requires
            *self == ConversionType::Rust,
        ensures
            type_mapped(*self, type_ann@, r),
    {
        proof {
            reveal_with_fuel(type_view, 2);
        }
        match type_ann {
            TsType::Ref { name: EntityName::Ident(name), .. } => Ok(
                (String::from_str(""), self.map_non_ts_keywords(name.clone())),
            ),
            TsType::Keyword(kind) => match self.map_type(*kind) {
                Ok(token) => Ok((String::from_str(""), token)),
                Err(e) => Err(e),
            },
            TsType::Array(elem) => match &**elem {
                TsType::Keyword(kind) => match self.map_type(*kind) {
                    Ok(token) => Ok((String::from_str(""), vec_of(token.as_str()))),
                    Err(e) => Err(e),
                },
                TsType::Ref { name: EntityName::Ident(name), .. } => Ok(
                    (String::from_str(""), vec_of(name.as_str())),
                ),
                _ => Ok((String::from_str(""), unsupported_type())),
            },
            _ => Ok((String::from_str(""), unsupported_type())),
        }
    }

    fn map_ts_type_proto(&self, type_ann: &TsType) -> (r: Result<(String, String), TranspileError>)
        requires
            *self == ConversionType::Protobuf,
        ensures
            type_mapped(*self, type_ann@, r),
    {
        proof {
            reveal_with_fuel(type_view, 2);
        }
        match type_ann {
            TsType::Ref { name: EntityName::Ident(name), .. } => Ok(
                (String::from_str(""), self.map_non_ts_keywords(name.clone())),
            ),
            TsType::Keyword(kind) => match self.map_type(*kind) {
                Ok(token) => Ok((String::from_str(""), token)),
                Err(e) => Err(e),
            },
            TsType::Array(elem) => match &**elem {
                TsType::Keyword(kind) => match self.map_type(*kind) {
                    Ok(token) => Ok((String::from_str("repeated"), token)),
                    Err(e) => Err(e),
                },
                TsType::Ref { name: EntityName::Ident(name), .. } => Ok(
                    (String::from_str("repeated"), name.clone()),
                ),
                _ => Ok((String::from_str(""), unsupported_type())),
            },
            _ => Ok((String::from_str(""), unsupported_type())),
        }
    }

    /// Maps a type to the modifier and the token that stand for it. Fails
    /// where a keyword that is no primitive stands in it, and only then.
    pub fn map_ts_types(&self, type_ann: &TsType) -> (r: Result<(String, String), TranspileError>)
        ensures
            type_mapped(*self, type_ann@, r),
    {
        match self {
            ConversionType::Rust => self.map_ts_type_rust(type_ann),
            ConversionType::Protobuf => self.map_ts_type_proto(type_ann),
        }
    }

    /// What a member of an interface contributes: a property its key and
    /// the token of its type; an index signature the tokens of its key's
    /// and its value's type. Nothing (`Ok(None)`) for a member of another
    /// shape; an error where a keyword that is no primitive is met.
    pub open spec fn member_parts(self, member: TypeElementView) -> Result<
        Option<MemberView>,
        TranspileError,
    > {
        match member {
            TypeElementView::Property { key, ty, optional } => match self.type_token(ty) {
                Some(val) => Ok(
                    Some(
                        MemberView {
                            prefix: self.type_prefix(ty),
                            key,
                            val,
                            optional,
                            map_interface: false,
                        },
                    ),
                ),
                None => Err(TranspileError::UnsupportedPrimitiveKind),
            },
            TypeElementView::Index { key_name, key_kind, ty } => match (
                self.type_token(ty),
                self.primitive_token(key_kind),
            ) {
                (Some(val), Some(key)) => Ok(
                    Some(
                        MemberView {
                            prefix: self.type_prefix(ty),
                            key,
                            val,
                            optional: false,
                            map_interface: true,
                        },
                    ),
                ),
                _ => Err(TranspileError::UnsupportedPrimitiveKind),
            },
            TypeElementView::Other => Ok(None),
        }
    }

    /// Takes modifier, key, value, optionality and the index-signature mark
    /// out of a member of an interface, as [`Self::member_parts`] says.
    pub fn extract_key_value_from_ts_type_element(&self, property: &TypeElement) -> (r: Result<
        Option<(String, String, String, bool, bool)>,
        TranspileError,
    >)
        ensures
            match r {
                Ok(Some(t)) => self.member_parts(property@) == Ok::<_, TranspileError>(
                    Some(
                        MemberView {
                            prefix: t.0@,
                            key: t.1@,
                            val: t.2@,
                            optional: t.3,
                            map_interface: t.4,
                        },
                    ),
                ),
                Ok(None) => self.member_parts(property@) == Ok::<
                    Option<MemberView>,
                    TranspileError,
                >(None),
                Err(e) => self.member_parts(property@) == Err::<Option<MemberView>, _>(e),
            },
    {
        match property {
            TypeElement::Property {
                key: PropKey::Ident(key),
                ty: Some(ty),
                optional,
            } => match self.map_ts_types(ty) {
                Ok((prefix, value)) => Ok(Some((prefix, key.clone(), value, *optional, false))),
                Err(e) => Err(e),
            },
            TypeElement::Index { params, ty: Some(ty) } => match first_index_key(params) {
                Some((_, key_kind)) => match self.map_ts_types(ty) {
                    Ok((prefix, value)) => match self.map_type(key_kind) {
                        Ok(key) => Ok(Some((prefix, key, value, false, true))),
                        Err(e) => Err(e),
                    },
                    Err(e) => Err(e),
                },
                None => Ok(None),
            },
            _ => Ok(None),
        }
    }
}

/// That `r` is what mapping the primitive `kind` gives.
pub open spec fn primitive_mapped(
    ct: ConversionType,
    kind: KeywordKind,
    r: Result<String, TranspileError>,
) -> bool {
    match r {
        Ok(token) => ct.primitive_token(kind) == Some(token@),
        Err(e) => ct.primitive_token(kind) is None && e == TranspileError::UnsupportedPrimitiveKind,
    }
}

/// That `r` is what mapping the type `ty` gives.
pub open spec fn type_mapped(
    ct: ConversionType,
    ty: TsTypeView,
    r: Result<(String, String), TranspileError>,
) -> bool {
    match r {
        Ok((prefix, token)) => ct.type_token(ty) == Some(token@) && prefix@ == ct.type_prefix(ty),
        Err(e) => ct.type_token(ty) is None && e == TranspileError::UnsupportedPrimitiveKind,
    }
}

/// The placeholder token, as a string.
pub(crate) fn unsupported_type() -> (r: String)
    ensures
        r@ == unsupported_type_token(),
{
    String::from_str("UNINPLEMENTED TSTYPE FOR PROPERTY INTERFACE")
}

/// `Vec<elem>`
pub(crate) fn vec_of(elem: &str) -> (r: String)
    ensures
        r@ == ConversionType::Rust.sequence_of(elem@),
{
    let mut out = String::from_str("Vec<");
    out.append(elem);
    out.append(">");
    out
}

/// A Rust field of the name `key`, already in snake case: `key: val,`,
/// with the type in `Option<..>` where the field is optional.
pub open spec fn rust_field_text(key: Seq<char>, val: Seq<char>, optional: bool) -> Seq<char> {
    key + ": "@ + (if optional {
        "Option<"@ + val + ">"@
    } else {
        val
    }) + ","@
}

/// A protobuf field of the name `key`, already in snake case:
/// `prefix key val`.
pub open spec fn proto_field_text(prefix: Seq<char>, key: Seq<char>, val: Seq<char>) -> Seq<char> {
    prefix + " "@ + key + " "@ + val
}

/// A field as the Rust backend writes it, with the key in snake case.
pub open spec fn param_text_rust(p: ParamView) -> Seq<char> {
    rust_field_text(cased(p.key, CaseStyle::Snake), p.val, p.optional)
}

/// A field as the protobuf backend writes it, with the key in snake case.
pub open spec fn param_text_proto(p: ParamView) -> Seq<char> {
    proto_field_text(p.prefix, cased(p.key, CaseStyle::Snake), p.val)
}

/// Writes a Rust field of a name that is in snake case already.
pub fn rust_field(key: &str, val: &str, optional: bool) -> (r: String)
    ensures
        r@ == rust_field_text(key@, val@, optional),
{
    let opt_val = if optional {
        let mut o = String::from_str("Option<");
        o.append(val);
        o.append(">");
        o
    } else {
        String::from_str(val)
    };
    let mut out = String::from_str(key);
    out.append(": ");
    out.append(opt_val.as_str());
    out.append(",");
    out
}

/// Writes a protobuf field of a name that is in snake case already.
pub fn proto_field(prefix: &str, key: &str, val: &str) -> (r: String)
    ensures
        r@ == proto_field_text(prefix@, key@, val@),
{
    let mut out = String::from_str(prefix);
    out.append(" ");
    out.append(key);
    out.append(" ");
    out.append(val);
    out
}

/// A field as its own backend writes it.
pub open spec fn param_text(p: ParamView) -> Seq<char> {
    match p.conversion_type {
        ConversionType::Protobuf => param_text_proto(p),
        ConversionType::Rust => param_text_rust(p),
    }
}

impl Param {
    /// Writes the field for Rust.
    pub fn fmt_rust(&self) -> (r: String)
        ensures
            r@ == param_text_rust(self@),
    {
        let key = to_case(self.key.as_str(), CaseStyle::Snake);
        rust_field(key.as_str(), self.val.as_str(), self.optional)
    }

    /// Writes the field for protobuf.
    pub fn fmt_proto(&self) -> (r: String)
        ensures
            r@ == param_text_proto(self@),
    {
        let key = to_case(self.key.as_str(), CaseStyle::Snake);
        proto_field(self.prefix.as_str(), key.as_str(), self.val.as_str())
    }

    /// Writes the field for its own backend.
    pub fn to_string(&self) -> (r: String)
        ensures
            r@ == param_text(self@),
    {
        match self.conversion_type {
            ConversionType::Protobuf => self.fmt_proto(),
            ConversionType::Rust => self.fmt_rust(),
        }
    }
}

} // verus!
