//! Interfaces as records: a struct in Rust or a message in protobuf, and
//! the interface with one index signature as a map.

use vstd::prelude::*;
use vstd::string::*;
use crate::ast::{InterfaceDecl, InterfaceDeclView, TypeElement, TypeElementView};
use crate::classify::{classify_interface, interface_kind, DeclKind};
use crate::collect::{collect, lemma_collect_error, lemma_collect_take};
use crate::model::{agrees, agrees_each, views};
use crate::text::{
    clone_strings, concat_all, decimal, generic_name, lemma_concat_all_take, number_text,
    write_generic_name, FIRST_TAG,
};
use crate::utils::{param_text, ConversionType, Param, ParamView, TranspileError};

verus! {

/// A record: a name, generic parameters and fields.
#[derive(Debug)]
pub struct Interface {
    pub name: String,
    pub generics: Vec<String>,
    pub properties: Vec<Param>,
    pub conversion_type: ConversionType,
}

/// An [`Interface`] as a value of mathematics.
pub struct InterfaceView {
    pub name: Seq<char>,
    pub generics: Seq<Seq<char>>,
    pub properties: Seq<ParamView>,
    pub conversion_type: ConversionType,
}

impl View for Interface {
    type V = InterfaceView;

    open spec fn view(&self) -> InterfaceView {
        InterfaceView {
            name: self.name@,
            generics: views(self.generics@),
            properties: views(self.properties@),
            conversion_type: self.conversion_type,
        }
    }
}

/// The lines of the fields of a struct: each field indented, on a line of
/// its own.
pub open spec fn struct_lines(properties: Seq<ParamView>) -> Seq<Seq<char>> {
    Seq::new(properties.len(), |i: int| "  "@ + param_text(properties[i]) + "\n"@)
}

/// The lines of the fields of a message: each field indented, numbered
/// from [`FIRST_TAG`] on, on a line of its own.
pub open spec fn message_lines(properties: Seq<ParamView>) -> Seq<Seq<char>> {
    Seq::new(
        properties.len(),
        |i: int|
            "  "@ + param_text(properties[i]) + " = "@ + decimal((i + FIRST_TAG) as nat)
                + ";\n"@,
    )
}

/// A record as a Rust struct: the derives, the head with the generic
/// parameters, one line for each field, the closing brace.
pub open spec fn struct_text(v: InterfaceView) -> Seq<char> {
    "#[derive(Debug, Serialize, Deserialize)]\n"@ + "#[serde(rename_all = \"camelCase\")]\n"@
        + "pub struct "@ + generic_name(v.name, v.generics, ", "@) + " {\n"@ + concat_all(
        struct_lines(v.properties),
    ) + "}\n"@
}

/// A record as a protobuf message: the head, one numbered line for each
/// field, the closing brace.
pub open spec fn message_text(v: InterfaceView) -> Seq<char> {
    "message "@ + generic_name(v.name, v.generics, " "@) + " {\n"@ + concat_all(
        message_lines(v.properties),
    ) + "}\n"@
}

/// A record as its own backend writes it.
pub open spec fn record_text(v: InterfaceView) -> Seq<char> {
    match v.conversion_type {
        ConversionType::Rust => struct_text(v),
        ConversionType::Protobuf => message_text(v),
    }
}

impl Interface {
    /// Writes the record as a Rust struct.
    pub fn fmt_rust(&self) -> (r: String)
        ensures
            r@ == struct_text(self@),
    {
        let mut out = String::from_str("#[derive(Debug, Serialize, Deserialize)]\n");
        out.append("#[serde(rename_all = \"camelCase\")]\n");
        out.append("pub struct ");
        out.append(write_generic_name(&self.name, &self.generics, ", ").as_str());
        out.append(" {\n");
        let ghost head = out@;
        let ghost lines = struct_lines(self@.properties);
        let mut i: usize = 0;
        while i < self.properties.len()
            invariant
                i <= self.properties.len(),
                lines == struct_lines(self@.properties),
                lines.len() == self.properties.len(),
                out@ == head + concat_all(lines.take(i as int)),
            decreases self.properties.len() - i,
        {
            let p = self.properties[i].to_string();
            out.append("  ");
            out.append(p.as_str());
            out.append("\n");
            proof {
                lemma_concat_all_take(lines, i as int);
                assert(lines[i as int] == "  "@ + param_text(self.properties[i as int]@) + "\n"@);
                assert(out@ =~= head + concat_all(lines.take(i + 1)));
            }
            i += 1;
        }
        proof {
            assert(lines.take(self.properties.len() as int) =~= lines);
        }
        out.append("}\n");
        out
    }

    /// Writes the record as a protobuf message.
    pub fn fmt_proto(&self) -> (r: String)
        ensures
            r@ == message_text(self@),
    {
        let mut out = String::from_str("message ");
        out.append(write_generic_name(&self.name, &self.generics, " ").as_str());
        out.append(" {\n");
        let ghost head = out@;
        let ghost lines = message_lines(self@.properties);
        let mut i: usize = 0;
        while i < self.properties.len()
            invariant
                i <= self.properties.len(),
                lines == message_lines(self@.properties),
                lines.len() == self.properties.len(),
                out@ == head + concat_all(lines.take(i as int)),
            decreases self.properties.len() - i,
        {
            let p = self.properties[i].to_string();
            let tag = number_text(i + FIRST_TAG);
            out.append("  ");
            out.append(p.as_str());
            out.append(" = ");
            out.append(tag.as_str());
            out.append(";\n");
            proof {
                lemma_concat_all_take(lines, i as int);
                assert(lines[i as int] == "  "@ + param_text(self.properties[i as int]@) + " = "@
                    + decimal((i + FIRST_TAG) as nat) + ";\n"@);
                assert(out@ =~= head + concat_all(lines.take(i + 1)));
            }
            i += 1;
        }
        proof {
            assert(lines.take(self.properties.len() as int) =~= lines);
        }
        out.append("}\n");
        out
    }

    /// Writes the record for its own backend.
    pub fn to_string(&self) -> (r: String)
        ensures
            r@ == record_text(self@),
    {
        match self.conversion_type {
            ConversionType::Rust => self.fmt_rust(),
            ConversionType::Protobuf => self.fmt_proto(),
        }
    }
}

/// A dictionary: a name, generic parameters, and the tokens of the key's
/// and the value's type.
#[derive(Debug)]
pub struct MapInterface {
    pub prefix: String,
    pub name: String,
    pub generics: Vec<String>,
    pub key: String,
    pub val: String,
}

/// A [`MapInterface`] as a value of mathematics.
pub struct MapInterfaceView {
    pub prefix: Seq<char>,
    pub name: Seq<char>,
    pub generics: Seq<Seq<char>>,
    pub key: Seq<char>,
    pub val: Seq<char>,
}

impl View for MapInterface {
    type V = MapInterfaceView;

    open spec fn view(&self) -> MapInterfaceView {
        MapInterfaceView {
            prefix: self.prefix@,
            name: self.name@,
            generics: views(self.generics@),
            key: self.key@,
            val: self.val@,
        }
    }
}

/// A dictionary as text: a struct around a `HashMap` from the key's type to
/// the value's.
pub open spec fn map_text(v: MapInterfaceView) -> Seq<char> {
    "#[derive(Debug, Serialize, Deserialize)]\n"@ + "pub struct "@ + generic_name(
        v.name,
        v.generics,
        ", "@,
    ) + "(HashMap<"@ + v.key + ", "@ + v.val + ">);\n"@
}

impl MapInterface {
    /// Writes the dictionary.
    pub fn to_string(&self) -> (r: String)
        ensures
            r@ == map_text(self@),
    {
        let mut out = String::from_str("#[derive(Debug, Serialize, Deserialize)]\n");
        out.append("pub struct ");
        out.append(write_generic_name(&self.name, &self.generics, ", ").as_str());
        out.append("(HashMap<");
        out.append(self.key.as_str());
        out.append(", ");
        out.append(self.val.as_str());
        out.append(">);\n");
        out
    }
}

/// The field that a member of a record gives: a property gives one, with
/// the modifier and the token of its type; every other member is skipped.
/// A keyword that is no primitive in a property's type is an error.
pub open spec fn field_of(member: TypeElementView, ct: ConversionType) -> Result<
    Option<ParamView>,
    TranspileError,
> {
    match member {
        TypeElementView::Property { .. } => match ct.member_parts(member) {
            Ok(Some(m)) => Ok(
                Some(
                    ParamView {
                        prefix: m.prefix,
                        key: m.key,
                        val: m.val,
                        optional: m.optional,
                        conversion_type: ct,
                    },
                ),
            ),
            Ok(None) => Ok(None),
            Err(e) => Err(e),
        },
        _ => Ok(None),
    }
}

/// [`field_of`] for a fixed backend.
pub open spec fn field_fn(ct: ConversionType) -> spec_fn(TypeElementView) -> Result<
    Option<ParamView>,
    TranspileError,
> {
    |member: TypeElementView| field_of(member, ct)
}

/// The dictionary of an interface whose only member is an index
/// signature: from the token of the key's type to the token of the value's
/// type. An error where either is a keyword that is no primitive.
pub open spec fn map_of(interface: InterfaceDeclView, ct: ConversionType) -> Result<
    MapInterfaceView,
    TranspileError,
>
    recommends
        interface_kind(interface.members) == DeclKind::MapRecord,
{
    match ct.member_parts(interface.members[0]) {
        Ok(Some(m)) => Ok(
            MapInterfaceView {
                prefix: m.prefix,
                name: interface.name,
                generics: interface.generics,
                key: m.key,
                val: m.val,
            },
        ),
        Ok(None) => arbitrary(),
        Err(e) => Err(e),
    }
}

/// The record of an interface: the fields that its properties give, in
/// their order. An error where a keyword that is no primitive is met.
pub open spec fn record_of(interface: InterfaceDeclView, ct: ConversionType) -> Result<
    InterfaceView,
    TranspileError,
> {
    match collect(interface.members, field_fn(ct)) {
        Ok(properties) => Ok(
            InterfaceView {
                name: interface.name,
                generics: interface.generics,
                properties,
                conversion_type: ct,
            },
        ),
        Err(e) => Err(e),
    }
}

/// An interface as text. One whose only member is an index signature is
/// written as a dictionary; every other one as a record.
pub open spec fn interface_text(interface: InterfaceDeclView, ct: ConversionType) -> Result<
    Seq<char>,
    TranspileError,
> {
    if interface_kind(interface.members) == DeclKind::MapRecord {
        match map_of(interface, ct) {
            Ok(map) => Ok(map_text(map)),
            Err(e) => Err(e),
        }
    } else {
        match record_of(interface, ct) {
            Ok(record) => Ok(record_text(record)),
            Err(e) => Err(e),
        }
    }
}

/// Collects the fields of a record, as [`field_of`] says.
fn build_fields(members: &Vec<TypeElement>, ct: ConversionType) -> (r: Result<
    Vec<Param>,
    TranspileError,
>)
    ensures
        agrees_each(r, collect(views(members@), field_fn(ct))),
{
    let mut properties: Vec<Param> = Vec::new();
    let mut i: usize = 0;
    assert(views(properties@) =~= Seq::empty());
    while i < members.len()
        invariant
            i <= members.len(),
            collect(views(members@).take(i as int), field_fn(ct)) == Ok::<_, TranspileError>(
                views(properties@),
            ),
        decreases members.len() - i,
    {
        proof {
            lemma_collect_take(views(members@), field_fn(ct), i as int);
        }
        let ghost before = views(properties@);
        match &members[i] {
            TypeElement::Property { .. } => match ct.extract_key_value_from_ts_type_element(
                &members[i],
            ) {
                Ok(Some((prefix, key, val, optional, _))) => {
                    let p = Param { prefix, key, val, optional, conversion_type: ct.get() };
                    properties.push(p);
                    assert(views(properties@) =~= before.push(p@));
                },
                Ok(None) => {},
                Err(e) => {
                    proof {
                        lemma_collect_error(views(members@), field_fn(ct), i + 1);
                    }
                    return Err(e);
                },
            },
            _ => {},
        }
        i += 1;
    }
    proof {
        assert(views(members@).take(members.len() as int) =~= views(members@));
    }
    Ok(properties)
}

/// Writes an interface, as [`interface_text`] says.
pub fn handle_interface(interface: &InterfaceDecl, conversion_type: ConversionType) -> (r: Result<
    String,
    TranspileError,
>)
    ensures
        agrees(r, interface_text(interface@, conversion_type)),
{
    let generics = clone_strings(&interface.generics);
    match classify_interface(interface) {
        DeclKind::MapRecord => {
            assert(interface@.members[0] == interface.members[0]@);
            match conversion_type.extract_key_value_from_ts_type_element(&interface.members[0]) {
                Ok(Some((prefix, key, val, _, _))) => {
                    let map = MapInterface {
                        prefix,
                        generics,
                        name: interface.name.clone(),
                        key,
                        val,
                    };
                    Ok(map.to_string())
                },
                Ok(None) => {
                    // An index signature is never skipped.
                    assert(false);
                    Ok(String::new())
                },
                Err(e) => Err(e),
            }
        },
        _ => {
            match build_fields(&interface.members, conversion_type) {
                Ok(properties) => {
                    let record = Interface {
                        generics,
                        name: interface.name.clone(),
                        properties,
                        conversion_type,
                    };
                    Ok(record.to_string())
                },
                Err(e) => Err(e),
            }
        },
    }
}

/// Whether a member is a property whose type has a token.
pub open spec fn is_mapped_property(member: TypeElementView, ct: ConversionType) -> bool {
    match member {
        TypeElementView::Property { ty, .. } => ct.type_token(ty) is Some,
        _ => false,
    }
}

/// The field of a property whose type has a token.
pub open spec fn property_field(member: TypeElementView, ct: ConversionType) -> ParamView
    recommends
        is_mapped_property(member, ct),
{
    match member {
        TypeElementView::Property { key, ty, optional } => ParamView {
            prefix: ct.type_prefix(ty),
            key,
            val: ct.type_token(ty).unwrap(),
            optional,
            conversion_type: ct,
        },
        _ => arbitrary(),
    }
}

/// An interface with more than one member is written as a record. Where
/// each member is a property whose type has a token, the record has as
/// many fields as the interface has members, and the field in each place
/// is that of the member in that place.
pub proof fn lemma_record_keeps_fields(interface: InterfaceDeclView, ct: ConversionType)
    requires
        interface.members.len() > 1,
        forall|i: int|
            0 <= i < interface.members.len() ==> is_mapped_property(
                #[trigger] interface.members[i],
                ct,
            ),
    ensures
        interface_kind(interface.members) == DeclKind::Record,
        interface_text(interface, ct) == Ok::<_, TranspileError>(
            record_text(
                InterfaceView {
                    name: interface.name,
                    generics: interface.generics,
                    properties: Seq::new(
                        interface.members.len(),
                        |i: int| property_field(interface.members[i], ct),
                    ),
                    conversion_type: ct,
                },
            ),
        ),
{
    let members = interface.members;
    let f = field_fn(ct);
    assert forall|i: int| 0 <= i < members.len() implies (#[trigger] f(members[i])) is Ok && f(
        members[i],
    )->Ok_0 is Some by {
        assert(is_mapped_property(members[i], ct));
    }
    crate::collect::lemma_collect_all_kept(members, f);
    let fields = collect(members, f)->Ok_0;
    let expected = Seq::new(members.len(), |i: int| property_field(members[i], ct));
    assert forall|i: int| 0 <= i < members.len() implies fields[i] == expected[i] by {
        assert(is_mapped_property(members[i], ct));
        assert(Some(fields[i]) == f(members[i])->Ok_0);
    }
    assert(fields =~= expected);
}

/// An interface whose only member is an index signature is written as a
/// dictionary from the token of the key's type to the token of the
/// value's type, and not as a record.
pub proof fn lemma_index_signature_is_map(interface: InterfaceDeclView, ct: ConversionType)
    requires
        interface.members.len() == 1,
        interface.members[0] is Index,
    ensures
        interface_kind(interface.members) == DeclKind::MapRecord,
        match interface.members[0] {
            TypeElementView::Index { key_kind, ty, .. } => match (
                ct.primitive_token(key_kind),
                ct.type_token(ty),
            ) {
                (Some(key), Some(val)) => interface_text(interface, ct) == Ok::<_, TranspileError>(
                    map_text(
                        MapInterfaceView {
                            prefix: ct.type_prefix(ty),
                            name: interface.name,
                            generics: interface.generics,
                            key,
                            val,
                        },
                    ),
                ),
                _ => interface_text(interface, ct) == Err::<Seq<char>, _>(
                    TranspileError::UnsupportedPrimitiveKind,
                ),
            },
            _ => true,
        },
{
}

/// An interface without members is written as a record without fields.
pub proof fn lemma_empty_interface(interface: InterfaceDeclView, ct: ConversionType)
    requires
        interface.members.len() == 0,
    ensures
        interface_text(interface, ct) == Ok::<_, TranspileError>(
            record_text(
                InterfaceView {
                    name: interface.name,
                    generics: interface.generics,
                    properties: Seq::empty(),
                    conversion_type: ct,
                },
            ),
        ),
{
}

} // verus!
