//! Which shape a declaration has.

use vstd::prelude::*;
use crate::ast::{
    first_index_key, Decl, DeclView, InterfaceDecl, PropKey, TsType, TsTypeView, TypeElement,
    TypeElementView,
};

verus! {

/// The shapes of declarations.
#[derive(Debug, Clone, Copy, PartialEq, Eq, Structural)]
pub enum DeclKind {
    /// A record of named fields.
    Record,
    /// A dictionary from a primitive to a type.
    MapRecord,
    /// A record whose one field is itself a record, written inline.
    NestedRecord,
    /// An enumeration.
    Enum,
    /// A class of remote-call methods.
    ServiceClass,
}

/// The shape of an interface with these members. With one member, the
/// member decides: an index signature makes a map, a property whose type is
/// an inline object makes a nested record, anything else a record. With no
/// member, or more than one, it is a record. The members are taken as the
/// transpiler sees them: an index signature whose key has no keyword as
/// its type, for one, is "anything else".
pub open spec fn interface_kind(members: Seq<TypeElementView>) -> DeclKind {
    if members.len() == 1 {
        match members[0] {
            TypeElementView::Index { .. } => DeclKind::MapRecord,
            TypeElementView::Property { ty: TsTypeView::Lit(_), .. } => DeclKind::NestedRecord,
            _ => DeclKind::Record,
        }
    } else {
        DeclKind::Record
    }
}

/// The shape of a declaration; none for a declaration that is neither an
/// interface, nor a class, nor an enum.
pub open spec fn decl_kind(decl: DeclView) -> Option<DeclKind> {
    match decl {
        DeclView::Enum(_) => Some(DeclKind::Enum),
        DeclView::Class(_) => Some(DeclKind::ServiceClass),
        DeclView::Interface(interface) => Some(interface_kind(interface.members)),
        DeclView::Other => None,
    }
}

/// Tells the shape of an interface.
pub fn classify_interface(interface: &InterfaceDecl) -> (kind: DeclKind)
    ensures
        kind == interface_kind(interface@.members),
{
    if interface.members.len() == 1 {
        assert(interface@.members[0] == interface.members[0]@);
        match &interface.members[0] {
            TypeElement::Index { params, ty: Some(_) } => match first_index_key(params) {
                Some(_) => DeclKind::MapRecord,
                None => DeclKind::Record,
            },
            TypeElement::Property {
                key: PropKey::Ident(_),
                ty: Some(TsType::Lit(_)),
                ..
            } => DeclKind::NestedRecord,
            _ => DeclKind::Record,
        }
    } else {
        DeclKind::Record
    }
}

/// Tells the shape of a declaration.
pub fn classify(decl: &Decl) -> (kind: Option<DeclKind>)
    ensures
        kind == decl_kind(decl@),
{
    match decl {
        Decl::Enum(_) => Some(DeclKind::Enum),
        Decl::Class(_) => Some(DeclKind::ServiceClass),
        Decl::Interface(interface) => Some(classify_interface(interface)),
        Decl::Other => None,
    }
}

} // verus!
