//! Enums: the members named by an identifier, in Pascal case.

use vstd::prelude::*;
use vstd::string::*;
use crate::ast::{EnumDecl, EnumDeclView, EnumMember, EnumMemberView};
use crate::model::views;
use crate::text::{
    cased, concat_all, decimal, lemma_concat_all_take, number_text, to_case, CaseStyle, FIRST_TAG,
};

verus! {

/// An enum: its name and the names of its members.
#[derive(Debug)]
pub struct EnumIR {
    pub name: String,
    pub members: Vec<String>,
}

/// An [`EnumIR`] as a value of mathematics.
pub struct EnumView {
    pub name: Seq<char>,
    pub members: Seq<Seq<char>>,
}

impl View for EnumIR {
    type V = EnumView;

    open spec fn view(&self) -> EnumView {
        EnumView { name: self.name@, members: views(self.members@) }
    }
}

/// The names of the members that are named by an identifier, in Pascal
/// case and in their order. A member named by a string literal is left
/// out.
pub open spec fn member_names(members: Seq<EnumMemberView>) -> Seq<Seq<char>>
    decreases members.len(),
{
    if members.len() == 0 {
        Seq::empty()
    } else {
        match members.last() {
            EnumMemberView::Ident(name) => member_names(members.drop_last()).push(
                cased(name, CaseStyle::Pascal),
            ),
            EnumMemberView::Str(_) => member_names(members.drop_last()),
        }
    }
}

/// What an enum declaration becomes.
pub open spec fn enum_of(decl: EnumDeclView) -> EnumView {
    EnumView { name: decl.name, members: member_names(decl.members) }
}

/// The lines of the members of a Rust enum: each after a tab, on a line of
/// its own.
pub open spec fn rust_member_lines(members: Seq<Seq<char>>) -> Seq<Seq<char>> {
    Seq::new(members.len(), |i: int| "\t"@ + members[i] + "\n"@)
}

/// The lines of the members of a protobuf enum: each indented, numbered
/// from [`FIRST_TAG`] on, on a line of its own.
pub open spec fn proto_member_lines(members: Seq<Seq<char>>) -> Seq<Seq<char>> {
    Seq::new(
        members.len(),
        |i: int| "  "@ + members[i] + " = "@ + decimal((i + FIRST_TAG) as nat) + ";\n"@,
    )
}

/// An enum as Rust: the derives, the head, one line for each member, the
/// closing brace.
pub open spec fn rust_enum_text(v: EnumView) -> Seq<char> {
    "#[derive(Debug, Serialize, Deserialize)]\n"@ + "pub enum "@ + v.name + " {\n"@ + concat_all(
        rust_member_lines(v.members),
    ) + "}\n"@
}

/// An enum as protobuf: the head, one numbered line for each member, the
/// closing brace.
pub open spec fn proto_enum_text(v: EnumView) -> Seq<char> {
    "enum "@ + v.name + " {\n"@ + concat_all(proto_member_lines(v.members)) + "}\n"@
}

impl EnumIR {
    /// Writes the enum as Rust.
    pub fn fmt_rust(&self) -> (r: String)
        ensures
            r@ == rust_enum_text(self@),
    {
        let mut out = String::from_str("#[derive(Debug, Serialize, Deserialize)]\n");
        out.append("pub enum ");
        out.append(self.name.as_str());
        out.append(" {\n");
        let ghost head = out@;
        let ghost lines = rust_member_lines(self@.members);
        let mut i: usize = 0;
        while i < self.members.len()
            invariant
                i <= self.members.len(),
                lines == rust_member_lines(self@.members),
                lines.len() == self.members.len(),
                out@ == head + concat_all(lines.take(i as int)),
            decreases self.members.len() - i,
        {
            out.append("\t");
            out.append(self.members[i].as_str());
            out.append("\n");
            proof {
                lemma_concat_all_take(lines, i as int);
                assert(lines[i as int] == "\t"@ + self.members[i as int]@ + "\n"@);
                assert(out@ =~= head + concat_all(lines.take(i + 1)));
            }
            i += 1;
        }
        proof {
            assert(lines.take(self.members.len() as int) =~= lines);
        }
        out.append("}\n");
        out
    }

    /// Writes the enum as protobuf.
    pub fn fmt_proto(&self) -> (r: String)
        ensures
            r@ == proto_enum_text(self@),
    {
        let mut out = String::from_str("enum ");
        out.append(self.name.as_str());
        out.append(" {\n");
        let ghost head = out@;
        let ghost lines = proto_member_lines(self@.members);
        let mut i: usize = 0;
        while i < self.members.len()
            invariant
                i <= self.members.len(),
                lines == proto_member_lines(self@.members),
                lines.len() == self.members.len(),
                out@ == head + concat_all(lines.take(i as int)),
            decreases self.members.len() - i,
        {
            let tag = number_text(i + FIRST_TAG);
            out.append("  ");
            out.append(self.members[i].as_str());
            out.append(" = ");
            out.append(tag.as_str());
            out.append(";\n");
            proof {
                lemma_concat_all_take(lines, i as int);
                assert(lines[i as int] == "  "@ + self.members[i as int]@ + " = "@ + decimal(
                    (i + FIRST_TAG) as nat,
                ) + ";\n"@);
                assert(out@ =~= head + concat_all(lines.take(i + 1)));
            }
            i += 1;
        }
        proof {
            assert(lines.take(self.members.len() as int) =~= lines);
        }
        out.append("}\n");
        out
    }
}

/// Builds the enum of a declaration, as [`enum_of`] says.
pub fn build_enum(decl: &EnumDecl) -> (r: EnumIR)
    ensures
        r@ == enum_of(decl@),
{
    let mut members: Vec<String> = Vec::new();
    let mut i: usize = 0;
    assert(views(members@) =~= Seq::empty());
    while i < decl.members.len()
        invariant
            i <= decl.members.len(),
            views(members@) == member_names(views(decl.members@).take(i as int)),
        decreases decl.members.len() - i,
    {
        proof {
            assert(views(decl.members@).take(i + 1).drop_last() =~= views(decl.members@).take(
                i as int,
            ));
            assert(views(decl.members@).take(i + 1).last() == decl.members[i as int]@);
        }
        let ghost before = views(members@);
        match &decl.members[i] {
            EnumMember::Ident(name) => {
                let member = to_case(name.as_str(), CaseStyle::Pascal);
                members.push(member);
                assert(views(members@) =~= before.push(member@));
            },
            EnumMember::Str(_) => {},
        }
        i += 1;
    }
    proof {
        assert(views(decl.members@).take(decl.members.len() as int) =~= views(decl.members@));
    }
    EnumIR { name: decl.name.clone(), members }
}

/// Writes an enum as Rust: the members named by an identifier, in Pascal
/// case and in their order.
pub fn handle_enum(decl: &EnumDecl) -> (r: String)
    ensures
        r@ == rust_enum_text(enum_of(decl@)),
{
    build_enum(decl).fmt_rust()
}

/// An enum keeps its members: where each is named by an identifier, there
/// are as many names as members, and each is the member's name in Pascal
/// case, in its place.
pub proof fn lemma_enum_members_kept(members: Seq<EnumMemberView>)
    requires
        forall|i: int| 0 <= i < members.len() ==> members[i] is Ident,
    ensures
        member_names(members).len() == members.len(),
        forall|i: int|
            0 <= i < members.len() ==> #[trigger] member_names(members)[i] == cased(
                members[i]->Ident_0,
                CaseStyle::Pascal,
            ),
    decreases members.len(),
{
    if members.len() > 0 {
        lemma_enum_members_kept(members.drop_last());
    }
}

/// Equal input gives equal output: two declarations of the same name and
/// the same members are written as the same text, by either backend.
pub proof fn lemma_enum_text_determined(a: EnumDeclView, b: EnumDeclView)
    requires
        a.name == b.name,
        a.members == b.members,
    ensures
        rust_enum_text(enum_of(a)) == rust_enum_text(enum_of(b)),
        proto_enum_text(enum_of(a)) == proto_enum_text(enum_of(b)),
{
}

} // verus!
