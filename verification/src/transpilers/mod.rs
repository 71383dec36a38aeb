//! The two transpilers and the choice between them.

pub mod proto;
pub mod rust;

use vstd::prelude::*;
use vstd::string::*;
use crate::ast::Module;
use crate::model::{agrees_each, views};
use crate::text::{join, join_strings};
use crate::transpilers::proto::transpiler::{proto_blocks, ProtoTranspiler};
use crate::transpilers::rust::transpiler::{rust_blocks, RustTranspiler};
use crate::utils::TranspileError;

verus! {

/// What `str::to_lowercase` makes of `s`.
pub uninterp spec fn lowercased(s: Seq<char>) -> Seq<char>;

/// Calls `str::to_lowercase`. The result depends on nothing but the
/// string: the contract gives it the name `lowercased`, and says no more of
/// it.
#[verifier::external_body]
fn to_lowercase(s: &str) -> (r: String)
    ensures
        r@ == lowercased(s@),
{
    s.to_lowercase()
}

/// A transpiler for one of the two backends.
#[derive(Debug)]
pub enum Transpiler {
    Proto(ProtoTranspiler),
    Rust(RustTranspiler),
}

impl Transpiler {
    /// The module that is transpiled.
    pub open spec fn module(self) -> Module {
        match self {
            Transpiler::Proto(t) => t.module,
            Transpiler::Rust(t) => t.module,
        }
    }

    /// The blocks of the module, as the chosen backend writes them.
    pub open spec fn blocks(self) -> Result<Seq<Seq<char>>, TranspileError> {
        match self {
            Transpiler::Proto(t) => proto_blocks(t.module@),
            Transpiler::Rust(t) => rust_blocks(t.module@),
        }
    }

    /// Writes the module with the chosen backend: the blocks of its
    /// exported declarations, in source order; or the error of the first
    /// declaration that has one.
    pub fn transpile(self) -> (r: Result<Vec<String>, TranspileError>)
        ensures
            agrees_each(r, self.blocks()),
    {
        match self {
            Transpiler::Proto(t) => t.transpile(),
            Transpiler::Rust(t) => t.transpile(),
        }
    }
}

/// Chooses the transpiler by the backend's name in lower case: `proto`
/// gives protobuf, every other name Rust.
pub fn choose_transpiler(module: Module, lowered: &str) -> (r: Transpiler)
    ensures
        r.module() == module,
        r is Proto <==> lowered@ == "proto"@,
{
    let proto = String::from_str("proto");
    let name = String::from_str(lowered);
    if name == proto {
        Transpiler::Proto(ProtoTranspiler::new(module))
    } else {
        Transpiler::Rust(RustTranspiler::new(module))
    }
}

/// Chooses the transpiler by the backend's name, in whatever case it is
/// written: `proto` gives protobuf, every other name Rust.
pub fn transpiler_factory(module: Module, conversion_type: String) -> (r: Transpiler)
    ensures
        r.module() == module,
        r is Proto <==> lowercased(conversion_type@) == "proto"@,
{
    let lowered = to_lowercase(conversion_type.as_str());
    choose_transpiler(module, lowered.as_str())
}

/// Joins the blocks of a module into one text, a line break between each
/// two. Each block ends its last line, so an empty line parts them.
pub fn join_blocks(blocks: &Vec<String>) -> (r: String)
    ensures
        r@ == join(views(blocks@), "\n"@),
{
    join_strings(blocks, "\n")
}

} // verus!
