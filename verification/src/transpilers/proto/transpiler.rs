//! A module as protobuf: one block for each exported declaration.

use vstd::prelude::*;
use crate::ast::{Decl, DeclView, Module, ModuleItem, ModuleItemView, ModuleView};
use crate::class::{class_text, handle_class};
use crate::collect::{collect, lemma_collect_error, lemma_collect_take};
use crate::enums::{build_enum, enum_of, proto_enum_text};
use crate::model::{agrees_each, views};
use crate::transpilers::proto::interface::{handle_interface, interface_of, interface_text};
use crate::utils::{ConversionType, TranspileError};

verus! {

/// Writes the exported declarations of a module as protobuf.
#[derive(Debug)]
pub struct ProtoTranspiler {
    pub module: Module,
}

/// The block of a top-level item: an exported interface is written as a
/// message, an exported enum as an enum, and the methods of an exported
/// class as calls with protobuf's primitive types; every other item is
/// skipped.
pub open spec fn proto_block(item: ModuleItemView) -> Result<Option<Seq<char>>, TranspileError> {
    if !item.exported {
        Ok(None)
    } else {
        match item.decl {
            DeclView::Interface(interface) => match interface_of(interface) {
                Ok(v) => Ok(Some(interface_text(v))),
                Err(e) => Err(e),
            },
            DeclView::Enum(decl) => Ok(Some(proto_enum_text(enum_of(decl)))),
            DeclView::Class(class) => match class_text(class, ConversionType::Protobuf) {
                Ok(text) => Ok(Some(text)),
                Err(e) => Err(e),
            },
            DeclView::Other => Ok(None),
        }
    }
}

/// [`proto_block`] as a function value.
pub open spec fn proto_block_fn() -> spec_fn(ModuleItemView) -> Result<
    Option<Seq<char>>,
    TranspileError,
> {
    |item: ModuleItemView| proto_block(item)
}

/// The blocks of a module: those of its exported declarations, in source
/// order; or the error of the first declaration that has one.
pub open spec fn proto_blocks(module: ModuleView) -> Result<Seq<Seq<char>>, TranspileError> {
    collect(module.body, proto_block_fn())
}

impl ProtoTranspiler {
    /// A transpiler for `module`.
    pub fn new(module: Module) -> (r: Self)
        ensures
            r.module == module,
    {
        ProtoTranspiler { module }
    }

    /// Writes one item, as [`proto_block`] says.
    pub fn transpile_item(item: &ModuleItem) -> (r: Result<Option<String>, TranspileError>)
        ensures
            match r {
                Ok(Some(text)) => proto_block(item@) == Ok::<_, TranspileError>(Some(text@)),
                Ok(None) => proto_block(item@) == Ok::<Option<Seq<char>>, TranspileError>(None),
                Err(e) => proto_block(item@) == Err::<Option<Seq<char>>, _>(e),
            },
    {
        if !item.exported {
            return Ok(None);
        }
        match &item.decl {
            Decl::Interface(interface) => match handle_interface(interface) {
                Ok(i) => Ok(Some(i.to_string())),
                Err(e) => Err(e),
            },
            Decl::Enum(decl) => Ok(Some(build_enum(decl).fmt_proto())),
            Decl::Class(class) => match handle_class(class, ConversionType::Protobuf) {
                Ok(text) => Ok(Some(text)),
                Err(e) => Err(e),
            },
            Decl::Other => Ok(None),
        }
    }

    /// Writes the module: the blocks of its exported declarations, in
    /// source order; or the error of the first declaration that has one.
    pub fn transpile(self) -> (r: Result<Vec<String>, TranspileError>)
        ensures
            agrees_each(r, proto_blocks(self.module@)),
    {
        let mut transpiled_code: Vec<String> = Vec::new();
        let mut i: usize = 0;
        assert(views(transpiled_code@) =~= Seq::empty());
        while i < self.module.body.len()
            invariant
                i <= self.module.body.len(),
                collect(views(self.module.body@).take(i as int), proto_block_fn()) == Ok::<
                    _,
                    TranspileError,
                >(views(transpiled_code@)),
            decreases self.module.body.len() - i,
        {
            proof {
                lemma_collect_take(views(self.module.body@), proto_block_fn(), i as int);
            }
            let ghost before = views(transpiled_code@);
            match ProtoTranspiler::transpile_item(&self.module.body[i]) {
                Ok(Some(text)) => {
                    transpiled_code.push(text);
                    assert(views(transpiled_code@) =~= before.push(text@));
                },
                Ok(None) => {},
                Err(e) => {
                    proof {
                        lemma_collect_error(views(self.module.body@), proto_block_fn(), i + 1);
                    }
                    return Err(e);
                },
            }
            i += 1;
        }
        proof {
            assert(views(self.module.body@).take(self.module.body.len() as int) =~= views(
                self.module.body@,
            ));
        }
        Ok(transpiled_code)
    }
}

} // verus!
