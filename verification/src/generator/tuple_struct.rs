//! Rendering of newtypes.

use vstd::prelude::*;
use vstd::string::*;
use crate::generator::layout::{tuple_macros, tuple_struct_text};
use crate::generator::{comment_text, modified_type, type_ident, Generator};
use crate::model::{opt_view, TupleStruct, TupleStructView};
use crate::text::empty_literal;

verus! {

/// A strategy that renders newtypes.
pub trait TupleStructGenerator {
    /// The text that this strategy gives a newtype whose nested types have
    /// the text `subtypes`.
    spec fn rendered(&self, entity: TupleStructView, subtypes: Seq<char>, gen: &Generator) -> Seq<
        char,
    >;

    /// Renders a newtype in front of the text of its nested types.
    fn generate(&self, entity: &TupleStruct, subtypes: &str, gen: &Generator) -> (r: String)
        ensures
            r@ == self.rendered(entity.view(), subtypes@, gen),
    ;
}

/// The default strategy: a transparent wrapper with one public field.
pub struct DefaultTupleStructGen;

impl DefaultTupleStructGen {
    /// The wrapped type, with the modifiers applied.
    pub fn get_type_name(&self, entity: &TupleStruct, gen: &Generator) -> (r: String)
        ensures
            r@ == modified_type(type_ident(entity.type_ref@), entity.modifiers),
    {
        let ident = gen.format_type_name(entity.type_ref.as_str());
        gen.modify_type(ident.as_str(), &entity.modifiers)
    }

    /// The name of the newtype, as it is written.
    pub fn get_name(&self, entity: &TupleStruct, gen: &Generator) -> (r: String)
        ensures
            r@ == type_ident(entity.name@),
    {
        gen.format_type_name(entity.name.as_str())
    }

    /// The attributes in front of the newtype.
    pub fn macros(&self, entity: &TupleStruct, gen: &Generator) -> (r: String)
        ensures
            r@ == tuple_macros(),
    {
        String::from_str(
            "#[derive(Debug, PartialEq, Clone, Serialize, Deserialize)]\n#[serde(transparent)]\n",
        )
    }

    /// The comment in front of the newtype.
    pub fn format_comment(&self, entity: &TupleStruct, gen: &Generator) -> (r: String)
        ensures
            r@ == comment_text(opt_view(entity.comment), Seq::empty()),
    {
        let r = gen.format_comment(&entity.comment, "");
        proof {
            empty_literal();
        }
        r
    }
}

impl TupleStructGenerator for DefaultTupleStructGen {
    open spec fn rendered(
        &self,
        entity: TupleStructView,
        subtypes: Seq<char>,
        gen: &Generator,
    ) -> Seq<char> {
        tuple_struct_text(entity, subtypes)
    }

    fn generate(&self, entity: &TupleStruct, subtypes: &str, gen: &Generator) -> (r: String) {
        let mut out = self.format_comment(entity, gen);
        out.append(self.macros(entity, gen).as_str());
        out.append("pub struct ");
        out.append(self.get_name(entity, gen).as_str());
        out.append(" (pub ");
        out.append(self.get_type_name(entity, gen).as_str());
        out.append(");\n");
        out.append(subtypes);
        out.append("\n\n");
        out
    }
}

} // verus!
