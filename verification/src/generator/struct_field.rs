//! Rendering of the fields of a struct.

use vstd::prelude::*;
use vstd::string::*;
use crate::generator::layout::{
    field_macros, field_text, field_type_text, indent_text, scoped_type,
};
use crate::generator::{comment_text, Generator};
use crate::model::{opt_view, Field, FieldSource, FieldView};
use crate::naming::snake_case_of;

verus! {

/// A strategy that renders the fields of a struct.
pub trait StructFieldGenerator {
    /// The text that this strategy gives a field whose owner's nested scope
    /// is named `scope`.
    spec fn rendered(&self, entity: FieldView, scope: Seq<char>, gen: &Generator) -> Seq<char>;

    /// Renders a field. The name of the owner's nested scope is handed in, so
    /// that the type of a field that owns nested types is written with it.
    fn generate(&self, entity: &Field, scope: &str, gen: &Generator) -> (r: String)
        ensures
            r@ == self.rendered(entity.view(), scope@, gen),
    ;
}

/// The default strategy: a public field in snake case, renamed to its
/// declared name.
pub struct DefaultStructFieldGen;

impl DefaultStructFieldGen {
    /// The type of the field, in the owner's scope where the field owns
    /// nested types, with the field's modifiers applied.
    pub fn get_type_name(&self, entity: &Field, scope: &str, gen: &Generator) -> (r: String)
        ensures
            r@ == field_type_text(entity.view(), scope@),
    {
        let scoped = if entity.subtypes.len() > 0 {
            let mut s = String::from_str(scope);
            s.append("::");
            s.append(entity.type_ref.as_str());
            s
        } else {
            entity.type_ref.clone()
        };
        assert(scoped@ == scoped_type(entity.view(), scope@));
        let ident = gen.format_type_name(scoped.as_str());
        gen.modify_type(ident.as_str(), &entity.modifiers)
    }

    /// The name of the field, as it is written.
    pub fn get_name(&self, entity: &Field, gen: &Generator) -> (r: String)
        ensures
            r@ == snake_case_of(entity.name@),
    {
        gen.format_name(entity.name.as_str())
    }

    /// The comment in front of the field, at the field's indentation.
    pub fn format_comment(&self, entity: &Field, gen: &Generator) -> (r: String)
        ensures
            r@ == comment_text(opt_view(entity.comment), indent_text()),
    {
        gen.format_comment(&entity.comment, gen.indent().as_str())
    }

    /// The attributes in front of the field.
    pub fn macros(&self, entity: &Field, gen: &Generator) -> (r: String)
        ensures
            r@ == field_macros(entity.view()),
    {
        match entity.source {
            FieldSource::ChoiceGroup => {
                let mut out = gen.indent();
                out.append("#[serde(flatten)]\n");
                out
            },
            FieldSource::Attribute => {
                let mut out = gen.indent();
                out.append("#[serde(rename = \"@");
                out.append(entity.name.as_str());
                out.append("\")]\n");
                out
            },
            FieldSource::Element => {
                let mut out = gen.indent();
                out.append("#[serde(rename = \"");
                out.append(entity.name.as_str());
                out.append("\")]\n");
                out
            },
            _ => String::new(),
        }
    }
}

impl StructFieldGenerator for DefaultStructFieldGen {
    open spec fn rendered(&self, entity: FieldView, scope: Seq<char>, gen: &Generator) -> Seq<
        char,
    > {
        field_text(entity, scope)
    }

    fn generate(&self, entity: &Field, scope: &str, gen: &Generator) -> (r: String) {
        if entity.modifiers.suppressed {
            return String::new();
        }
        let mut out = self.format_comment(entity, gen);
        out.append(self.macros(entity, gen).as_str());
        out.append(gen.indent().as_str());
        out.append("pub ");
        out.append(self.get_name(entity, gen).as_str());
        out.append(": ");
        out.append(self.get_type_name(entity, scope, gen).as_str());
        out.append(",");
        out
    }
}

} // verus!
