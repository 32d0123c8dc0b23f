//! Rendering of enums.

use vstd::prelude::*;
use vstd::string::*;
use crate::generator::layout::{case_text, cases_text, enum_macros, enum_text, validation_text};
use crate::generator::{comment_text, type_ident, Generator};
use crate::model::{cases_view, opt_view, Case, Enum, EnumSource, EnumView};
use crate::text::empty_literal;

verus! {

/// A strategy that renders enums.
pub trait EnumGenerator {
    /// The text that this strategy gives an enum whose nested types have the
    /// text `subtypes`.
    spec fn rendered(&self, entity: EnumView, subtypes: Seq<char>, gen: &Generator) -> Seq<char>;

    /// Renders an enum around the text of its nested types.
    fn generate(&self, entity: &Enum, subtypes: &str, gen: &Generator) -> (r: String)
        ensures
            r@ == self.rendered(entity.view(), subtypes@, gen),
    ;
}

/// The default strategy: the cases in their order, each literal kept by a
/// rename, and a union left untagged.
pub struct DefaultEnumGen;

impl DefaultEnumGen {
    /// Renders one case.
    pub fn case(&self, case: &Case, source: EnumSource, gen: &Generator) -> (r: String)
        ensures
            r@ == case_text(case.view(), source),
    {
        let mut out = gen.indent();
        if source == EnumSource::Enumeration {
            out.append("#[serde(rename = \"");
            out.append(case.value.as_str());
            out.append("\")]\n");
            out.append(gen.indent().as_str());
            out.append(case.name.as_str());
            out.append(",");
        } else {
            out.append(case.name.as_str());
            out.append("(");
            out.append(gen.format_type_name(case.value.as_str()).as_str());
            out.append("),");
        }
        out
    }

    /// Renders the cases, in their order.
    pub fn cases(&self, entity: &Enum, gen: &Generator) -> (r: String)
        ensures
            r@ == cases_text(entity.view().cases, entity.source, entity.cases@.len()),
    {
        let mut out = String::new();
        let mut i: usize = 0;
        while i < entity.cases.len()
            invariant
                i <= entity.cases@.len(),
                out@ == cases_text(cases_view(entity.cases), entity.source, i as nat),
            decreases entity.cases@.len() - i,
        {
            if i > 0 {
                out.append("\n");
            }
            out.append(self.case(&entity.cases[i], entity.source, gen).as_str());
            i = i + 1;
        }
        out
    }

    /// The name of the enum, as it is written.
    pub fn get_name(&self, entity: &Enum, gen: &Generator) -> (r: String)
        ensures
            r@ == type_ident(entity.name@),
    {
        gen.format_type_name(entity.name.as_str())
    }

    /// The underlying value type, as it is written.
    pub fn get_type_name(&self, entity: &Enum, gen: &Generator) -> (r: String)
        ensures
            r@ == type_ident(entity.type_ref@),
    {
        gen.format_type_name(entity.type_ref.as_str())
    }

    /// The attributes in front of the enum.
    pub fn macros(&self, entity: &Enum, gen: &Generator) -> (r: String)
        ensures
            r@ == enum_macros(entity.source),
    {
        if entity.source == EnumSource::Union {
            String::from_str(
                "#[derive(Debug, PartialEq, Eq, Clone, Serialize, Deserialize)]\n#[serde(untagged)]",
            )
        } else {
            String::from_str("#[derive(Debug, PartialEq, Eq, Clone, Serialize, Deserialize)]")
        }
    }

    /// The comment in front of the enum.
    pub fn format_comment(&self, entity: &Enum, gen: &Generator) -> (r: String)
        ensures
            r@ == comment_text(opt_view(entity.comment), Seq::empty()),
    {
        let r = gen.format_comment(&entity.comment, "");
        proof {
            empty_literal();
        }
        r
    }

    /// The stub that declares the enum valid.
    pub fn validation(&self, entity: &Enum, gen: &Generator) -> (r: String)
        ensures
            r@ == validation_text(type_ident(entity.name@)),
    {
        let mut out = String::from_str("impl Validate for ");
        out.append(self.get_name(entity, gen).as_str());
        out.append(" {}\n");
        out
    }
}

impl EnumGenerator for DefaultEnumGen {
    open spec fn rendered(&self, entity: EnumView, subtypes: Seq<char>, gen: &Generator) -> Seq<
        char,
    > {
        enum_text(entity, subtypes)
    }

    fn generate(&self, entity: &Enum, subtypes: &str, gen: &Generator) -> (r: String) {
        let mut out = self.format_comment(entity, gen);
        out.append(self.macros(entity, gen).as_str());
        out.append("\npub enum ");
        out.append(self.get_name(entity, gen).as_str());
        out.append(" {\n");
        out.append(self.cases(entity, gen).as_str());
        out.append("\n}\n");
        out.append(self.validation(entity, gen).as_str());
        out.append("\n");
        out.append(subtypes);
        out.append("\n\n");
        out
    }
}

} // verus!
