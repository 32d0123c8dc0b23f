//! Rendering of aliases.

use vstd::prelude::*;
use vstd::string::*;
use crate::generator::layout::alias_text;
use crate::generator::{comment_text, type_ident, Generator};
use crate::text::empty_literal;
use crate::model::{opt_view, Alias, AliasView};

verus! {

/// A strategy that renders aliases.
pub trait AliasGenerator {
    /// The text that this strategy gives an alias.
    spec fn rendered(&self, entity: AliasView, gen: &Generator) -> Seq<char>;

    /// Renders an alias.
    fn generate(&self, entity: &Alias, gen: &Generator) -> (r: String)
        ensures
            r@ == self.rendered(entity.view(), gen),
    ;
}

/// The default strategy: a type alias under the written names.
pub struct DefaultAliasGen;

impl DefaultAliasGen {
    /// The comment in front of the alias.
    pub fn format_comment(&self, comment: &Option<String>, gen: &Generator) -> (r: String)
        ensures
            r@ == comment_text(opt_view(*comment), Seq::empty()),
    {
        let r = gen.format_comment(comment, "");
        proof {
            empty_literal();
        }
        r
    }

    /// The name of the alias, as it is written.
    pub fn format_name(&self, name: &str, gen: &Generator) -> (r: String)
        ensures
            r@ == type_ident(name@),
    {
        gen.format_type_name(name)
    }

    /// The aliased type, as it is written.
    pub fn format_original_type(&self, name: &str, gen: &Generator) -> (r: String)
        ensures
            r@ == type_ident(name@),
    {
        gen.format_type_name(name)
    }
}

impl AliasGenerator for DefaultAliasGen {
    open spec fn rendered(&self, entity: AliasView, gen: &Generator) -> Seq<char> {
        alias_text(entity)
    }

    fn generate(&self, entity: &Alias, gen: &Generator) -> (r: String) {
        let mut out = self.format_comment(&entity.comment, gen);
        out.append("pub type ");
        out.append(self.format_name(entity.name.as_str(), gen).as_str());
        out.append(" = ");
        out.append(self.format_original_type(entity.original.as_str(), gen).as_str());
        out.append(";\n");
        out
    }
}

} // verus!
