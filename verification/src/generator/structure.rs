//! Rendering of structs and of the nested scopes they own.

use vstd::prelude::*;
use vstd::string::*;
use crate::generator::layout::{
    blocks_joined, folded, group_text, groups_text, pieces, pieces_text,
    pieces_text_reads_a_prefix, shifted, struct_body, struct_macros, struct_scope_text,
    struct_text, validation_text,
};
use crate::generator::{comment_text, type_ident, Generator};
use crate::model::{aliases_view, opt_view, Struct, StructView};
use crate::naming::snake_case_of;
use crate::text::{empty_literal, push_char};

verus! {

/// A strategy that renders structs.
pub trait StructGenerator {
    /// The name of the nested scope that this strategy gives a struct.
    spec fn scope(&self, entity: StructView, gen: &Generator) -> Seq<char>;

    /// The text that this strategy gives a struct whose fields have the text
    /// `fields`, whose own nested types have the text `own`, and the nested
    /// types of whose fields have the text `of_fields`.
    spec fn rendered(
        &self,
        entity: StructView,
        fields: Seq<char>,
        own: Seq<char>,
        of_fields: Seq<char>,
        gen: &Generator,
    ) -> Seq<char>;

    /// The name of the nested scope that the struct owns. The fields of the
    /// struct are written with it.
    fn mod_name(&self, entity: &Struct, gen: &Generator) -> (r: String)
        ensures
            r@ == self.scope(entity.view(), gen),
    ;

    /// Renders a struct around the text of its fields, and its nested scope
    /// around the text of the types in it.
    fn generate(
        &self,
        entity: &Struct,
        fields: &str,
        own: &str,
        of_fields: &str,
        gen: &Generator,
    ) -> (r: String)
        ensures
            r@ == self.rendered(entity.view(), fields@, own@, of_fields@, gen),
    ;
}

/// The default strategy: the fields in their order, and one nested scope for
/// every type that the struct or one of its fields owns.
pub struct DefaultStructGen;

impl DefaultStructGen {
    /// Renders the composition of the attribute groups, in their order.
    pub fn attribute_groups(&self, entity: &Struct, gen: &Generator) -> (r: String)
        ensures
            r@ == groups_text(entity.view().attribute_groups, entity.attribute_groups@.len()),
    {
        let mut out = String::new();
        let mut i: usize = 0;
        while i < entity.attribute_groups.len()
            invariant
                i <= entity.attribute_groups@.len(),
                out@ == groups_text(aliases_view(entity.attribute_groups), i as nat),
            decreases entity.attribute_groups@.len() - i,
        {
            let a = &entity.attribute_groups[i];
            let ghost before = out@;
            if i > 0 {
                out.append("\n\n");
            }
            let ghost joint = out@;
            out.append(gen.indent().as_str());
            out.append("#[serde(flatten)]\n");
            out.append(gen.indent().as_str());
            out.append("pub ");
            out.append(gen.format_name(a.name.as_str()).as_str());
            out.append(": ");
            out.append(gen.format_type_name(a.original.as_str()).as_str());
            out.append(",");
            proof {
                assert(out@ =~= joint + group_text(a.view()));
            }
            i = i + 1;
        }
        out
    }

    /// Renders the body of the struct around the joined text of its fields:
    /// the fields, then the attribute groups.
    pub fn fields(&self, entity: &Struct, fields: &str, gen: &Generator) -> (r: String)
        ensures
            r@ == struct_body(fields@, entity.view().attribute_groups),
    {
        let groups = self.attribute_groups(entity, gen);
        let mut inner = String::from_str(fields);
        if !fields.is_empty() && !groups.as_str().is_empty() {
            inner.append("\n\n");
        }
        inner.append(groups.as_str());
        assert(inner@ =~= blocks_joined(fields@, groups@));
        if inner.as_str().is_empty() {
            inner
        } else {
            let mut out = String::from_str("\n");
            out.append(inner.as_str());
            out.append("\n");
            out
        }
    }

    /// Renders the nested scope of the struct around the text of the types
    /// in it.
    pub fn subtypes(&self, entity: &Struct, own: &str, of_fields: &str, gen: &Generator) -> (r:
        String)
        ensures
            r@ == struct_scope_text(entity.name@, own@, of_fields@),
    {
        if !own.is_empty() || !of_fields.is_empty() {
            let mut out = String::from_str("\npub mod ");
            out.append(self.mod_name(entity, gen).as_str());
            out.append(" {\n");
            out.append(gen.indent().as_str());
            out.append("use super::*;");
            out.append(own);
            out.append("\n");
            out.append(self.shift(of_fields, gen.indent().as_str()).as_str());
            out.append("\n}\n");
            out
        } else {
            String::from_str("\n")
        }
    }

    /// Folds each run of three line breaks into one, reading from the front.
    pub fn fold_breaks(&self, text: &str) -> (r: String)
        ensures
            r@ == folded(text@),
    {
        let n = text.unicode_len();
        let mut out = String::new();
        let mut i: usize = 0;
        assert(text@.subrange(0, n as int) == text@);
        while i < n
            invariant
                n == text@.len(),
                i <= n,
                out@ + folded(text@.subrange(i as int, n as int)) == folded(text@),
            decreases n - i,
        {
            let ghost rest = text@.subrange(i as int, n as int);
            let c = text.get_char(i);
            let run = c == '\n' && n - i > 2 && text.get_char(i + 1) == '\n' && text.get_char(i + 2)
                == '\n';
            if run {
                proof {
                    assert(rest.subrange(3, rest.len() as int) == text@.subrange(i + 3, n as int));
                    assert((out@.push('\n')) + folded(text@.subrange(i + 3, n as int)) =~= out@
                        + folded(rest));
                }
                push_char(&mut out, '\n');
                i = i + 3;
            } else {
                proof {
                    assert(rest.subrange(1, rest.len() as int) == text@.subrange(i + 1, n as int));
                    assert((out@.push(c)) + folded(text@.subrange(i + 1, n as int)) =~= out@
                        + folded(rest));
                }
                push_char(&mut out, c);
                i = i + 1;
            }
        }
        assert(out@ + Seq::<char>::empty() =~= out@);
        out
    }

    /// Moves a text in by `indent`: folds its runs of three line breaks,
    /// starts with the indent, and gives every piece between line breaks a
    /// line break in front, with the indent where the piece is not empty.
    pub fn shift(&self, text: &str, indent: &str) -> (r: String)
        ensures
            r@ == shifted(text@, indent@),
    {
        let plain = self.fold_breaks(text);
        let n = plain.as_str().unicode_len();
        let mut out = String::from_str(indent);
        out.append("\n");
        let mut at_start = true;
        let mut i: usize = 0;
        proof {
            let first = pieces(plain@.subrange(0, 0));
            assert(pieces_text(first, indent@, 0) =~= Seq::<char>::empty());
            assert(out@ =~= indent@ + pieces_text(first, indent@, 1));
        }
        while i < n
            invariant
                n == plain@.len(),
                i <= n,
                pieces(plain@.subrange(0, i as int)).len() >= 1,
                at_start == (pieces(plain@.subrange(0, i as int)).last().len() == 0),
                out@ == indent@ + pieces_text(
                    pieces(plain@.subrange(0, i as int)),
                    indent@,
                    pieces(plain@.subrange(0, i as int)).len(),
                ),
            decreases n - i,
        {
            let c = plain.as_str().get_char(i);
            let ghost before = pieces(plain@.subrange(0, i as int));
            let ghost after = pieces(plain@.subrange(0, i + 1));
            let ghost m = before.len();
            proof {
                let next = plain@.subrange(0, i + 1);
                assert(next.drop_last() == plain@.subrange(0, i as int));
                assert(next.last() == c);
                if c == '\n' {
                    assert(after == before.push(Seq::<char>::empty()));
                    pieces_text_reads_a_prefix(after, before, indent@, m);
                } else {
                    assert(after == before.drop_last().push(before.last().push(c)));
                    pieces_text_reads_a_prefix(after, before, indent@, (m - 1) as nat);
                }
            }
            let ghost head = pieces_text(before, indent@, (m - 1) as nat);
            if c == '\n' {
                push_char(&mut out, c);
                assert(out@ =~= indent@ + (pieces_text(before, indent@, m) + "\n"@)) by {
                    reveal_strlit("\n");
                }
            } else if at_start {
                out.append(indent);
                push_char(&mut out, c);
                assert(out@ =~= indent@ + (head + ("\n"@ + indent@ + before.last().push(c))));
            } else {
                push_char(&mut out, c);
                assert(out@ =~= indent@ + (head + ("\n"@ + indent@ + before.last().push(c))));
            }
            at_start = c == '\n';
            i = i + 1;
        }
        assert(plain@.subrange(0, n as int) == plain@);
        out
    }

    /// The name of the struct, as it is written.
    pub fn get_type_name(&self, entity: &Struct, gen: &Generator) -> (r: String)
        ensures
            r@ == type_ident(entity.name@),
    {
        gen.format_type_name(entity.name.as_str())
    }

    /// The attributes in front of the struct.
    pub fn macros(&self, entity: &Struct, gen: &Generator) -> (r: String)
        ensures
            r@ == struct_macros(entity.name@),
    {
        let mut out = String::from_str(
            "#[derive(Debug, PartialEq, Eq, Default, Serialize, Deserialize)]\n",
        );
        if self.get_type_name(entity, gen) != entity.name {
            out.append("#[serde(rename = \"");
            out.append(entity.name.as_str());
            out.append("\")]\n");
        }
        out
    }

    /// The comment in front of the struct.
    pub fn format_comment(&self, entity: &Struct, gen: &Generator) -> (r: String)
        ensures
            r@ == comment_text(opt_view(entity.comment), Seq::empty()),
    {
        let r = gen.format_comment(&entity.comment, "");
        proof {
            empty_literal();
        }
        r
    }

    /// The stub that declares the struct valid.
    pub fn validation(&self, entity: &Struct, gen: &Generator) -> (r: String)
        ensures
            r@ == validation_text(type_ident(entity.name@)),
    {
        let mut out = String::from_str("impl Validate for ");
        out.append(self.get_type_name(entity, gen).as_str());
        out.append(" {}\n");
        out
    }
}

impl StructGenerator for DefaultStructGen {
    open spec fn scope(&self, entity: StructView, gen: &Generator) -> Seq<char> {
        snake_case_of(entity.name)
    }

    open spec fn rendered(
        &self,
        entity: StructView,
        fields: Seq<char>,
        own: Seq<char>,
        of_fields: Seq<char>,
        gen: &Generator,
    ) -> Seq<char> {
        struct_text(entity, fields, own, of_fields)
    }

    fn mod_name(&self, entity: &Struct, gen: &Generator) -> (r: String) {
        gen.mod_name(entity.name.as_str())
    }

    fn generate(
        &self,
        entity: &Struct,
        fields: &str,
        own: &str,
        of_fields: &str,
        gen: &Generator,
    ) -> (r: String) {
        let mut out = self.format_comment(entity, gen);
        out.append(self.macros(entity, gen).as_str());
        out.append("pub struct ");
        out.append(self.get_type_name(entity, gen).as_str());
        out.append(" {");
        out.append(self.fields(entity, fields, gen).as_str());
        out.append("}\n");
        out.append(self.validation(entity, gen).as_str());
        out.append("\n");
        out.append(self.subtypes(entity, own, of_fields, gen).as_str());
        out.append("\n\n");
        out
    }
}

} // verus!
