//! What the rendered text of each entity is, as functions on the entity
//! model.

use vstd::prelude::*;
use crate::generator::{comment_text, modified_type, type_ident};
use crate::model::{
    AliasView, CaseView, EnumSource, EnumView, FieldSource, FieldView, StructView,
    TupleStructView,
};
use crate::naming::snake_case_of;

verus! {

/// One unit of indentation.
pub open spec fn indent_text() -> Seq<char> {
    "    "@
}

/// A text in which, read from the front, each run of three line breaks is
/// folded into one.
pub open spec fn folded(text: Seq<char>) -> Seq<char>
    decreases text.len(),
{
    if text.len() == 0 {
        Seq::empty()
    } else if text.len() >= 3 && text[0] == '\n' && text[1] == '\n' && text[2] == '\n' {
        seq!['\n'] + folded(text.subrange(3, text.len() as int))
    } else {
        seq![text[0]] + folded(text.subrange(1, text.len() as int))
    }
}

/// The pieces of a text between its line breaks, in their order. There is
/// always at least one; a text that ends in a line break has an empty last
/// piece.
pub open spec fn pieces(text: Seq<char>) -> Seq<Seq<char>>
    decreases text.len(),
{
    if text.len() == 0 {
        seq![Seq::empty()]
    } else {
        let before = pieces(text.drop_last());
        if text.last() == '\n' {
            before.push(Seq::empty())
        } else {
            before.drop_last().push(before.last().push(text.last()))
        }
    }
}

/// One piece as it is written: a line break, followed by the indent and the
/// piece where the piece is not empty.
pub open spec fn piece_text(piece: Seq<char>, indent: Seq<char>) -> Seq<char> {
    if piece.len() == 0 {
        "\n"@
    } else {
        "\n"@ + indent + piece
    }
}

/// The first `n` pieces as they are written, one after the other.
pub open spec fn pieces_text(ps: Seq<Seq<char>>, indent: Seq<char>, n: nat) -> Seq<char>
    decreases n,
{
    if n == 0 || n > ps.len() {
        Seq::empty()
    } else {
        pieces_text(ps, indent, (n - 1) as nat) + piece_text(ps[n - 1], indent)
    }
}

/// A text moved in by `indent`: its runs of three line breaks are folded,
/// it is cut at the line breaks, and the result is the indent, then for each
/// piece a line break, followed by the indent and the piece where the piece
/// is not empty.
pub open spec fn shifted(text: Seq<char>, indent: Seq<char>) -> Seq<char> {
    indent + pieces_text(pieces(folded(text)), indent, pieces(folded(text)).len())
}

/// What the first `n` pieces give depends on those pieces alone.
pub proof fn pieces_text_reads_a_prefix(
    ps: Seq<Seq<char>>,
    qs: Seq<Seq<char>>,
    indent: Seq<char>,
    n: nat,
)
    requires
        n <= ps.len(),
        n <= qs.len(),
        forall|i: int| 0 <= i < n ==> ps[i] == qs[i],
    ensures
        pieces_text(ps, indent, n) == pieces_text(qs, indent, n),
    decreases n,
{
    if n > 0 {
        pieces_text_reads_a_prefix(ps, qs, indent, (n - 1) as nat);
    }
}

/// The stub that declares a type valid.
pub open spec fn validation_text(name: Seq<char>) -> Seq<char> {
    "impl Validate for "@ + name + " {}\n"@
}

/// The text of an alias.
pub open spec fn alias_text(a: AliasView) -> Seq<char> {
    comment_text(a.comment, Seq::empty()) + "pub type "@ + type_ident(a.name) + " = "@
        + type_ident(a.original) + ";\n"@
}

/// The text of one case of an enum: a literal keeps its spelling through a
/// rename, an alternative wraps its type.
pub open spec fn case_text(c: CaseView, source: EnumSource) -> Seq<char> {
    if source == EnumSource::Enumeration {
        indent_text() + "#[serde(rename = \""@ + c.value + "\")]\n"@ + indent_text() + c.name
            + ","@
    } else {
        indent_text() + c.name + "("@ + type_ident(c.value) + "),"@
    }
}

/// The text of the first `n` cases, in their order, joined by line breaks.
pub open spec fn cases_text(cases: Seq<CaseView>, source: EnumSource, n: nat) -> Seq<char>
    decreases n,
{
    if n == 0 || n > cases.len() {
        Seq::empty()
    } else if n == 1 {
        case_text(cases[0], source)
    } else {
        cases_text(cases, source, (n - 1) as nat) + "\n"@ + case_text(cases[n - 1], source)
    }
}

/// The attributes in front of an enum. A union is untagged: its cases are
/// tried in their order and the first that fits is taken.
pub open spec fn enum_macros(source: EnumSource) -> Seq<char> {
    if source == EnumSource::Union {
        "#[derive(Debug, PartialEq, Eq, Clone, Serialize, Deserialize)]\n#[serde(untagged)]"@
    } else {
        "#[derive(Debug, PartialEq, Eq, Clone, Serialize, Deserialize)]"@
    }
}

/// The attributes in front of a struct: the derives, and a rename where the
/// written name differs from the declared one.
pub open spec fn struct_macros(name: Seq<char>) -> Seq<char> {
    if type_ident(name) != name {
        "#[derive(Debug, PartialEq, Eq, Default, Serialize, Deserialize)]\n"@
            + "#[serde(rename = \""@ + name + "\")]\n"@
    } else {
        "#[derive(Debug, PartialEq, Eq, Default, Serialize, Deserialize)]\n"@
    }
}

/// The attributes in front of a newtype.
pub open spec fn tuple_macros() -> Seq<char> {
    "#[derive(Debug, PartialEq, Clone, Serialize, Deserialize)]\n#[serde(transparent)]\n"@
}

/// The attributes in front of a field, by where the field comes from.
pub open spec fn field_macros(f: FieldView) -> Seq<char> {
    match f.source {
        FieldSource::ChoiceGroup => indent_text() + "#[serde(flatten)]\n"@,
        FieldSource::Attribute => indent_text() + "#[serde(rename = \"@"@ + f.name + "\")]\n"@,
        FieldSource::Element => indent_text() + "#[serde(rename = \""@ + f.name + "\")]\n"@,
        _ => Seq::empty(),
    }
}

/// The type of a field as its owner refers to it: a field that owns nested
/// types finds its type in the owner's nested scope, always.
pub open spec fn scoped_type(f: FieldView, scope: Seq<char>) -> Seq<char> {
    if f.subtypes.len() > 0 {
        scope + "::"@ + f.type_ref
    } else {
        f.type_ref
    }
}

/// The type of a field as it is written.
pub open spec fn field_type_text(f: FieldView, scope: Seq<char>) -> Seq<char> {
    modified_type(type_ident(scoped_type(f, scope)), f.modifiers)
}

/// The text of a field inside the scope of its owner, up to the comma that
/// ends it; nothing for a suppressed field.
pub open spec fn field_text(f: FieldView, scope: Seq<char>) -> Seq<char> {
    if f.modifiers.suppressed {
        Seq::empty()
    } else {
        comment_text(f.comment, indent_text()) + field_macros(f) + indent_text() + "pub "@
            + snake_case_of(f.name) + ": "@ + field_type_text(f, scope) + ","@
    }
}

/// The text that composes an attribute group into a struct: one flattened
/// field of the group's type.
pub open spec fn group_text(a: AliasView) -> Seq<char> {
    indent_text() + "#[serde(flatten)]\n"@ + indent_text() + "pub "@ + snake_case_of(a.name)
        + ": "@ + type_ident(a.original) + ","@
}

/// The text that composes the first `n` attribute groups, in their order,
/// with a blank line between one and the next.
pub open spec fn groups_text(groups: Seq<AliasView>, n: nat) -> Seq<char>
    decreases n,
{
    if n == 0 || n > groups.len() {
        Seq::empty()
    } else if n == 1 {
        group_text(groups[0])
    } else {
        groups_text(groups, (n - 1) as nat) + "\n\n"@ + group_text(groups[n - 1])
    }
}

/// Two blocks of a struct's body, with a blank line between them where
/// neither is empty.
pub open spec fn blocks_joined(first: Seq<char>, second: Seq<char>) -> Seq<char> {
    if first.len() == 0 {
        second
    } else if second.len() == 0 {
        first
    } else {
        first + "\n\n"@ + second
    }
}

/// The body of a struct, from the joined text of its fields: nothing where
/// neither a field nor an attribute group is written; otherwise a line break,
/// the fields and behind them the attribute groups, and a line break.
pub open spec fn struct_body(fields: Seq<char>, groups: Seq<AliasView>) -> Seq<char> {
    let inner = blocks_joined(fields, groups_text(groups, groups.len()));
    if inner.len() == 0 {
        inner
    } else {
        "\n"@ + inner + "\n"@
    }
}

/// The nested scope of a struct, from the text of the types that the struct
/// owns itself and of those that its fields own. Where either is not empty it
/// is one block named after the struct: the own types as they stand, right
/// behind the import, then a line break, the types of the fields moved in,
/// and a line break before the closing brace. Where both are empty it is a
/// line break.
pub open spec fn struct_scope_text(name: Seq<char>, own: Seq<char>, of_fields: Seq<char>) -> Seq<
    char,
> {
    if own.len() > 0 || of_fields.len() > 0 {
        "\npub mod "@ + snake_case_of(name) + " {\n"@ + indent_text() + "use super::*;"@ + own
            + "\n"@ + shifted(of_fields, indent_text()) + "\n}\n"@
    } else {
        "\n"@
    }
}

/// The text of a struct, followed by its nested scope.
pub open spec fn struct_text(
    s: StructView,
    fields: Seq<char>,
    own: Seq<char>,
    of_fields: Seq<char>,
) -> Seq<char> {
    comment_text(s.comment, Seq::empty()) + struct_macros(s.name) + "pub struct "@ + type_ident(
        s.name,
    ) + " {"@ + struct_body(fields, s.attribute_groups) + "}\n"@ + validation_text(
        type_ident(s.name),
    ) + "\n"@ + struct_scope_text(s.name, own, of_fields) + "\n\n"@
}

/// The text of an enum, followed by the text of its nested types.
pub open spec fn enum_text(e: EnumView, subtypes: Seq<char>) -> Seq<char> {
    comment_text(e.comment, Seq::empty()) + enum_macros(e.source) + "\npub enum "@ + type_ident(
        e.name,
    ) + " {\n"@ + cases_text(e.cases, e.source, e.cases.len()) + "\n}\n"@ + validation_text(
        type_ident(e.name),
    ) + "\n"@ + subtypes + "\n\n"@
}

/// The text of a newtype, followed by the text of its nested types.
pub open spec fn tuple_struct_text(t: TupleStructView, subtypes: Seq<char>) -> Seq<char> {
    comment_text(t.comment, Seq::empty()) + tuple_macros() + "pub struct "@ + type_ident(t.name)
        + " (pub "@ + modified_type(type_ident(t.type_ref), t.modifiers) + ");\n"@ + subtypes
        + "\n\n"@
}

} // verus!
