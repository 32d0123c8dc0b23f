//! What each schema construct resolves to, as functions on the document.

use vstd::prelude::*;
use crate::generator::matched_type;
use crate::model::{
    fields_view, items_view, opt_view, AliasView, CaseView, Entity, EntityView, EnumSource,
    EnumView, Field, FieldSource, FieldView, Modifiers, SchemaItem, SchemaItemView, StructView,
    TupleStructView,
};
use crate::naming::pascal_case_of;
use crate::node::{kind_of, ContentKind, ElementKind, Node, Pick, RestrictionKind};
use crate::text::words;

verus! {

/// Why a construct could not be resolved. Each of these ends the whole run.
#[derive(Clone, Copy, Debug, PartialEq, Eq, Structural)]
pub enum ResolveError {
    /// A declaration that must be named has no `name`.
    MissingName,
    /// An extension or a restriction has no `base`.
    MissingBase,
    /// A group used inside another construct has no `ref`.
    MissingReference,
    /// A content wrapper has nothing in it.
    MissingContent,
    /// A restriction of complex or simple content.
    UnsupportedRestriction,
    /// A list or a union with a member type that is declared inline.
    NestedSimpleType,
    /// A simple type that is neither a list, a restriction nor a union.
    UnsupportedSimpleType,
    /// A construct in a place where resolution expects another.
    UnexpectedNode,
}

/// The name of a field: the `name` of its declaration, or else what it refers to.
pub open spec fn field_name(node: Node) -> Option<Seq<char>> {
    match node.name {
        Some(n) => Some(n@),
        None => opt_view(node.reference),
    }
}

/// The type that a declaration names: its `type`, or else what it refers to.
pub open spec fn declared_type(node: Node) -> Option<Seq<char>> {
    match node.type_ref {
        Some(t) => Some(t@),
        None => opt_view(node.reference),
    }
}

/// The modifiers of a field. An attribute is optional unless its use is
/// required, and suppressed where its use is prohibited. An element is
/// optional where it may occur zero times, repeated where it may occur more
/// than once, and suppressed where it may not occur at all.
pub open spec fn field_modifiers(node: Node, kind: ElementKind) -> Modifiers {
    if kind == ElementKind::Attribute {
        Modifiers {
            optional: opt_view(node.usage) != Some("required"@),
            repeated: false,
            suppressed: opt_view(node.usage) == Some("prohibited"@),
        }
    } else {
        Modifiers {
            optional: opt_view(node.min_occurs) == Some("0"@),
            repeated: node.max_occurs.is_some() && opt_view(node.max_occurs) != Some("1"@)
                && opt_view(node.max_occurs) != Some("0"@),
            suppressed: opt_view(node.max_occurs) == Some("0"@),
        }
    }
}

/// Where a field of the given kind comes from.
pub open spec fn source_of(kind: ElementKind) -> FieldSource {
    if kind == ElementKind::Attribute {
        FieldSource::Attribute
    } else {
        FieldSource::Element
    }
}

/// The field that stands for the composition of a base type.
pub open spec fn base_field(base: Seq<char>, comment: Option<Seq<char>>) -> FieldView {
    FieldView {
        name: "base"@,
        type_ref: base,
        modifiers: Modifiers { optional: false, repeated: false, suppressed: false },
        source: FieldSource::BaseTypeComposition,
        subtypes: Seq::empty(),
        comment: comment,
    }
}

/// The identifier of an enum case for a literal: its Pascal-case form, with
/// an underscore in front where that is empty or starts with a digit.
pub open spec fn case_ident(literal: Seq<char>) -> Seq<char> {
    let p = pascal_case_of(literal);
    if p.len() == 0 || ('0' <= p[0] && p[0] <= '9') {
        "_"@ + p
    } else {
        p
    }
}

/// The case that a child of a restriction or of a choice gives: a facet
/// keeps its literal, an alternative its type.
pub open spec fn case_of(ns: Option<Seq<char>>, child: Node, pick: Pick) -> CaseView {
    if pick == Pick::Facets {
        let literal = match child.value {
            Some(v) => v@,
            None => Seq::empty(),
        };
        CaseView { name: case_ident(literal), value: literal }
    } else {
        let name = match field_name(child) {
            Some(n) => n,
            None => Seq::empty(),
        };
        let ty = match declared_type(child) {
            Some(t) => matched_type(ns, t),
            None => "String"@,
        };
        CaseView { name: case_ident(name), value: ty }
    }
}

/// The cases that the first `n` children give, in document order.
pub open spec fn cases_upto(ns: Option<Seq<char>>, node: Node, pick: Pick, n: nat) -> Seq<CaseView>
    decreases n,
{
    if n == 0 || n > node.children@.len() {
        Seq::empty()
    } else if pick.holds(node.child_kind(n - 1)) {
        cases_upto(ns, node, pick, (n - 1) as nat).push(case_of(ns, node.children@[n - 1], pick))
    } else {
        cases_upto(ns, node, pick, (n - 1) as nat)
    }
}

/// The cases of a union: one per member type, in the declared order.
pub open spec fn union_cases(ns: Option<Seq<char>>, members: Seq<Seq<char>>) -> Seq<CaseView> {
    Seq::new(
        members.len(),
        |i: int|
            CaseView {
                name: case_ident(matched_type(ns, members[i])),
                value: matched_type(ns, members[i]),
            },
    )
}

/// The member types that a union names.
pub open spec fn member_types(node: Node) -> Seq<Seq<char>> {
    match node.member_types {
        Some(m) => words(m@),
        None => Seq::empty(),
    }
}

/// The alias that stands for a reference to an attribute group.
pub open spec fn group_alias(ns: Option<Seq<char>>, reference: Seq<char>) -> AliasView {
    AliasView {
        name: matched_type(ns, reference),
        original: matched_type(ns, reference),
        comment: None,
    }
}

/// The aliases for the attribute groups that the first `n` children refer
/// to, in document order. A child that refers to nothing gives none.
pub open spec fn groups_upto(ns: Option<Seq<char>>, node: Node, n: nat) -> Seq<AliasView>
    decreases n,
{
    if n == 0 || n > node.children@.len() {
        Seq::empty()
    } else if Pick::AttributeGroups.holds(node.child_kind(n - 1)) && node.children@[n
        - 1].reference.is_some() {
        groups_upto(ns, node, (n - 1) as nat).push(
            group_alias(ns, node.children@[n - 1].reference.unwrap()@),
        )
    } else {
        groups_upto(ns, node, (n - 1) as nat)
    }
}

/// The aliases for all attribute groups that a construct refers to.
pub open spec fn groups_of(ns: Option<Seq<char>>, node: Node) -> Seq<AliasView> {
    groups_upto(ns, node, node.children@.len())
}

/// A struct that has fields and attribute groups and nothing nested.
pub open spec fn flat_struct(
    name: Seq<char>,
    fields: Seq<FieldView>,
    groups: Seq<AliasView>,
    comment: Option<Seq<char>>,
) -> EntityView {
    EntityView::Struct(
        StructView {
            name: name,
            fields: fields,
            subtypes: Seq::empty(),
            attribute_groups: groups,
            comment: comment,
        },
    )
}

/// The name of the enum that holds the alternatives of a declaration.
pub open spec fn choice_name(name: Seq<char>) -> Seq<char> {
    name + "Choice"@
}

/// The struct of a named declaration, from its own attributes and what its
/// content resolved to. The attributes come first. A struct gives its fields;
/// an enum of alternatives becomes the nested type of one more field, so that
/// the declaration stays a struct; a single field is added as it is.
pub open spec fn named(
    name: Seq<char>,
    attrs: Seq<FieldView>,
    groups: Seq<AliasView>,
    comment: Option<Seq<char>>,
    content: EntityView,
) -> EntityView {
    match content {
        EntityView::Struct(s) => EntityView::Struct(
            StructView {
                name: name,
                fields: attrs + s.fields,
                subtypes: s.subtypes,
                attribute_groups: groups + s.attribute_groups,
                comment: if comment.is_some() {
                    comment
                } else {
                    s.comment
                },
            },
        ),
        EntityView::Enum(e) => flat_struct(
            name,
            attrs.push(
                FieldView {
                    name: choice_name(name),
                    type_ref: choice_name(name),
                    modifiers: Modifiers { optional: false, repeated: false, suppressed: false },
                    source: FieldSource::ChoiceGroup,
                    subtypes: seq![
                        EntityView::Enum(
                            EnumView {
                                name: choice_name(name),
                                type_ref: e.type_ref,
                                cases: e.cases,
                                subtypes: e.subtypes,
                                source: e.source,
                                comment: e.comment,
                            },
                        ),
                    ],
                    comment: None,
                },
            ),
            groups,
            comment,
        ),
        EntityView::Field(f) => flat_struct(name, attrs.push(f), groups, comment),
        other => other,
    }
}

/// What a simple type of the given name resolves to: a list is a newtype
/// over a repeated item type; a restriction with enumeration facets is an
/// enum of its literals, without them a newtype over its base; a union is an
/// untagged enum of the member types it names, and not supported where it
/// declares a member inline.
pub open spec fn resolved_simple(ns: Option<Seq<char>>, node: Node, name: Seq<char>) -> Result<
    EntityView,
    ResolveError,
> {
    match node.last_child(Pick::NotAnnotation) {
        None => Err(ResolveError::UnsupportedSimpleType),
        Some(c) => {
            let ch = node.children@[c];
            match node.child_kind(c) {
                ElementKind::List => match ch.item_type {
                    None => Err(ResolveError::NestedSimpleType),
                    Some(t) => Ok(
                        EntityView::TupleStruct(
                            TupleStructView {
                                name: name,
                                type_ref: matched_type(ns, t@),
                                modifiers: Modifiers {
                                    optional: false,
                                    repeated: true,
                                    suppressed: false,
                                },
                                subtypes: Seq::empty(),
                                comment: node.documentation(),
                            },
                        ),
                    ),
                },
                ElementKind::Restriction(_) => match ch.base {
                    None => Err(ResolveError::MissingBase),
                    Some(b) => if ch.last_child(Pick::Facets).is_some() {
                        Ok(
                            EntityView::Enum(
                                EnumView {
                                    name: name,
                                    type_ref: matched_type(ns, b@),
                                    cases: cases_upto(ns, ch, Pick::Facets, ch.children@.len()),
                                    subtypes: Seq::empty(),
                                    source: EnumSource::Enumeration,
                                    comment: node.documentation(),
                                },
                            ),
                        )
                    } else {
                        Ok(
                            EntityView::TupleStruct(
                                TupleStructView {
                                    name: name,
                                    type_ref: matched_type(ns, b@),
                                    modifiers: Modifiers {
                                        optional: false,
                                        repeated: false,
                                        suppressed: false,
                                    },
                                    subtypes: Seq::empty(),
                                    comment: node.documentation(),
                                },
                            ),
                        )
                    },
                },
                ElementKind::Union => if ch.last_child(Pick::InlineType).is_some() {
                    Err(ResolveError::NestedSimpleType)
                } else {
                    Ok(
                        EntityView::Enum(
                            EnumView {
                                name: name,
                                type_ref: Seq::empty(),
                                cases: union_cases(ns, member_types(ch)),
                                subtypes: Seq::empty(),
                                source: EnumSource::Union,
                                comment: node.documentation(),
                            },
                        ),
                    )
                },
                _ => Err(ResolveError::UnsupportedSimpleType),
            }
        },
    }
}

/// The name of the type that a field declares inline.
pub open spec fn inline_name(field: Seq<char>) -> Seq<char> {
    field + "Type"@
}

/// The field that an attribute or an element declares. Its type is the one
/// it names; where it names none and declares one inline, that type is
/// resolved under a name made from the field's and becomes the field's own
/// nested type; where there is neither, the field is text.
pub open spec fn resolved_field(ns: Option<Seq<char>>, node: Node, kind: ElementKind) -> Result<
    FieldView,
    ResolveError,
>
    decreases node, 0nat,
{
    match field_name(node) {
        None => Err(ResolveError::MissingName),
        Some(name) => {
            let plain = FieldView {
                name: name,
                type_ref: "String"@,
                modifiers: field_modifiers(node, kind),
                source: source_of(kind),
                subtypes: Seq::empty(),
                comment: node.documentation(),
            };
            match declared_type(node) {
                Some(t) => Ok(FieldView { type_ref: matched_type(ns, t), ..plain }),
                None => match node.last_child(Pick::InlineType) {
                    None => Ok(plain),
                    Some(i) => if 0 <= i < node.children@.len() {
                        let inner = if node.child_kind(i) == ElementKind::ComplexType {
                            resolved_complex(ns, node.children@[i], inline_name(name))
                        } else {
                            resolved_simple(ns, node.children@[i], inline_name(name))
                        };
                        match inner {
                            Err(e) => Err(e),
                            Ok(sub) => Ok(
                                FieldView {
                                    type_ref: inline_name(name),
                                    subtypes: seq![sub],
                                    ..plain
                                },
                            ),
                        }
                    } else {
                        Ok(plain)
                    },
                },
            }
        },
    }
}

/// The field that a member of a sequence gives: a group reference composes
/// the group it refers to, an element declares a field.
pub open spec fn member_field(ns: Option<Seq<char>>, node: Node, kind: ElementKind) -> Result<
    FieldView,
    ResolveError,
>
    decreases node, 1nat,
{
    if kind == ElementKind::Group {
        match node.reference {
            None => Err(ResolveError::MissingReference),
            Some(r) => Ok(base_field(matched_type(ns, r@), None)),
        }
    } else {
        resolved_field(ns, node, kind)
    }
}

/// The fields that the first `n` children give, in document order, for the
/// children whose kind is in the set; the first child that fails decides.
pub open spec fn fields_upto(ns: Option<Seq<char>>, node: Node, pick: Pick, n: nat) -> Result<
    Seq<FieldView>,
    ResolveError,
>
    decreases node, n,
{
    if n == 0 || n > node.children@.len() {
        Ok(Seq::empty())
    } else {
        match fields_upto(ns, node, pick, (n - 1) as nat) {
            Err(e) => Err(e),
            Ok(fs) => if pick.holds(node.child_kind(n - 1)) {
                match member_field(ns, node.children@[n - 1], node.child_kind(n - 1)) {
                    Err(e) => Err(e),
                    Ok(f) => Ok(fs.push(f)),
                }
            } else {
                Ok(fs)
            },
        }
    }
}

/// The fields for the attributes that a construct declares.
pub open spec fn attribute_fields(ns: Option<Seq<char>>, node: Node) -> Result<
    Seq<FieldView>,
    ResolveError,
>
    decreases node, node.children@.len() + 1,
{
    fields_upto(ns, node, Pick::Attributes, node.children@.len())
}

/// What a complex type of the given name resolves to.
pub open spec fn resolved_complex(ns: Option<Seq<char>>, node: Node, name: Seq<char>) -> Result<
    EntityView,
    ResolveError,
>
    decreases node, node.children@.len() + 2,
{
    match attribute_fields(ns, node) {
        Err(e) => Err(e),
        Ok(attrs) => match node.last_child(Pick::TypeContent) {
            None => Ok(flat_struct(name, attrs, groups_of(ns, node), node.documentation())),
            Some(c) => if 0 <= c < node.children@.len() {
                match resolved_node(ns, node.children@[c], node.tag@) {
                    Err(e) => Err(e),
                    Ok(content) => Ok(
                        named(name, attrs, groups_of(ns, node), node.documentation(), content),
                    ),
                }
            } else {
                Err(ResolveError::MissingContent)
            },
        },
    }
}

/// What a group resolves to. Directly under the schema it is a declaration:
/// a struct of its attributes and of what its content model gives, or of its
/// attributes alone where it has no content model or an empty one. Anywhere
/// else it is a reference: the field that composes the group referred to.
pub open spec fn resolved_group(ns: Option<Seq<char>>, node: Node, parent: Seq<char>) -> Result<
    EntityView,
    ResolveError,
>
    decreases node, node.children@.len() + 2,
{
    if parent == "schema"@ {
        match node.name {
            None => Err(ResolveError::MissingName),
            Some(name) => match attribute_fields(ns, node) {
                Err(e) => Err(e),
                Ok(attrs) => match node.last_child(Pick::ModelContent) {
                    None => Ok(flat_struct(name@, attrs, groups_of(ns, node), node.documentation())),
                    Some(c) => if 0 <= c < node.children@.len() && node.children@[c].children@.len()
                        > 0 {
                        match resolved_node(ns, node.children@[c], node.tag@) {
                            Err(e) => Err(e),
                            Ok(content) => Ok(
                                named(
                                    name@,
                                    attrs,
                                    groups_of(ns, node),
                                    node.documentation(),
                                    content,
                                ),
                            ),
                        }
                    } else {
                        Ok(flat_struct(name@, attrs, groups_of(ns, node), node.documentation()))
                    },
                },
            },
        }
    } else {
        match node.reference {
            None => Err(ResolveError::MissingReference),
            Some(r) => Ok(EntityView::Field(base_field(matched_type(ns, r@), None))),
        }
    }
}

/// What an attribute group resolves to. Directly under the schema it is a
/// declaration: a struct of its attributes. Anywhere else it is a reference:
/// the alias of the group referred to.
pub open spec fn resolved_attribute_group(
    ns: Option<Seq<char>>,
    node: Node,
    parent: Seq<char>,
) -> Result<EntityView, ResolveError>
    decreases node, node.children@.len() + 2,
{
    if parent == "schema"@ {
        match node.name {
            None => Err(ResolveError::MissingName),
            Some(name) => match attribute_fields(ns, node) {
                Err(e) => Err(e),
                Ok(attrs) => Ok(
                    flat_struct(name@, attrs, groups_of(ns, node), node.documentation()),
                ),
            },
        }
    } else {
        match node.reference {
            None => Err(ResolveError::MissingReference),
            Some(r) => Ok(EntityView::Alias(group_alias(ns, r@))),
        }
    }
}

/// What an extension of simple content resolves to: a nameless struct of the
/// extension's attributes and, behind them, the composition of its base.
pub open spec fn resolved_simple_extension(ns: Option<Seq<char>>, node: Node) -> Result<
    EntityView,
    ResolveError,
>
    decreases node, node.children@.len() + 2,
{
    match node.base {
        None => Err(ResolveError::MissingBase),
        Some(b) => match attribute_fields(ns, node) {
            Err(e) => Err(e),
            Ok(attrs) => Ok(
                flat_struct(
                    Seq::empty(),
                    attrs.push(base_field(matched_type(ns, b@), node.documentation())),
                    groups_of(ns, node),
                    node.documentation(),
                ),
            ),
        },
    }
}

/// What an extension of complex content resolves to. Its own fields are
/// those of its attributes and, behind them, the composition of its base.
/// Where its content model resolves to a struct, the result is that struct
/// with the own fields behind its fields. Where it resolves to an enum of
/// alternatives, the result is a nameless struct of the own fields and one
/// field more that owns the enum; where it resolves to a single field, of the
/// own fields and that field. Without a content model it is a nameless struct
/// of the own fields alone.
pub open spec fn resolved_complex_extension(ns: Option<Seq<char>>, node: Node) -> Result<
    EntityView,
    ResolveError,
>
    decreases node, node.children@.len() + 2,
{
    match node.base {
        None => Err(ResolveError::MissingBase),
        Some(b) => match attribute_fields(ns, node) {
            Err(e) => Err(e),
            Ok(attrs) => {
                let own = attrs.push(base_field(matched_type(ns, b@), node.documentation()));
                let plain = flat_struct(Seq::empty(), own, groups_of(ns, node), node.documentation());
                match node.last_child(Pick::ExtensionContent) {
                    None => Ok(plain),
                    Some(c) => if 0 <= c < node.children@.len() {
                        match resolved_node(ns, node.children@[c], node.tag@) {
                            Err(e) => Err(e),
                            Ok(EntityView::Struct(s)) => Ok(
                                EntityView::Struct(
                                    StructView {
                                        name: s.name,
                                        fields: s.fields + own,
                                        subtypes: s.subtypes,
                                        attribute_groups: s.attribute_groups + groups_of(ns, node),
                                        comment: node.documentation(),
                                    },
                                ),
                            ),
                            Ok(EntityView::Enum(e)) => Ok(
                                named(
                                    Seq::empty(),
                                    own,
                                    groups_of(ns, node),
                                    node.documentation(),
                                    EntityView::Enum(e),
                                ),
                            ),
                            Ok(EntityView::Field(f)) => Ok(
                                named(
                                    Seq::empty(),
                                    own,
                                    groups_of(ns, node),
                                    node.documentation(),
                                    EntityView::Field(f),
                                ),
                            ),
                            Ok(_) => Ok(plain),
                        }
                    } else {
                        Ok(plain)
                    },
                }
            },
        },
    }
}

/// What an extension resolves to, by the content it stands in.
pub open spec fn resolved_extension(ns: Option<Seq<char>>, node: Node, parent: Seq<char>) -> Result<
    EntityView,
    ResolveError,
>
    decreases node, node.children@.len() + 3,
{
    match kind_of(node.tag@, parent) {
        ElementKind::Extension(ContentKind::SimpleContent) => resolved_simple_extension(ns, node),
        ElementKind::Extension(ContentKind::ComplexContent) => resolved_complex_extension(
            ns,
            node,
        ),
        _ => Err(ResolveError::UnexpectedNode),
    }
}

/// What a content wrapper resolves to: what the extension in it resolves to.
/// A restriction in it is not supported.
pub open spec fn resolved_content(ns: Option<Seq<char>>, node: Node) -> Result<
    EntityView,
    ResolveError,
>
    decreases node, node.children@.len() + 2,
{
    match node.last_child(Pick::NotAnnotation) {
        None => Err(ResolveError::MissingContent),
        Some(c) => if 0 <= c < node.children@.len() {
            match node.child_kind(c) {
                ElementKind::Restriction(_) => Err(ResolveError::UnsupportedRestriction),
                ElementKind::Extension(_) => resolved_extension(ns, node.children@[c], node.tag@),
                _ => Err(ResolveError::UnexpectedNode),
            }
        } else {
            Err(ResolveError::MissingContent)
        },
    }
}

/// What a construct resolves to, by its kind.
pub open spec fn resolved_node(ns: Option<Seq<char>>, node: Node, parent: Seq<char>) -> Result<
    EntityView,
    ResolveError,
>
    decreases node, node.children@.len() + 4,
{
    match kind_of(node.tag@, parent) {
        ElementKind::Sequence | ElementKind::All => match fields_upto(
            ns,
            node,
            Pick::Members,
            node.children@.len(),
        ) {
            Err(e) => Err(e),
            Ok(fs) => Ok(flat_struct(Seq::empty(), fs, Seq::empty(), node.documentation())),
        },
        ElementKind::Choice => Ok(
            EntityView::Enum(
                EnumView {
                    name: Seq::empty(),
                    type_ref: Seq::empty(),
                    cases: cases_upto(ns, node, Pick::Members, node.children@.len()),
                    subtypes: Seq::empty(),
                    source: EnumSource::Choice,
                    comment: node.documentation(),
                },
            ),
        ),
        ElementKind::Group => resolved_group(ns, node, parent),
        ElementKind::AttributeGroup => resolved_attribute_group(ns, node, parent),
        ElementKind::SimpleContent | ElementKind::ComplexContent => resolved_content(ns, node),
        ElementKind::Extension(_) => resolved_extension(ns, node, parent),
        ElementKind::Restriction(RestrictionKind::ComplexContent) => Err(
            ResolveError::UnsupportedRestriction,
        ),
        ElementKind::ComplexType => match node.name {
            None => Err(ResolveError::MissingName),
            Some(n) => resolved_complex(ns, node, n@),
        },
        ElementKind::SimpleType => match node.name {
            None => Err(ResolveError::MissingName),
            Some(n) => resolved_simple(ns, node, n@),
        },
        ElementKind::Element | ElementKind::Attribute => match resolved_field(
            ns,
            node,
            kind_of(node.tag@, parent),
        ) {
            Err(e) => Err(e),
            Ok(f) => Ok(EntityView::Field(f)),
        },
        _ => Err(ResolveError::UnexpectedNode),
    }
}

/// Whether a group says what it needs to: its name where it stands directly
/// under the schema, what it refers to anywhere else.
pub open spec fn names_its_group(node: Node, parent: Seq<char>) -> bool {
    if parent == "schema"@ {
        node.name.is_some()
    } else {
        node.reference.is_some()
    }
}

/// Whether a content wrapper holds, as its last child that is no annotation,
/// an extension that names its base.
pub open spec fn holds_an_extension(node: Node) -> bool {
    match node.last_child(Pick::NotAnnotation) {
        Some(c) => 0 <= c < node.children@.len() && node.child_kind(c) is Extension
            && node.children@[c].base.is_some(),
        None => false,
    }
}

/// Whether the content of a simple type is one of the supported shapes: a
/// list that names its item type, a restriction, or a union.
pub open spec fn has_supported_content(node: Node) -> bool {
    match node.last_child(Pick::NotAnnotation) {
        Some(c) => match node.child_kind(c) {
            ElementKind::List => node.children@[c].item_type.is_some(),
            ElementKind::Restriction(_) => true,
            ElementKind::Union => true,
            _ => false,
        },
        None => false,
    }
}

/// What the first `n` children of a schema give, one item for each child and
/// in document order: the entity of a declaration, the mark for any other
/// child. The first declaration that fails decides.
pub open spec fn items_upto(ns: Option<Seq<char>>, schema: Node, n: nat) -> Result<
    Seq<SchemaItemView>,
    ResolveError,
>
    decreases n,
{
    if n == 0 || n > schema.children@.len() {
        Ok(Seq::empty())
    } else {
        match items_upto(ns, schema, (n - 1) as nat) {
            Err(e) => Err(e),
            Ok(es) => if Pick::Declarations.holds(schema.child_kind(n - 1)) {
                match resolved_node(ns, schema.children@[n - 1], schema.tag@) {
                    Err(e) => Err(e),
                    Ok(x) => Ok(es.push(SchemaItemView::Declared(x))),
                }
            } else {
                Ok(es.push(SchemaItemView::PassedThrough))
            },
        }
    }
}

/// What the children of a schema give.
pub open spec fn schema_items(ns: Option<Seq<char>>, schema: Node) -> Result<
    Seq<SchemaItemView>,
    ResolveError,
> {
    items_upto(ns, schema, schema.children@.len())
}

/// The value of a result that is a list of items.
pub open spec fn items_result_view(r: Result<Vec<SchemaItem>, ResolveError>) -> Result<
    Seq<SchemaItemView>,
    ResolveError,
> {
    match r {
        Ok(v) => Ok(items_view(v)),
        Err(x) => Err(x),
    }
}

/// Once a declaration has failed, every longer prefix of the schema fails
/// alike.
pub proof fn items_upto_fails_on(ns: Option<Seq<char>>, schema: Node, k: nat, n: nat)
    requires
        items_upto(ns, schema, k).is_err(),
        k <= n <= schema.children@.len(),
    ensures
        items_upto(ns, schema, n) == items_upto(ns, schema, k),
    decreases n,
{
    if n > k {
        items_upto_fails_on(ns, schema, k, (n - 1) as nat);
    }
}

/// The value of a result of resolution.
pub open spec fn result_view(r: Result<Entity, ResolveError>) -> Result<EntityView, ResolveError> {
    match r {
        Ok(e) => Ok(e.view()),
        Err(x) => Err(x),
    }
}

/// The value of a result that is a field.
pub open spec fn field_result_view(r: Result<Field, ResolveError>) -> Result<
    FieldView,
    ResolveError,
> {
    match r {
        Ok(f) => Ok(f.view()),
        Err(x) => Err(x),
    }
}

/// The value of a result that is a list of fields.
pub open spec fn fields_result_view(r: Result<Vec<Field>, ResolveError>) -> Result<
    Seq<FieldView>,
    ResolveError,
> {
    match r {
        Ok(v) => Ok(fields_view(v)),
        Err(x) => Err(x),
    }
}

/// Once a child has failed, every longer prefix of the children fails alike.
pub proof fn fields_upto_fails_on(ns: Option<Seq<char>>, node: Node, pick: Pick, k: nat, n: nat)
    requires
        fields_upto(ns, node, pick, k).is_err(),
        k <= n <= node.children@.len(),
    ensures
        fields_upto(ns, node, pick, n) == fields_upto(ns, node, pick, k),
    decreases n,
{
    if n > k {
        fields_upto_fails_on(ns, node, pick, k, (n - 1) as nat);
    }
}

} // verus!
