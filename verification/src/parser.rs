//! Resolution of schema constructs into entities.

use vstd::prelude::*;
use vstd::string::*;
use crate::generator::Generator;
use crate::model::{
    aliases_view, cases_view, fields_view, join_aliases, join_fields, no_entities, items_view,
    one_entity, opt_view, push_field, Alias, AliasView, Case, CaseView, Entity, EntityView, Enum,
    EnumSource, Field, FieldSource, FieldView, Modifiers, SchemaItem, SchemaItemView, Struct,
    TupleStruct,
};
use crate::naming::pascal_case;
use crate::node::{classify, ElementKind, Node, Pick, RestrictionKind};
use crate::parser::complex_content::parse_complex_content;
use crate::parser::extension::parse_extension;
use crate::parser::group::{parse_attribute_group, parse_group};
use crate::resolver::{
    attribute_fields, base_field, case_ident, case_of, cases_upto, declared_type,
    field_modifiers, field_name, has_supported_content, items_result_view, items_upto,
    items_upto_fails_on, schema_items,
    field_result_view, fields_result_view, fields_upto, fields_upto_fails_on, flat_struct,
    groups_of, groups_upto, member_field, member_types, named, resolved_complex, resolved_field,
    resolved_extension, resolved_node, resolved_simple, result_view, union_cases,
    ResolveError,
};
use crate::text::{copy_opt, same_text, split_words, texts_view};

pub mod complex_content;
pub mod extension;
pub mod group;

verus! {

fn opt_is(s: &Option<String>, lit: &str) -> (r: bool)
    ensures
        r == (opt_view(*s) == Some(lit@)),
{
    match s {
        Some(t) => same_text(t.as_str(), lit),
        None => false,
    }
}

fn name_of_field(node: &Node) -> (r: Option<String>)
    ensures
        opt_view(r) == field_name(*node),
{
    match &node.name {
        Some(n) => Some(n.clone()),
        None => copy_opt(&node.reference),
    }
}

fn type_of_field(node: &Node) -> (r: Option<String>)
    ensures
        opt_view(r) == declared_type(*node),
{
    match &node.type_ref {
        Some(n) => Some(n.clone()),
        None => copy_opt(&node.reference),
    }
}

fn modifiers_for(node: &Node, kind: ElementKind) -> (m: Modifiers)
    ensures
        m == field_modifiers(*node, kind),
{
    if kind == ElementKind::Attribute {
        Modifiers {
            optional: !opt_is(&node.usage, "required"),
            repeated: false,
            suppressed: opt_is(&node.usage, "prohibited"),
        }
    } else {
        let none = opt_is(&node.max_occurs, "0");
        Modifiers {
            optional: opt_is(&node.min_occurs, "0"),
            repeated: node.max_occurs.is_some() && !opt_is(&node.max_occurs, "1") && !none,
            suppressed: none,
        }
    }
}

pub(crate) fn make_base_field(base: String, comment: Option<String>) -> (f: Field)
    ensures
        f.view() == base_field(base@, opt_view(comment)),
{
    Field {
        name: String::from_str("base"),
        type_ref: base,
        modifiers: Modifiers::none(),
        source: FieldSource::BaseTypeComposition,
        subtypes: no_entities(),
        comment,
    }
}

/// Derives the identifier of an enum case from a literal.
pub fn sanitize(literal: &str) -> (r: String)
    ensures
        r@ == case_ident(literal@),
{
    let p = pascal_case(literal);
    let n = p.as_str().unicode_len();
    let bare = if n > 0 {
        let c = p.as_str().get_char(0);
        !('0' <= c && c <= '9')
    } else {
        false
    };
    if bare {
        p
    } else {
        let mut out = String::from_str("_");
        out.append(p.as_str());
        out
    }
}

fn make_case(gen: &Generator, child: &Node, pick: Pick) -> (c: Case)
    ensures
        c.view() == case_of(gen.ns(), *child, pick),
{
    if pick == Pick::Facets {
        let literal = match &child.value {
            Some(v) => v.clone(),
            None => String::new(),
        };
        Case { name: sanitize(literal.as_str()), value: literal }
    } else {
        let name = match name_of_field(child) {
            Some(n) => n,
            None => String::new(),
        };
        let ty = match type_of_field(child) {
            Some(t) => gen.match_type(t.as_str()),
            None => String::from_str("String"),
        };
        Case { name: sanitize(name.as_str()), value: ty }
    }
}

fn collect_cases(gen: &Generator, node: &Node, pick: Pick) -> (r: Vec<Case>)
    ensures
        cases_view(r) == cases_upto(gen.ns(), *node, pick, node.children@.len()),
{
    let mut out: Vec<Case> = Vec::new();
    let mut i: usize = 0;
    assert(cases_view(out) =~= Seq::<CaseView>::empty());
    while i < node.children.len()
        invariant
            i <= node.children@.len(),
            cases_view(out) == cases_upto(gen.ns(), *node, pick, i as nat),
        decreases node.children@.len() - i,
    {
        let child = &node.children[i];
        let k = classify(child.tag.as_str(), node.tag.as_str());
        if pick.test(k) {
            let c = make_case(gen, child, pick);
            let ghost before = cases_view(out);
            out.push(c);
            assert(cases_view(out) =~= before.push(c.view()));
        }
        i = i + 1;
    }
    out
}

fn collect_union_cases(gen: &Generator, node: &Node) -> (r: Vec<Case>)
    ensures
        cases_view(r) == union_cases(gen.ns(), member_types(*node)),
{
    let members = match &node.member_types {
        Some(m) => split_words(m.as_str()),
        None => Vec::new(),
    };
    assert(texts_view(members) =~= member_types(*node));
    let mut out: Vec<Case> = Vec::new();
    let mut i: usize = 0;
    while i < members.len()
        invariant
            i <= members@.len(),
            out@.len() == i,
            forall|j: int|
                0 <= j < i ==> (#[trigger] out@[j]).view() == union_cases(
                    gen.ns(),
                    texts_view(members),
                )[j],
        decreases members@.len() - i,
    {
        let ty = gen.match_type(members[i].as_str());
        let name = sanitize(ty.as_str());
        out.push(Case { name, value: ty });
        i = i + 1;
    }
    assert(cases_view(out) =~= union_cases(gen.ns(), texts_view(members)));
    out
}

/// Collects the aliases for the attribute groups that a construct refers to.
pub fn attribute_groups_to_aliases(gen: &Generator, node: &Node) -> (r: Vec<Alias>)
    ensures
        aliases_view(r) == groups_of(gen.ns(), *node),
{
    let mut out: Vec<Alias> = Vec::new();
    let mut i: usize = 0;
    assert(aliases_view(out) =~= Seq::<AliasView>::empty());
    while i < node.children.len()
        invariant
            i <= node.children@.len(),
            aliases_view(out) == groups_upto(gen.ns(), *node, i as nat),
        decreases node.children@.len() - i,
    {
        let child = &node.children[i];
        let k = classify(child.tag.as_str(), node.tag.as_str());
        if Pick::AttributeGroups.test(k) {
            match &child.reference {
                Some(r) => {
                    let a = Alias {
                        name: gen.match_type(r.as_str()),
                        original: gen.match_type(r.as_str()),
                        comment: None,
                    };
                    let ghost before = aliases_view(out);
                    out.push(a);
                    assert(aliases_view(out) =~= before.push(a.view()));
                },
                None => {},
            }
        }
        i = i + 1;
    }
    out
}

pub(crate) fn make_flat_struct(
    name: String,
    fields: Vec<Field>,
    groups: Vec<Alias>,
    comment: Option<String>,
) -> (e: Entity)
    ensures
        e.view() == flat_struct(name@, fields_view(fields), aliases_view(groups), opt_view(comment)),
{
    Entity::Struct(
        Struct { name, fields, subtypes: no_entities(), attribute_groups: groups, comment },
    )
}

/// Builds the struct of a named declaration from its attributes and from
/// what its content resolved to.
pub fn name_content(
    name: String,
    attrs: Vec<Field>,
    groups: Vec<Alias>,
    comment: Option<String>,
    content: Entity,
) -> (e: Entity)
    ensures
        e.view() == named(
            name@,
            fields_view(attrs),
            aliases_view(groups),
            opt_view(comment),
            content.view(),
        ),
{
    match content {
        Entity::Struct(s) => {
            let c = if comment.is_some() {
                comment
            } else {
                s.comment
            };
            Entity::Struct(
                Struct {
                    name,
                    fields: join_fields(attrs, s.fields),
                    subtypes: s.subtypes,
                    attribute_groups: join_aliases(groups, s.attribute_groups),
                    comment: c,
                },
            )
        },
        Entity::Enum(e) => {
            let mut cn = name.clone();
            cn.append("Choice");
            let inner = Entity::Enum(
                Enum {
                    name: cn.clone(),
                    type_ref: e.type_ref,
                    cases: e.cases,
                    subtypes: e.subtypes,
                    source: e.source,
                    comment: e.comment,
                },
            );
            let f = Field {
                name: cn.clone(),
                type_ref: cn,
                modifiers: Modifiers::none(),
                source: FieldSource::ChoiceGroup,
                subtypes: one_entity(inner),
                comment: None,
            };
            let mut fields = attrs;
            push_field(&mut fields, f);
            make_flat_struct(name, fields, groups, comment)
        },
        Entity::Field(f) => {
            let mut fields = attrs;
            push_field(&mut fields, f);
            make_flat_struct(name, fields, groups, comment)
        },
        other => other,
    }
}

/// Resolves a simple type under the given name.
pub fn resolve_simple(gen: &Generator, node: &Node, name: String) -> (r: Result<
    Entity,
    ResolveError,
>)
    ensures
        result_view(r) == resolved_simple(gen.ns(), *node, name@),
{
    match node.find_last(Pick::NotAnnotation) {
        None => Err(ResolveError::UnsupportedSimpleType),
        Some(c) => {
            let ch = &node.children[c];
            match classify(ch.tag.as_str(), node.tag.as_str()) {
                ElementKind::List => match &ch.item_type {
                    None => Err(ResolveError::NestedSimpleType),
                    Some(t) => Ok(
                        Entity::TupleStruct(
                            TupleStruct {
                                name,
                                type_ref: gen.match_type(t.as_str()),
                                modifiers: Modifiers {
                                    optional: false,
                                    repeated: true,
                                    suppressed: false,
                                },
                                subtypes: no_entities(),
                                comment: node.get_documentation(),
                            },
                        ),
                    ),
                },
                ElementKind::Restriction(_) => match &ch.base {
                    None => Err(ResolveError::MissingBase),
                    Some(b) => if ch.has_any(Pick::Facets) {
                        Ok(
                            Entity::Enum(
                                Enum {
                                    name,
                                    type_ref: gen.match_type(b.as_str()),
                                    cases: collect_cases(gen, ch, Pick::Facets),
                                    subtypes: no_entities(),
                                    source: EnumSource::Enumeration,
                                    comment: node.get_documentation(),
                                },
                            ),
                        )
                    } else {
                        Ok(
                            Entity::TupleStruct(
                                TupleStruct {
                                    name,
                                    type_ref: gen.match_type(b.as_str()),
                                    modifiers: Modifiers::none(),
                                    subtypes: no_entities(),
                                    comment: node.get_documentation(),
                                },
                            ),
                        )
                    },
                },
                ElementKind::Union => if ch.has_any(Pick::InlineType) {
                    Err(ResolveError::NestedSimpleType)
                } else {
                    Ok(
                        Entity::Enum(
                            Enum {
                                name,
                                type_ref: String::new(),
                                cases: collect_union_cases(gen, ch),
                                subtypes: no_entities(),
                                source: EnumSource::Union,
                                comment: node.get_documentation(),
                            },
                        ),
                    )
                },
                _ => Err(ResolveError::UnsupportedSimpleType),
            }
        },
    }
}

/// Resolves the field that an attribute or an element declares.
pub fn resolve_field(gen: &Generator, node: &Node, kind: ElementKind) -> (r: Result<
    Field,
    ResolveError,
>)
    ensures
        field_result_view(r) == resolved_field(gen.ns(), *node, kind),
    decreases node, 0nat,
{
    let name = match name_of_field(node) {
        None => { return Err(ResolveError::MissingName); },
        Some(n) => n,
    };
    let source = if kind == ElementKind::Attribute {
        FieldSource::Attribute
    } else {
        FieldSource::Element
    };
    let modifiers = modifiers_for(node, kind);
    let comment = node.get_documentation();
    match type_of_field(node) {
        Some(t) => Ok(
            Field {
                name,
                type_ref: gen.match_type(t.as_str()),
                modifiers,
                source,
                subtypes: no_entities(),
                comment,
            },
        ),
        None => match node.find_last(Pick::InlineType) {
            None => Ok(
                Field {
                    name,
                    type_ref: String::from_str("String"),
                    modifiers,
                    source,
                    subtypes: no_entities(),
                    comment,
                },
            ),
            Some(i) => {
                let child = &node.children[i];
                let mut inner_name = name.clone();
                inner_name.append("Type");
                let k = classify(child.tag.as_str(), node.tag.as_str());
                let inner = if k == ElementKind::ComplexType {
                    resolve_complex(gen, child, inner_name.clone())
                } else {
                    resolve_simple(gen, child, inner_name.clone())
                };
                match inner {
                    Err(e) => Err(e),
                    Ok(sub) => Ok(
                        Field {
                            name,
                            type_ref: inner_name,
                            modifiers,
                            source,
                            subtypes: one_entity(sub),
                            comment,
                        },
                    ),
                }
            },
        },
    }
}

/// Resolves the field that a member of a sequence gives.
pub fn resolve_member(gen: &Generator, node: &Node, kind: ElementKind) -> (r: Result<
    Field,
    ResolveError,
>)
    ensures
        field_result_view(r) == member_field(gen.ns(), *node, kind),
    decreases node, 1nat,
{
    if kind == ElementKind::Group {
        match &node.reference {
            None => Err(ResolveError::MissingReference),
            Some(r) => Ok(make_base_field(gen.match_type(r.as_str()), None)),
        }
    } else {
        resolve_field(gen, node, kind)
    }
}

/// Resolves, in document order, the fields of the children whose kind is in
/// the set.
pub fn collect_fields(gen: &Generator, node: &Node, pick: Pick) -> (r: Result<
    Vec<Field>,
    ResolveError,
>)
    ensures
        fields_result_view(r) == fields_upto(gen.ns(), *node, pick, node.children@.len()),
    decreases node, node.children@.len(),
{
    let mut out: Vec<Field> = Vec::new();
    let mut i: usize = 0;
    assert(fields_view(out) =~= Seq::<FieldView>::empty());
    while i < node.children.len()
        invariant
            i <= node.children@.len(),
            fields_upto(gen.ns(), *node, pick, i as nat) == Ok::<Seq<FieldView>, ResolveError>(
                fields_view(out),
            ),
        decreases node.children@.len() - i,
    {
        let child = &node.children[i];
        let k = classify(child.tag.as_str(), node.tag.as_str());
        if pick.test(k) {
            match resolve_member(gen, child, k) {
                Err(e) => {
                    proof {
                        fields_upto_fails_on(
                            gen.ns(),
                            *node,
                            pick,
                            (i + 1) as nat,
                            node.children@.len(),
                        );
                    }
                    return Err(e);
                },
                Ok(f) => {
                    push_field(&mut out, f);
                },
            }
        }
        i = i + 1;
    }
    Ok(out)
}

/// Resolves the fields for the attributes that a construct declares.
pub fn attributes_to_fields(gen: &Generator, node: &Node) -> (r: Result<Vec<Field>, ResolveError>)
    ensures
        fields_result_view(r) == attribute_fields(gen.ns(), *node),
    decreases node, node.children@.len() + 1,
{
    collect_fields(gen, node, Pick::Attributes)
}

/// Resolves a complex type under the given name.
pub fn resolve_complex(gen: &Generator, node: &Node, name: String) -> (r: Result<
    Entity,
    ResolveError,
>)
    ensures
        result_view(r) == resolved_complex(gen.ns(), *node, name@),
    decreases node, node.children@.len() + 2,
{
    let attrs = match attributes_to_fields(gen, node) {
        Err(e) => { return Err(e); },
        Ok(a) => a,
    };
    match node.find_last(Pick::TypeContent) {
        None => Ok(
            make_flat_struct(
                name,
                attrs,
                attribute_groups_to_aliases(gen, node),
                node.get_documentation(),
            ),
        ),
        Some(c) => match parse_node(&node.children[c], node, gen) {
            Err(e) => Err(e),
            Ok(content) => Ok(
                name_content(
                    name,
                    attrs,
                    attribute_groups_to_aliases(gen, node),
                    node.get_documentation(),
                    content,
                ),
            ),
        },
    }
}

/// Resolves a construct by its kind. It tests what the construct needs
/// before it hands it on: a construct that lacks its name, its base, its
/// reference or its content, or that is not supported, gives the error that
/// says so.
pub fn parse_node(node: &Node, parent: &Node, gen: &Generator) -> (r: Result<Entity, ResolveError>)
    ensures
        result_view(r) == resolved_node(gen.ns(), *node, parent.tag@),
    decreases node, node.children@.len() + 4,
{
    let kind = classify(node.tag.as_str(), parent.tag.as_str());
    match kind {
        ElementKind::Sequence | ElementKind::All => match collect_fields(
            gen,
            node,
            Pick::Members,
        ) {
            Err(e) => Err(e),
            Ok(fs) => {
                let groups: Vec<Alias> = Vec::new();
                assert(aliases_view(groups) =~= Seq::<AliasView>::empty());
                Ok(make_flat_struct(String::new(), fs, groups, node.get_documentation()))
            },
        },
        ElementKind::Choice => Ok(
            Entity::Enum(
                Enum {
                    name: String::new(),
                    type_ref: String::new(),
                    cases: collect_cases(gen, node, Pick::Members),
                    subtypes: no_entities(),
                    source: EnumSource::Choice,
                    comment: node.get_documentation(),
                },
            ),
        ),
        ElementKind::Group => {
            let declared = same_text(parent.tag.as_str(), "schema");
            if declared && node.name.is_none() {
                Err(ResolveError::MissingName)
            } else if !declared && node.reference.is_none() {
                Err(ResolveError::MissingReference)
            } else {
                parse_group(node, parent, gen)
            }
        },
        ElementKind::AttributeGroup => parse_attribute_group(node, parent, gen),
        ElementKind::SimpleContent | ElementKind::ComplexContent => match node.find_last(
            Pick::NotAnnotation,
        ) {
            None => Err(ResolveError::MissingContent),
            Some(c) => {
                let content = &node.children[c];
                match classify(content.tag.as_str(), node.tag.as_str()) {
                    ElementKind::Restriction(_) => Err(ResolveError::UnsupportedRestriction),
                    ElementKind::Extension(_) => if content.base.is_none() {
                        assert(resolved_extension(gen.ns(), *content, node.tag@) == Err::<
                            EntityView,
                            ResolveError,
                        >(ResolveError::MissingBase));
                        Err(ResolveError::MissingBase)
                    } else {
                        parse_complex_content(node, gen)
                    },
                    _ => Err(ResolveError::UnexpectedNode),
                }
            },
        },
        ElementKind::Extension(_) => if node.base.is_none() {
            assert(resolved_extension(gen.ns(), *node, parent.tag@) == Err::<
                EntityView,
                ResolveError,
            >(ResolveError::MissingBase));
            Err(ResolveError::MissingBase)
        } else {
            parse_extension(node, parent, gen)
        },
        ElementKind::Restriction(RestrictionKind::ComplexContent) => Err(
            ResolveError::UnsupportedRestriction,
        ),
        ElementKind::ComplexType => match &node.name {
            None => Err(ResolveError::MissingName),
            Some(n) => resolve_complex(gen, node, n.clone()),
        },
        ElementKind::SimpleType => match &node.name {
            None => Err(ResolveError::MissingName),
            Some(n) => resolve_simple(gen, node, n.clone()),
        },
        ElementKind::Element | ElementKind::Attribute => match resolve_field(gen, node, kind) {
            Err(e) => Err(e),
            Ok(f) => Ok(Entity::Field(f)),
        },
        _ => Err(ResolveError::UnexpectedNode),
    }
}

impl Generator {
    /// Resolves a complex type declared at the top of a schema. The type is
    /// named.
    pub fn complex_type(&self, node: &Node) -> (r: Result<Entity, ResolveError>)
        requires
            node.name.is_some(),
        ensures
            result_view(r) == resolved_complex(self.ns(), *node, node.name.unwrap()@),
    {
        resolve_complex(self, node, node.name.as_ref().unwrap().clone())
    }

    /// Resolves a simple type declared at the top of a schema. The type is
    /// named, and its content is a list that names its item type, a
    /// restriction or a union.
    pub fn simple_type(&self, node: &Node) -> (r: Result<Entity, ResolveError>)
        requires
            node.name.is_some(),
            has_supported_content(*node),
        ensures
            result_view(r) == resolved_simple(self.ns(), *node, node.name.unwrap()@),
    {
        resolve_simple(self, node, node.name.as_ref().unwrap().clone())
    }

    /// Resolves a schema child by child, in document order: a type, a group
    /// or an attribute group gives its entity, any other child the mark that
    /// it is passed through. There is one item for each child. The first
    /// declaration that cannot be resolved ends the run.
    pub fn resolve_schema(&self, schema: &Node) -> (r: Result<Vec<SchemaItem>, ResolveError>)
        ensures
            items_result_view(r) == schema_items(self.ns(), *schema),
            r.is_ok() ==> r.unwrap()@.len() == schema.children@.len(),
    {
        let mut out: Vec<SchemaItem> = Vec::new();
        let mut i: usize = 0;
        assert(items_view(out) =~= Seq::<SchemaItemView>::empty());
        while i < schema.children.len()
            invariant
                i <= schema.children@.len(),
                out@.len() == i,
                items_upto(self.ns(), *schema, i as nat) == Ok::<
                    Seq<SchemaItemView>,
                    ResolveError,
                >(items_view(out)),
            decreases schema.children@.len() - i,
        {
            let child = &schema.children[i];
            let k = classify(child.tag.as_str(), schema.tag.as_str());
            let ghost before = items_view(out);
            if Pick::Declarations.test(k) {
                match parse_node(child, schema, self) {
                    Err(e) => {
                        proof {
                            items_upto_fails_on(
                                self.ns(),
                                *schema,
                                (i + 1) as nat,
                                schema.children@.len(),
                            );
                        }
                        return Err(e);
                    },
                    Ok(x) => {
                        let item = SchemaItem::Declared(x);
                        out.push(item);
                        assert(items_view(out) =~= before.push(item.view()));
                    },
                }
            } else {
                out.push(SchemaItem::PassedThrough);
                assert(items_view(out) =~= before.push(SchemaItemView::PassedThrough));
            }
            i = i + 1;
        }
        Ok(out)
    }
}

} // verus!
