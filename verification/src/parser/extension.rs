//! Resolution of extensions of simple and of complex content.

use vstd::prelude::*;
use crate::generator::Generator;
use crate::model::{join_aliases, join_fields, push_field, Entity, Struct};
use crate::node::{classify, kind_of, ContentKind, ElementKind, Node, Pick};
use crate::parser::{
    attribute_groups_to_aliases, attributes_to_fields, make_base_field, make_flat_struct,
    name_content, parse_node,
};
use crate::resolver::{
    resolved_complex_extension, resolved_extension, resolved_simple_extension, result_view,
    ResolveError,
};

verus! {

/// Resolves an extension of simple content. The extension names its base.
pub fn simple_content_extension(node: &Node, gen: &Generator) -> (r: Result<Entity, ResolveError>)
    requires
        node.base.is_some(),
    ensures
        result_view(r) == resolved_simple_extension(gen.ns(), *node),
    decreases node, node.children@.len() + 2,
{
    let base = gen.match_type(node.base.as_ref().unwrap().as_str());
    let mut fields = match attributes_to_fields(gen, node) {
        Err(e) => { return Err(e); },
        Ok(a) => a,
    };
    push_field(&mut fields, make_base_field(base, node.get_documentation()));
    Ok(
        make_flat_struct(
            String::new(),
            fields,
            attribute_groups_to_aliases(gen, node),
            node.get_documentation(),
        ),
    )
}

/// Resolves an extension of complex content. The extension names its base.
pub fn complex_content_extension(node: &Node, gen: &Generator) -> (r: Result<Entity, ResolveError>)
    requires
        node.base.is_some(),
    ensures
        result_view(r) == resolved_complex_extension(gen.ns(), *node),
    decreases node, node.children@.len() + 2,
{
    let base = gen.match_type(node.base.as_ref().unwrap().as_str());
    let mut fields = match attributes_to_fields(gen, node) {
        Err(e) => { return Err(e); },
        Ok(a) => a,
    };
    push_field(&mut fields, make_base_field(base, node.get_documentation()));
    match node.find_last(Pick::ExtensionContent) {
        Some(c) => match parse_node(&node.children[c], node, gen) {
            Err(e) => { return Err(e); },
            Ok(content) => match content {
                Entity::Struct(s) => {
                    return Ok(
                        Entity::Struct(
                            Struct {
                                name: s.name,
                                fields: join_fields(s.fields, fields),
                                subtypes: s.subtypes,
                                attribute_groups: join_aliases(
                                    s.attribute_groups,
                                    attribute_groups_to_aliases(gen, node),
                                ),
                                comment: node.get_documentation(),
                            },
                        ),
                    );
                },
                Entity::Enum(e) => {
                    return Ok(
                        name_content(
                            String::new(),
                            fields,
                            attribute_groups_to_aliases(gen, node),
                            node.get_documentation(),
                            Entity::Enum(e),
                        ),
                    );
                },
                Entity::Field(f) => {
                    return Ok(
                        name_content(
                            String::new(),
                            fields,
                            attribute_groups_to_aliases(gen, node),
                            node.get_documentation(),
                            Entity::Field(f),
                        ),
                    );
                },
                _ => {},
            },
        },
        None => {},
    }
    Ok(
        make_flat_struct(
            String::new(),
            fields,
            attribute_groups_to_aliases(gen, node),
            node.get_documentation(),
        ),
    )
}

/// Resolves an extension by the content it stands in. The node is an
/// extension under that parent, and names its base.
pub fn parse_extension(node: &Node, parent: &Node, gen: &Generator) -> (r: Result<
    Entity,
    ResolveError,
>)
    requires
        kind_of(node.tag@, parent.tag@) is Extension,
        node.base.is_some(),
    ensures
        result_view(r) == resolved_extension(gen.ns(), *node, parent.tag@),
    decreases node, node.children@.len() + 3,
{
    let kind = classify(node.tag.as_str(), parent.tag.as_str());
    if kind == ElementKind::Extension(ContentKind::SimpleContent) {
        simple_content_extension(node, gen)
    } else {
        complex_content_extension(node, gen)
    }
}

} // verus!
