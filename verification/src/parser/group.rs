//! Resolution of groups and attribute groups.

use vstd::prelude::*;
use crate::generator::Generator;
use crate::model::{Alias, Entity};
use crate::node::{Node, Pick};
use crate::parser::{
    attribute_groups_to_aliases, attributes_to_fields, make_base_field, make_flat_struct,
    name_content, parse_node,
};
use crate::resolver::{
    names_its_group, resolved_attribute_group, resolved_group, result_view, ResolveError,
};
use crate::text::same_text;

verus! {

/// Resolves a group: a declaration where it stands directly under the
/// schema, a reference anywhere else. A declaration is named, and a reference
/// says what it refers to.
pub fn parse_group(node: &Node, parent: &Node, gen: &Generator) -> (r: Result<Entity, ResolveError>)
    requires
        names_its_group(*node, parent.tag@),
    ensures
        result_view(r) == resolved_group(gen.ns(), *node, parent.tag@),
    decreases node, node.children@.len() + 2,
{
    if same_text(parent.tag.as_str(), "schema") {
        let name = node.name.as_ref().unwrap().clone();
        let attrs = match attributes_to_fields(gen, node) {
            Err(e) => { return Err(e); },
            Ok(a) => a,
        };
        let content = node.find_last(Pick::ModelContent);
        if content.is_none() || node.children[content.unwrap()].children.len() == 0 {
            return Ok(
                make_flat_struct(
                    name,
                    attrs,
                    attribute_groups_to_aliases(gen, node),
                    node.get_documentation(),
                ),
            );
        }
        match parse_node(&node.children[content.unwrap()], node, gen) {
            Err(e) => Err(e),
            Ok(res) => Ok(
                name_content(
                    name,
                    attrs,
                    attribute_groups_to_aliases(gen, node),
                    node.get_documentation(),
                    res,
                ),
            ),
        }
    } else {
        let base = gen.match_type(node.reference.as_ref().unwrap().as_str());
        Ok(Entity::Field(make_base_field(base, None)))
    }
}

/// Resolves an attribute group: a declaration where it stands directly
/// under the schema, a reference anywhere else.
pub fn parse_attribute_group(node: &Node, parent: &Node, gen: &Generator) -> (r: Result<
    Entity,
    ResolveError,
>)
    ensures
        result_view(r) == resolved_attribute_group(gen.ns(), *node, parent.tag@),
    decreases node, node.children@.len() + 2,
{
    if same_text(parent.tag.as_str(), "schema") {
        let name = match &node.name {
            None => { return Err(ResolveError::MissingName); },
            Some(n) => n.clone(),
        };
        match attributes_to_fields(gen, node) {
            Err(e) => Err(e),
            Ok(attrs) => Ok(
                make_flat_struct(
                    name,
                    attrs,
                    attribute_groups_to_aliases(gen, node),
                    node.get_documentation(),
                ),
            ),
        }
    } else {
        match &node.reference {
            None => Err(ResolveError::MissingReference),
            Some(r) => Ok(
                Entity::Alias(
                    Alias {
                        name: gen.match_type(r.as_str()),
                        original: gen.match_type(r.as_str()),
                        comment: None,
                    },
                ),
            ),
        }
    }
}

} // verus!
