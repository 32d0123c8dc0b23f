//! Resolution of the wrappers of simple and of complex content.

use vstd::prelude::*;
use crate::generator::Generator;
use crate::model::Entity;
use crate::node::{Node, Pick};
use crate::parser::extension::parse_extension;
use crate::resolver::{holds_an_extension, resolved_content, result_view, ResolveError};

verus! {

/// Resolves a content wrapper by the extension it holds. The wrapper holds
/// one, as its last child that is no annotation, and that extension names its
/// base.
pub fn parse_complex_content(node: &Node, gen: &Generator) -> (r: Result<Entity, ResolveError>)
    requires
        holds_an_extension(*node),
    ensures
        result_view(r) == resolved_content(gen.ns(), *node),
    decreases node, node.children@.len() + 2,
{
    let c = node.find_last(Pick::NotAnnotation).unwrap();
    parse_extension(&node.children[c], node, gen)
}

} // verus!
