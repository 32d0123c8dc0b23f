//! What holds of resolution and rendering whatever the schema: the order of
//! fields, the composition of a base, the alternatives of an extension, the
//! cases of an enumeration, the shape of an empty group, the names of the
//! declared entities, and the absence of collisions.

use vstd::prelude::*;
use crate::generator::layout::scoped_type;
use crate::generator::{is_scalar, local_start, matched_type, type_ident};
use crate::model::{CaseView, EntityView, FieldSource, FieldView, SchemaItemView};
use crate::naming::snake_case_of;
use crate::node::{kind_of, ContentKind, ElementKind, Node, Pick};
use crate::resolver::{
    attribute_fields, base_field, case_ident, cases_upto, field_name, fields_upto, flat_struct,
    groups_of, items_upto, member_field, resolved_complex, resolved_complex_extension,
    resolved_content, resolved_extension, resolved_group, resolved_node, resolved_simple,
    resolved_simple_extension, ResolveError,
};

verus! {

/// The name under which a child of the given kind is declared as a field: a
/// group reference composes its group under the name `base`.
pub open spec fn declared_name(child: Node, kind: ElementKind) -> Seq<char> {
    if kind == ElementKind::Group {
        "base"@
    } else {
        match field_name(child) {
            Some(n) => n,
            None => Seq::empty(),
        }
    }
}

/// The names that the first `n` children declare, for the children whose
/// kind is in the set, in document order.
pub open spec fn declared_names(node: Node, pick: Pick, n: nat) -> Seq<Seq<char>>
    decreases n,
{
    if n == 0 || n > node.children@.len() {
        Seq::empty()
    } else if pick.holds(node.child_kind(n - 1)) {
        declared_names(node, pick, (n - 1) as nat).push(
            declared_name(node.children@[n - 1], node.child_kind(n - 1)),
        )
    } else {
        declared_names(node, pick, (n - 1) as nat)
    }
}

/// Whether the names are written as pairwise distinct identifiers.
pub open spec fn written_distinct(names: Seq<Seq<char>>) -> bool {
    forall|i: int, j: int|
        0 <= i < j < names.len() ==> snake_case_of(#[trigger] names[i]) != snake_case_of(
            #[trigger] names[j],
        )
}

/// The names of the fields, in their order.
pub open spec fn field_names(fields: Seq<FieldView>) -> Seq<Seq<char>> {
    Seq::new(fields.len(), |i: int| fields[i].name)
}

/// Whether a construct is a complex type whose content model is a sequence
/// or an `all`.
pub open spec fn has_member_content(node: Node) -> bool {
    match node.last_child(Pick::TypeContent) {
        Some(c) => node.child_kind(c) == ElementKind::Sequence || node.child_kind(c)
            == ElementKind::All,
        None => false,
    }
}

/// The fields that resolution gives for the children of a set carry the
/// declared names, one field per child and in document order; the fields of
/// attributes come from attributes and own nothing but what they declare
/// inline.
pub proof fn fields_keep_declared_names(ns: Option<Seq<char>>, node: Node, pick: Pick, n: nat)
    requires
        fields_upto(ns, node, pick, n).is_ok(),
    ensures
        field_names(fields_upto(ns, node, pick, n).unwrap()) == declared_names(node, pick, n),
        pick == Pick::Attributes ==> forall|i: int|
            0 <= i < fields_upto(ns, node, pick, n).unwrap().len() ==> (#[trigger] fields_upto(
                ns,
                node,
                pick,
                n,
            ).unwrap()[i]).source == FieldSource::Attribute,
    decreases n,
{
    if n == 0 || n > node.children@.len() {
        assert(field_names(Seq::<FieldView>::empty()) =~= Seq::<Seq<char>>::empty());
    } else {
        let before = fields_upto(ns, node, pick, (n - 1) as nat);
        fields_keep_declared_names(ns, node, pick, (n - 1) as nat);
        if pick.holds(node.child_kind(n - 1)) {
            let child = node.children@[n - 1];
            let kind = node.child_kind(n - 1);
            let f = member_field(ns, child, kind).unwrap();
            assert(f.name == declared_name(child, kind));
            assert(field_names(before.unwrap().push(f)) =~= field_names(before.unwrap()).push(
                f.name,
            ));
            if pick == Pick::Attributes {
                assert(f.source == FieldSource::Attribute);
            }
        }
    }
}

/// The order of fields: in a complex type whose content model is a sequence,
/// the struct has the fields of the attributes, in their declared order, and
/// behind them the fields of the members of the sequence, in theirs.
pub proof fn attributes_come_before_members(ns: Option<Seq<char>>, node: Node, name: Seq<char>)
    requires
        has_member_content(node),
        resolved_complex(ns, node, name).is_ok(),
    ensures
        attribute_fields(ns, node).is_ok(),
        fields_upto(
            ns,
            node.children@[node.last_child(Pick::TypeContent).unwrap()],
            Pick::Members,
            node.children@[node.last_child(Pick::TypeContent).unwrap()].children@.len(),
        ).is_ok(),
        resolved_complex(ns, node, name).unwrap() is Struct,
        resolved_complex(ns, node, name).unwrap()->Struct_0.name == name,
        resolved_complex(ns, node, name).unwrap()->Struct_0.fields == attribute_fields(
            ns,
            node,
        ).unwrap() + fields_upto(
            ns,
            node.children@[node.last_child(Pick::TypeContent).unwrap()],
            Pick::Members,
            node.children@[node.last_child(Pick::TypeContent).unwrap()].children@.len(),
        ).unwrap(),
{
    node.last_of_is_a_child(Pick::TypeContent, node.children@.len());
}

/// The names that the members of a complex type's content model declare;
/// none where the type has no content model.
pub open spec fn member_names(node: Node) -> Seq<Seq<char>> {
    match node.last_child(Pick::TypeContent) {
        Some(c) => declared_names(node.children@[c], Pick::Members, node.children@[c].children@.len()),
        None => Seq::empty(),
    }
}

/// Whether a construct is a complex type of attributes alone, or one whose
/// content model is a sequence or an `all`.
pub open spec fn has_plain_content(node: Node) -> bool {
    node.last_child(Pick::TypeContent).is_none() || has_member_content(node)
}

/// No collision is added. In a complex type of attributes alone, or with a
/// sequence as its content model, the fields of the struct carry the names
/// that the attributes and the members declare, attributes first and each in
/// document order. So if those names are written as pairwise distinct
/// identifiers, the names of the fields are too.
pub proof fn distinct_declarations_give_distinct_fields(
    ns: Option<Seq<char>>,
    node: Node,
    name: Seq<char>,
)
    requires
        has_plain_content(node),
        resolved_complex(ns, node, name).is_ok(),
    ensures
        resolved_complex(ns, node, name).unwrap() is Struct,
        field_names(resolved_complex(ns, node, name).unwrap()->Struct_0.fields) == declared_names(
            node,
            Pick::Attributes,
            node.children@.len(),
        ) + member_names(node),
        written_distinct(
            declared_names(node, Pick::Attributes, node.children@.len()) + member_names(node),
        ) ==> written_distinct(
            field_names(resolved_complex(ns, node, name).unwrap()->Struct_0.fields),
        ),
{
    let attrs = attribute_fields(ns, node).unwrap();
    fields_keep_declared_names(ns, node, Pick::Attributes, node.children@.len());
    if has_member_content(node) {
        attributes_come_before_members(ns, node, name);
        let content = node.children@[node.last_child(Pick::TypeContent).unwrap()];
        let members = fields_upto(ns, content, Pick::Members, content.children@.len()).unwrap();
        fields_keep_declared_names(ns, content, Pick::Members, content.children@.len());
        assert(field_names(attrs + members) =~= field_names(attrs) + field_names(members));
    } else {
        assert(field_names(attrs) + Seq::<Seq<char>>::empty() =~= field_names(attrs));
    }
}

/// The literals of the enumeration facets among the first `n` children, in
/// document order; a facet without a value stands for the empty literal.
pub open spec fn facet_literals(node: Node, n: nat) -> Seq<Seq<char>>
    decreases n,
{
    if n == 0 || n > node.children@.len() {
        Seq::empty()
    } else if Pick::Facets.holds(node.child_kind(n - 1)) {
        facet_literals(node, (n - 1) as nat).push(
            match node.children@[n - 1].value {
                Some(v) => v@,
                None => Seq::empty(),
            },
        )
    } else {
        facet_literals(node, (n - 1) as nat)
    }
}

/// An enumeration follows its facets: there is one case for each facet, in
/// the order of the facets; each keeps the literal of its facet and is named
/// by the identifier made from that literal.
pub proof fn enumeration_follows_facets(ns: Option<Seq<char>>, node: Node, n: nat)
    ensures
        cases_upto(ns, node, Pick::Facets, n).len() == facet_literals(node, n).len(),
        forall|i: int|
            0 <= i < facet_literals(node, n).len() ==> (#[trigger] cases_upto(
                ns,
                node,
                Pick::Facets,
                n,
            )[i]) == (CaseView {
                name: case_ident(facet_literals(node, n)[i]),
                value: facet_literals(node, n)[i],
            }),
    decreases n,
{
    if n == 0 || n > node.children@.len() {
    } else {
        enumeration_follows_facets(ns, node, (n - 1) as nat);
    }
}

/// Composition of the base: an extension of simple content that names its
/// base resolves to a struct of the fields of its attributes and one field
/// more, the last, which composes the base type.
pub proof fn simple_extension_composes_its_base(ns: Option<Seq<char>>, node: Node)
    requires
        node.base.is_some(),
        attribute_fields(ns, node).is_ok(),
    ensures
        resolved_simple_extension(ns, node).is_ok(),
        resolved_simple_extension(ns, node).unwrap() is Struct,
        resolved_simple_extension(ns, node).unwrap()->Struct_0.fields == attribute_fields(
            ns,
            node,
        ).unwrap().push(base_field(matched_type(ns, node.base.unwrap()@), node.documentation())),
        resolved_simple_extension(ns, node).unwrap()->Struct_0.fields.len() == attribute_fields(
            ns,
            node,
        ).unwrap().len() + 1,
{
}

/// An extension keeps the alternatives of its content: where the content
/// model of an extension of complex content is a choice, the struct has the
/// fields of the attributes, then the composition of the base, and as its
/// last field the one that owns the enum of the alternatives.
pub proof fn extension_keeps_its_alternatives(ns: Option<Seq<char>>, node: Node)
    requires
        node.base.is_some(),
        resolved_complex_extension(ns, node).is_ok(),
        node.last_child(Pick::ExtensionContent).is_some(),
        node.child_kind(node.last_child(Pick::ExtensionContent).unwrap()) == ElementKind::Choice,
    ensures
        attribute_fields(ns, node).is_ok(),
        resolved_complex_extension(ns, node).unwrap() is Struct,
        resolved_complex_extension(ns, node).unwrap()->Struct_0.fields.len() == attribute_fields(
            ns,
            node,
        ).unwrap().len() + 2,
        resolved_complex_extension(ns, node).unwrap()->Struct_0.fields.drop_last()
            == attribute_fields(ns, node).unwrap().push(
            base_field(matched_type(ns, node.base.unwrap()@), node.documentation()),
        ),
        resolved_complex_extension(ns, node).unwrap()->Struct_0.fields.last().source
            == FieldSource::ChoiceGroup,
        resolved_complex_extension(ns, node).unwrap()->Struct_0.fields.last().subtypes.len() == 1,
        resolved_complex_extension(ns, node).unwrap()->Struct_0.fields.last().subtypes[0] is Enum,
{
    node.last_of_is_a_child(Pick::ExtensionContent, node.children@.len());
    let own = attribute_fields(ns, node).unwrap().push(
        base_field(matched_type(ns, node.base.unwrap()@), node.documentation()),
    );
    let fields = resolved_complex_extension(ns, node).unwrap()->Struct_0.fields;
    assert(fields.drop_last() =~= own);
}

/// The empty group: a named group directly under the schema that has no
/// content model, or one without children, resolves to a struct of exactly
/// the fields of its attributes, every one of them an attribute's, with
/// nothing nested in the struct itself.
pub proof fn empty_group_has_only_attributes(ns: Option<Seq<char>>, node: Node)
    requires
        node.name.is_some(),
        attribute_fields(ns, node).is_ok(),
        match node.last_child(Pick::ModelContent) {
            Some(c) => node.children@[c].children@.len() == 0,
            None => true,
        },
    ensures
        resolved_group(ns, node, "schema"@) == Ok::<EntityView, ResolveError>(
            flat_struct(
                node.name.unwrap()@,
                attribute_fields(ns, node).unwrap(),
                groups_of(ns, node),
                node.documentation(),
            ),
        ),
        forall|i: int|
            0 <= i < attribute_fields(ns, node).unwrap().len() ==> (#[trigger] attribute_fields(
                ns,
                node,
            ).unwrap()[i]).source == FieldSource::Attribute,
{
    fields_keep_declared_names(ns, node, Pick::Attributes, node.children@.len());
}

/// Isolation of nested scopes: a field that owns nested types refers to its
/// type through the scope of its owner, so under two different owners the
/// same type name gives two different references.
pub proof fn nested_types_are_scoped(f: FieldView, a: Seq<char>, b: Seq<char>)
    requires
        f.subtypes.len() > 0,
        a != b,
    ensures
        scoped_type(f, a) != scoped_type(f, b),
{
    let x = scoped_type(f, a);
    let y = scoped_type(f, b);
    if x == y {
        assert(x.len() == a.len() + "::"@.len() + f.type_ref.len());
        assert(y.len() == b.len() + "::"@.len() + f.type_ref.len());
        assert(a.len() == b.len());
        assert forall|i: int| 0 <= i < a.len() implies a[i] == b[i] by {
            assert(x[i] == a[i]);
            assert(y[i] == b[i]);
        }
        assert(a =~= b);
    }
}

/// A colon in a name puts the start of the name's last segment behind it.
pub proof fn last_segment_starts_behind_colons(t: Seq<char>, i: int)
    requires
        0 <= i < t.len(),
        t[i] == ':',
    ensures
        i < local_start(t) <= t.len(),
    decreases t.len(),
{
    if t.last() != ':' {
        last_segment_starts_behind_colons(t.drop_last(), i);
    }
}

/// The scalar types of the target hold no colon.
pub proof fn scalars_hold_no_colon(t: Seq<char>, i: int)
    requires
        is_scalar(t),
        0 <= i < t.len(),
    ensures
        t[i] != ':',
{
    reveal_strlit("String");
    reveal_strlit("usize");
    reveal_strlit("i64");
    reveal_strlit("f64");
    reveal_strlit("bool");
}

/// Nested types are referred to through their owner: the written type of a
/// field that owns nested types begins with the owner's scope and the path
/// separator, whatever the casing does to the name behind them.
pub proof fn owned_types_are_written_in_scope(f: FieldView, scope: Seq<char>)
    requires
        f.subtypes.len() > 0,
    ensures
        type_ident(scoped_type(f, scope)).len() >= scope.len() + 2,
        type_ident(scoped_type(f, scope)).subrange(0, scope.len() as int + 2) == scope + seq![':', ':'],
{
    reveal_strlit("::");
    let x = scoped_type(f, scope);
    let k = scope.len() as int;
    assert(x[k] == ':');
    assert(x[k + 1] == ':');
    if is_scalar(x) {
        scalars_hold_no_colon(x, k);
    }
    last_segment_starts_behind_colons(x, k + 1);
    assert(type_ident(x).subrange(0, k + 2) =~= scope + seq![':', ':']);
}

/// The name of an entity.
pub open spec fn entity_name(e: EntityView) -> Seq<char> {
    match e {
        EntityView::Struct(s) => s.name,
        EntityView::Enum(en) => en.name,
        EntityView::TupleStruct(t) => t.name,
        EntityView::Alias(a) => a.name,
        EntityView::Field(f) => f.name,
    }
}

/// A simple type is resolved under the name it is resolved for.
pub proof fn simple_type_keeps_its_name(ns: Option<Seq<char>>, node: Node, name: Seq<char>)
    requires
        resolved_simple(ns, node, name).is_ok(),
    ensures
        entity_name(resolved_simple(ns, node, name).unwrap()) == name,
{
}

/// A complex type is resolved to a struct of the name it is resolved for,
/// whatever its content.
pub proof fn complex_type_keeps_its_name(ns: Option<Seq<char>>, node: Node, name: Seq<char>)
    requires
        resolved_complex(ns, node, name).is_ok(),
    ensures
        resolved_complex(ns, node, name).unwrap() is Struct,
        entity_name(resolved_complex(ns, node, name).unwrap()) == name,
{
    node.last_of_is_a_child(Pick::TypeContent, node.children@.len());
    match node.last_child(Pick::TypeContent) {
        None => {},
        Some(c) => {
            content_is_struct_enum_or_field(ns, node.children@[c], node.tag@);
        },
    }
}

/// The content of a type resolves to a struct, to an enum or to a field.
pub proof fn content_is_struct_enum_or_field(ns: Option<Seq<char>>, node: Node, parent: Seq<char>)
    requires
        Pick::TypeContent.holds(kind_of(node.tag@, parent)),
        resolved_node(ns, node, parent).is_ok(),
    ensures
        resolved_node(ns, node, parent).unwrap() is Struct || resolved_node(
            ns,
            node,
            parent,
        ).unwrap() is Enum || resolved_node(ns, node, parent).unwrap() is Field,
{
    reveal_with_fuel(resolved_node, 2);
    let kind = kind_of(node.tag@, parent);
    if kind == ElementKind::Group {
        if parent == "schema"@ {
            node.last_of_is_a_child(Pick::ModelContent, node.children@.len());
        }
    } else if kind == ElementKind::SimpleContent || kind == ElementKind::ComplexContent {
        node.last_of_is_a_child(Pick::NotAnnotation, node.children@.len());
        let c = node.last_child(Pick::NotAnnotation).unwrap();
        let ext = node.children@[c];
        assert(resolved_content(ns, node) == resolved_extension(ns, ext, node.tag@));
        if node.child_kind(c) == ElementKind::Extension(ContentKind::ComplexContent) {
            ext.last_of_is_a_child(Pick::ExtensionContent, ext.children@.len());
        }
    }
}

/// Top-level names are kept: every entity that a schema declares carries the
/// name of its declaration. So declarations of pairwise distinct names give
/// entities of pairwise distinct names.
pub proof fn declarations_keep_their_names(ns: Option<Seq<char>>, schema: Node, n: nat)
    requires
        schema.tag@ == "schema"@,
        n <= schema.children@.len(),
        items_upto(ns, schema, n).is_ok(),
    ensures
        items_upto(ns, schema, n).unwrap().len() == n,
        forall|i: int|
            0 <= i < n ==> (match #[trigger] items_upto(ns, schema, n).unwrap()[i] {
                SchemaItemView::Declared(e) => schema.children@[i].name.is_some() && entity_name(e)
                    == schema.children@[i].name.unwrap()@,
                SchemaItemView::PassedThrough => !Pick::Declarations.holds(schema.child_kind(i)),
            }),
    decreases n,
{
    if n > 0 {
        declarations_keep_their_names(ns, schema, (n - 1) as nat);
        let child = schema.children@[n - 1];
        let kind = schema.child_kind(n - 1);
        if Pick::Declarations.holds(kind) {
            let e = resolved_node(ns, child, schema.tag@).unwrap();
            if kind == ElementKind::ComplexType {
                complex_type_keeps_its_name(ns, child, child.name.unwrap()@);
            } else if kind == ElementKind::SimpleType {
                simple_type_keeps_its_name(ns, child, child.name.unwrap()@);
            } else if kind == ElementKind::Group {
                child.last_of_is_a_child(Pick::ModelContent, child.children@.len());
                match child.last_child(Pick::ModelContent) {
                    Some(c) => {
                        if child.children@[c].children@.len() > 0 {
                            let inner = resolved_node(ns, child.children@[c], child.tag@).unwrap();
                            assert(inner is Struct || inner is Enum);
                        }
                    },
                    None => {},
                }
            }
            assert(child.name.is_some() && entity_name(e) == child.name.unwrap()@);
        }
    }
}

} // verus!
