use xsd_parser::generator::Generator;
use xsd_parser::model::{
    Entity, EnumSource, Field, FieldSource, Modifiers, SchemaItem, Struct,
};
use xsd_parser::node::{classify, ContentKind, ElementKind, Node, Pick, RestrictionKind};
use xsd_parser::text::split_words;
use xsd_parser::parser::complex_content::parse_complex_content;
use xsd_parser::parser::extension::{
    complex_content_extension, parse_extension, simple_content_extension,
};
use xsd_parser::parser::group::parse_group;
use xsd_parser::parser::{attribute_groups_to_aliases, attributes_to_fields, parse_node, sanitize};
use xsd_parser::resolver::ResolveError;

fn node(tag: &str, name: Option<&str>, children: Vec<Node>) -> Node {
    let mut n = Node::new(tag);
    n.name = name.map(|s| s.to_string());
    n.children = children;
    n
}

fn typed(tag: &str, name: &str, ty: &str) -> Node {
    let mut n = node(tag, Some(name), vec![]);
    n.type_ref = Some(ty.to_string());
    n
}

fn with_base(tag: &str, base: Option<&str>, children: Vec<Node>) -> Node {
    let mut n = node(tag, None, children);
    n.base = base.map(|s| s.to_string());
    n
}

fn facet(value: &str) -> Node {
    let mut n = Node::new("enumeration");
    n.value = Some(value.to_string());
    n
}

fn gen() -> Generator {
    Generator::new(Some("tns".to_string()))
}

fn as_struct(e: Entity) -> Struct {
    match e {
        Entity::Struct(s) => s,
        other => panic!("expected a struct, got {:?}", other),
    }
}

fn names(fields: &Vec<Field>) -> Vec<String> {
    fields.iter().map(|f| f.name.clone()).collect()
}

#[test]
fn classifies_known_tags() {
    assert_eq!(classify("schema", ""), ElementKind::Schema);
    assert_eq!(classify("complexType", "schema"), ElementKind::ComplexType);
    assert_eq!(classify("simpleType", "schema"), ElementKind::SimpleType);
    assert_eq!(classify("element", "sequence"), ElementKind::Element);
    assert_eq!(classify("attribute", "complexType"), ElementKind::Attribute);
    assert_eq!(classify("attributeGroup", "complexType"), ElementKind::AttributeGroup);
    assert_eq!(classify("group", "schema"), ElementKind::Group);
    assert_eq!(classify("sequence", "complexType"), ElementKind::Sequence);
    assert_eq!(classify("choice", "complexType"), ElementKind::Choice);
    assert_eq!(classify("all", "complexType"), ElementKind::All);
    assert_eq!(classify("union", "simpleType"), ElementKind::Union);
    assert_eq!(classify("list", "simpleType"), ElementKind::List);
    assert_eq!(classify("enumeration", "restriction"), ElementKind::Enumeration);
    assert_eq!(classify("annotation", "element"), ElementKind::Annotation);
    assert_eq!(classify("documentation", "annotation"), ElementKind::Documentation);
}

#[test]
fn classifies_by_parent() {
    assert_eq!(
        classify("extension", "simpleContent"),
        ElementKind::Extension(ContentKind::SimpleContent)
    );
    assert_eq!(
        classify("extension", "complexContent"),
        ElementKind::Extension(ContentKind::ComplexContent)
    );
    assert_eq!(
        classify("restriction", "simpleType"),
        ElementKind::Restriction(RestrictionKind::ValueFacet)
    );
    assert_eq!(
        classify("restriction", "complexContent"),
        ElementKind::Restriction(RestrictionKind::ComplexContent)
    );
    assert_eq!(
        classify("restriction", "simpleContent"),
        ElementKind::Restriction(RestrictionKind::SimpleContent)
    );
    assert_eq!(classify("extension", "schema"), ElementKind::Unknown);
}

#[test]
fn unknown_tag_is_passed_through() {
    assert_eq!(classify("notation", "schema"), ElementKind::Unknown);
    assert_eq!(classify("", ""), ElementKind::Unknown);
}

#[test]
fn match_type_maps_built_ins() {
    let g = gen();
    assert_eq!(g.match_type("xs:string"), "String");
    assert_eq!(g.match_type("xs:NCName"), "String");
    assert_eq!(g.match_type("xs:unsignedInt"), "usize");
    assert_eq!(g.match_type("xs:int"), "i64");
    assert_eq!(g.match_type("xs:float"), "f64");
    assert_eq!(g.match_type("xs:boolean"), "bool");
}

#[test]
fn match_type_strips_the_target_namespace() {
    assert_eq!(gen().match_type("tns:FooType"), "FooType");
    assert_eq!(gen().match_type("tns:"), "");
}

#[test]
fn match_type_qualifies_foreign_names() {
    assert_eq!(gen().match_type("tt:Vector"), "tt::Vector");
    assert_eq!(gen().match_type("tnsx:Vector"), "tnsx::Vector");
    assert_eq!(gen().match_type("tns"), "tns");
    assert_eq!(gen().match_type("Plain"), "Plain");
    assert_eq!(Generator::new(None).match_type("tns:FooType"), "tns::FooType");
}

#[test]
fn sanitize_gives_identifiers() {
    assert_eq!(sanitize("Up"), "Up");
    assert_eq!(sanitize("left-turn"), "LeftTurn");
    assert_eq!(sanitize("1st"), "_1St");
    assert_eq!(sanitize(""), "_");
}

#[test]
fn words_are_split_at_white_space() {
    assert_eq!(split_words("xs:int  tns:Foo\n\tbar "), vec!["xs:int", "tns:Foo", "bar"]);
    assert_eq!(split_words("one"), vec!["one"]);
    assert_eq!(split_words("  "), Vec::<String>::new());
    assert_eq!(split_words(""), Vec::<String>::new());
}

#[test]
fn union_without_member_types_has_no_cases() {
    let n = node("simpleType", Some("Nothing"), vec![Node::new("union")]);
    match gen().simple_type(&n).unwrap() {
        Entity::Enum(e) => {
            assert_eq!(e.source, EnumSource::Union);
            assert!(e.cases.is_empty());
            assert_eq!(e.first_match(&vec![]), None);
        }
        other => panic!("expected an enum, got {:?}", other),
    }
}

#[test]
fn find_last_takes_the_last_match() {
    let n = node(
        "complexType",
        Some("T"),
        vec![
            typed("attribute", "a", "xs:string"),
            node("sequence", None, vec![]),
            typed("attribute", "b", "xs:string"),
        ],
    );
    assert_eq!(n.find_last(Pick::Attributes), Some(2));
    assert_eq!(n.find_last(Pick::TypeContent), Some(1));
    assert_eq!(n.find_last(Pick::Facets), None);
    assert!(n.has_any(Pick::Attributes));
    assert!(!n.has_any(Pick::Annotations));
}

#[test]
fn documentation_is_read_from_the_annotation() {
    let mut doc = Node::new("documentation");
    doc.text = Some("A thing.".to_string());
    let n = node("complexType", Some("T"), vec![node("annotation", None, vec![doc])]);
    assert_eq!(n.get_documentation(), Some("A thing.".to_string()));
    assert_eq!(node("complexType", Some("T"), vec![]).get_documentation(), None);
}

#[test]
fn field_order_is_attributes_then_elements() {
    let n = node(
        "complexType",
        Some("T"),
        vec![
            typed("attribute", "A", "xs:string"),
            node(
                "sequence",
                None,
                vec![typed("element", "X", "xs:int"), typed("element", "Y", "tns:Other")],
            ),
            typed("attribute", "B", "xs:boolean"),
        ],
    );
    let s = as_struct(gen().complex_type(&n).unwrap());
    assert_eq!(s.name, "T");
    assert_eq!(names(&s.fields), vec!["A", "B", "X", "Y"]);
    assert_eq!(s.fields[0].source, FieldSource::Attribute);
    assert_eq!(s.fields[1].source, FieldSource::Attribute);
    assert_eq!(s.fields[2].source, FieldSource::Element);
    assert_eq!(s.fields[3].source, FieldSource::Element);
    assert_eq!(s.fields[0].type_ref, "String");
    assert_eq!(s.fields[1].type_ref, "bool");
    assert_eq!(s.fields[2].type_ref, "i64");
    assert_eq!(s.fields[3].type_ref, "Other");
}

#[test]
fn field_modifiers_follow_occurrence_and_use() {
    let mut required = typed("attribute", "r", "xs:string");
    required.usage = Some("required".to_string());
    let mut prohibited = typed("attribute", "p", "xs:string");
    prohibited.usage = Some("prohibited".to_string());
    let mut optional = typed("element", "o", "xs:string");
    optional.min_occurs = Some("0".to_string());
    let mut many = typed("element", "m", "xs:string");
    many.max_occurs = Some("unbounded".to_string());
    let mut once = typed("element", "e", "xs:string");
    once.max_occurs = Some("1".to_string());
    let n = node(
        "complexType",
        Some("T"),
        vec![required, prohibited, node("sequence", None, vec![optional, many, once])],
    );
    let s = as_struct(gen().complex_type(&n).unwrap());
    let none = Modifiers { optional: false, repeated: false, suppressed: false };
    assert_eq!(s.fields[0].modifiers, none);
    assert_eq!(s.fields[1].modifiers, Modifiers { optional: true, repeated: false, suppressed: true });
    assert_eq!(s.fields[2].modifiers, Modifiers { optional: true, repeated: false, suppressed: false });
    assert_eq!(s.fields[3].modifiers, Modifiers { optional: false, repeated: true, suppressed: false });
    assert_eq!(s.fields[4].modifiers, none);
}

#[test]
fn simple_content_extension_composes_the_base() {
    let ext = with_base("extension", Some("xs:string"), vec![typed("attribute", "A", "xs:int")]);
    let n = node("complexType", Some("Named"), vec![node("simpleContent", None, vec![ext])]);
    let s = as_struct(gen().complex_type(&n).unwrap());
    assert_eq!(s.name, "Named");
    assert_eq!(s.fields.len(), 2);
    assert_eq!(s.fields[0].name, "A");
    assert_eq!(s.fields[0].source, FieldSource::Attribute);
    assert_eq!(s.fields[1].name, "base");
    assert_eq!(s.fields[1].type_ref, "String");
    assert_eq!(s.fields[1].source, FieldSource::BaseTypeComposition);
}

#[test]
fn simple_content_extension_alone_is_nameless() {
    let ext = with_base("extension", Some("tns:T"), vec![typed("attribute", "A", "xs:int")]);
    let s = as_struct(simple_content_extension(&ext, &gen()).unwrap());
    assert_eq!(s.name, "");
    assert_eq!(names(&s.fields), vec!["A", "base"]);
    assert_eq!(s.fields[1].type_ref, "T");
}

#[test]
fn complex_content_extension_appends_to_its_content() {
    let ext = with_base(
        "extension",
        Some("tns:Base"),
        vec![
            node("sequence", None, vec![typed("element", "X", "xs:int")]),
            typed("attribute", "A", "xs:string"),
        ],
    );
    let s = as_struct(complex_content_extension(&ext, &gen()).unwrap());
    assert_eq!(names(&s.fields), vec!["X", "A", "base"]);
    assert_eq!(s.fields[2].type_ref, "Base");
    let n = node("complexType", Some("Derived"), vec![node("complexContent", None, vec![ext])]);
    let d = as_struct(gen().complex_type(&n).unwrap());
    assert_eq!(d.name, "Derived");
    assert_eq!(names(&d.fields), vec!["X", "A", "base"]);
}

#[test]
fn complex_content_extension_without_content() {
    let ext = with_base("extension", Some("tns:Base"), vec![]);
    let s = as_struct(complex_content_extension(&ext, &gen()).unwrap());
    assert_eq!(names(&s.fields), vec!["base"]);
}

#[test]
fn parse_extension_dispatches_on_the_parent() {
    let ext = with_base("extension", Some("xs:int"), vec![]);
    let simple = node("simpleContent", None, vec![]);
    let complex = node("complexContent", None, vec![]);
    let schema = node("schema", None, vec![]);
    assert!(parse_extension(&ext, &simple, &gen()).is_ok());
    assert!(parse_extension(&ext, &complex, &gen()).is_ok());
    assert!(parse_node(&ext, &simple, &gen()).is_ok());
    assert_eq!(parse_node(&ext, &schema, &gen()).unwrap_err(), ResolveError::UnexpectedNode);
}

#[test]
fn extension_without_base_is_fatal() {
    let ext = with_base("extension", None, vec![]);
    let simple = node("simpleContent", None, vec![]);
    let complex = node("complexContent", None, vec![]);
    assert_eq!(parse_node(&ext, &simple, &gen()).unwrap_err(), ResolveError::MissingBase);
    assert_eq!(parse_node(&ext, &complex, &gen()).unwrap_err(), ResolveError::MissingBase);
    let holder = node("complexType", Some("T"), vec![]);
    let content = node("simpleContent", None, vec![with_base("extension", None, vec![])]);
    assert_eq!(parse_node(&content, &holder, &gen()).unwrap_err(), ResolveError::MissingBase);
    let n = node(
        "complexType",
        Some("T"),
        vec![node("complexContent", None, vec![with_base("extension", None, vec![])])],
    );
    assert_eq!(gen().complex_type(&n).unwrap_err(), ResolveError::MissingBase);
}

#[test]
fn restriction_of_complex_content_is_fatal() {
    let content = node(
        "complexContent",
        None,
        vec![with_base("restriction", Some("tns:Base"), vec![])],
    );
    let holder = node("complexType", Some("T"), vec![]);
    assert_eq!(
        parse_node(&content, &holder, &gen()).unwrap_err(),
        ResolveError::UnsupportedRestriction
    );
    let n = node("complexType", Some("T"), vec![content]);
    assert_eq!(gen().complex_type(&n).unwrap_err(), ResolveError::UnsupportedRestriction);
}

#[test]
fn empty_content_wrapper_is_fatal() {
    let holder = node("complexType", Some("T"), vec![]);
    let content = node("complexContent", None, vec![node("annotation", None, vec![])]);
    assert_eq!(parse_node(&content, &holder, &gen()).unwrap_err(), ResolveError::MissingContent);
    let odd = node("complexContent", None, vec![node("sequence", None, vec![])]);
    assert_eq!(parse_node(&odd, &holder, &gen()).unwrap_err(), ResolveError::UnexpectedNode);
}

#[test]
fn content_wrapper_gives_what_its_extension_gives() {
    let ext = with_base("extension", Some("xs:string"), vec![typed("attribute", "A", "xs:int")]);
    let content = node("simpleContent", None, vec![node("annotation", None, vec![]), ext]);
    let s = as_struct(parse_complex_content(&content, &gen()).unwrap());
    assert_eq!(names(&s.fields), vec!["A", "base"]);
}

#[test]
fn nameless_top_level_types_are_fatal() {
    let schema = node("schema", None, vec![]);
    assert_eq!(
        parse_node(&node("complexType", None, vec![]), &schema, &gen()).unwrap_err(),
        ResolveError::MissingName
    );
    assert_eq!(
        parse_node(&node("simpleType", None, vec![]), &schema, &gen()).unwrap_err(),
        ResolveError::MissingName
    );
    assert_eq!(
        parse_node(&node("group", None, vec![]), &schema, &gen()).unwrap_err(),
        ResolveError::MissingName
    );
    let nameless = node("attribute", None, vec![]);
    let holder = node("complexType", Some("T"), vec![nameless]);
    assert_eq!(attributes_to_fields(&gen(), &holder).unwrap_err(), ResolveError::MissingName);
}

#[test]
fn enumeration_keeps_count_order_and_literals() {
    let n = node(
        "simpleType",
        Some("Direction"),
        vec![with_base(
            "restriction",
            Some("xs:string"),
            vec![facet("Up"), facet("Down"), facet("Left")],
        )],
    );
    match gen().simple_type(&n).unwrap() {
        Entity::Enum(e) => {
            assert_eq!(e.name, "Direction");
            assert_eq!(e.type_ref, "String");
            assert_eq!(e.source, EnumSource::Enumeration);
            assert_eq!(e.cases.len(), 3);
            assert_eq!(e.cases[0].name, "Up");
            assert_eq!(e.cases[1].name, "Down");
            assert_eq!(e.cases[2].name, "Left");
            assert_eq!(e.cases[0].value, "Up");
            assert_eq!(e.cases[1].value, "Down");
            assert_eq!(e.cases[2].value, "Left");
        }
        other => panic!("expected an enum, got {:?}", other),
    }
}

#[test]
fn restriction_without_facets_is_a_newtype() {
    let n = node(
        "simpleType",
        Some("Id"),
        vec![with_base("restriction", Some("xs:unsignedInt"), vec![])],
    );
    match gen().simple_type(&n).unwrap() {
        Entity::TupleStruct(t) => {
            assert_eq!(t.name, "Id");
            assert_eq!(t.type_ref, "usize");
            assert_eq!(t.modifiers, Modifiers { optional: false, repeated: false, suppressed: false });
        }
        other => panic!("expected a newtype, got {:?}", other),
    }
}

#[test]
fn restriction_without_base_is_fatal() {
    let n = node("simpleType", Some("Id"), vec![with_base("restriction", None, vec![])]);
    assert_eq!(gen().simple_type(&n).unwrap_err(), ResolveError::MissingBase);
}

#[test]
fn list_is_a_newtype_over_repeated_items() {
    let mut list = Node::new("list");
    list.item_type = Some("xs:int".to_string());
    let n = node("simpleType", Some("Numbers"), vec![list]);
    match gen().simple_type(&n).unwrap() {
        Entity::TupleStruct(t) => {
            assert_eq!(t.name, "Numbers");
            assert_eq!(t.type_ref, "i64");
            assert_eq!(t.modifiers, Modifiers { optional: false, repeated: true, suppressed: false });
        }
        other => panic!("expected a newtype, got {:?}", other),
    }
}

#[test]
fn list_with_nested_item_type_is_fatal() {
    let schema = node("schema", None, vec![]);
    let list = node("list", None, vec![node("simpleType", None, vec![])]);
    let n = node("simpleType", Some("Numbers"), vec![list]);
    assert_eq!(parse_node(&n, &schema, &gen()).unwrap_err(), ResolveError::NestedSimpleType);
}

#[test]
fn union_with_inline_member_is_not_supported() {
    let mut union = node("union", None, vec![node("simpleType", None, vec![])]);
    union.member_types = Some("xs:int".to_string());
    let n = node("simpleType", Some("Mixed"), vec![union]);
    assert_eq!(gen().simple_type(&n).unwrap_err(), ResolveError::NestedSimpleType);
}

#[test]
fn simple_type_without_known_content_is_fatal() {
    let schema = node("schema", None, vec![]);
    let n = node("simpleType", Some("Odd"), vec![]);
    assert_eq!(parse_node(&n, &schema, &gen()).unwrap_err(), ResolveError::UnsupportedSimpleType);
    let m = node("simpleType", Some("Odd"), vec![node("sequence", None, vec![])]);
    assert_eq!(parse_node(&m, &schema, &gen()).unwrap_err(), ResolveError::UnsupportedSimpleType);
}

#[test]
fn union_cases_keep_declared_order_and_first_match_wins() {
    let mut union = Node::new("union");
    union.member_types = Some("xs:int  xs:boolean".to_string());
    let n = node("simpleType", Some("IntOrBool"), vec![union]);
    match gen().simple_type(&n).unwrap() {
        Entity::Enum(e) => {
            assert_eq!(e.source, EnumSource::Union);
            assert_eq!(e.cases.len(), 2);
            assert_eq!(e.cases[0].name, "I64");
            assert_eq!(e.cases[0].value, "i64");
            assert_eq!(e.cases[1].name, "Bool");
            assert_eq!(e.cases[1].value, "bool");
            assert_eq!(e.first_match(&vec![true, true]), Some(0));
            assert_eq!(e.first_match(&vec![false, true]), Some(1));
            assert_eq!(e.first_match(&vec![true, false]), Some(0));
            assert_eq!(e.first_match(&vec![false, false]), None);
        }
        other => panic!("expected an enum, got {:?}", other),
    }
}

#[test]
fn empty_group_has_only_its_attributes() {
    let schema = node("schema", None, vec![]);
    let g = node(
        "group",
        Some("Pair"),
        vec![typed("attribute", "left", "xs:int"), typed("attribute", "right", "xs:int")],
    );
    let s = as_struct(parse_group(&g, &schema, &gen()).unwrap());
    assert_eq!(s.name, "Pair");
    assert_eq!(names(&s.fields), vec!["left", "right"]);
    assert!(s.fields.iter().all(|f| f.source == FieldSource::Attribute));
    assert!(s.fields.iter().all(|f| f.subtypes.is_empty()));
    assert!(s.subtypes.is_empty());
}

#[test]
fn group_with_empty_content_model_has_only_its_attributes() {
    let schema = node("schema", None, vec![]);
    let g = node(
        "group",
        Some("Pair"),
        vec![
            typed("attribute", "left", "xs:int"),
            node("choice", None, vec![]),
            typed("attribute", "right", "xs:int"),
        ],
    );
    let s = as_struct(parse_group(&g, &schema, &gen()).unwrap());
    assert_eq!(names(&s.fields), vec!["left", "right"]);
    assert!(s.fields.iter().all(|f| f.source != FieldSource::ChoiceGroup));
}

#[test]
fn group_with_sequence_is_a_struct() {
    let schema = node("schema", None, vec![]);
    let g = node(
        "group",
        Some("G"),
        vec![
            node("sequence", None, vec![typed("element", "X", "xs:int")]),
            typed("attribute", "a", "xs:int"),
        ],
    );
    let s = as_struct(parse_group(&g, &schema, &gen()).unwrap());
    assert_eq!(s.name, "G");
    assert_eq!(names(&s.fields), vec!["a", "X"]);
}

#[test]
fn group_with_choice_stays_a_struct() {
    let schema = node("schema", None, vec![]);
    let g = node(
        "group",
        Some("Shape"),
        vec![
            typed("attribute", "id", "xs:int"),
            node(
                "choice",
                None,
                vec![typed("element", "circle", "tns:Circle"), typed("element", "square", "xs:int")],
            ),
        ],
    );
    let s = as_struct(parse_group(&g, &schema, &gen()).unwrap());
    assert_eq!(s.name, "Shape");
    assert_eq!(names(&s.fields), vec!["id", "ShapeChoice"]);
    let f = &s.fields[1];
    assert_eq!(f.source, FieldSource::ChoiceGroup);
    assert_eq!(f.type_ref, "ShapeChoice");
    assert_eq!(f.subtypes.len(), 1);
    match &f.subtypes[0] {
        Entity::Enum(e) => {
            assert_eq!(e.name, "ShapeChoice");
            assert_eq!(e.source, EnumSource::Choice);
            assert_eq!(e.cases.len(), 2);
            assert_eq!(e.cases[0].name, "Circle");
            assert_eq!(e.cases[0].value, "Circle");
            assert_eq!(e.cases[1].name, "Square");
            assert_eq!(e.cases[1].value, "i64");
        }
        other => panic!("expected an enum, got {:?}", other),
    }
}

#[test]
fn inner_group_is_a_reference() {
    let holder = node("sequence", None, vec![]);
    let mut g = Node::new("group");
    g.reference = Some("tns:Common".to_string());
    match parse_group(&g, &holder, &gen()).unwrap() {
        Entity::Field(f) => {
            assert_eq!(f.name, "base");
            assert_eq!(f.type_ref, "Common");
            assert_eq!(f.source, FieldSource::BaseTypeComposition);
        }
        other => panic!("expected a field, got {:?}", other),
    }
    assert_eq!(
        parse_node(&Node::new("group"), &holder, &gen()).unwrap_err(),
        ResolveError::MissingReference
    );
}

#[test]
fn attribute_groups_become_aliases() {
    let mut r = Node::new("attributeGroup");
    r.reference = Some("tns:Common".to_string());
    let n = node("complexType", Some("T"), vec![r, typed("attribute", "a", "xs:int")]);
    let aliases = attribute_groups_to_aliases(&gen(), &n);
    assert_eq!(aliases.len(), 1);
    assert_eq!(aliases[0].name, "Common");
    assert_eq!(aliases[0].original, "Common");
    let s = as_struct(gen().complex_type(&n).unwrap());
    assert_eq!(s.attribute_groups.len(), 1);
    assert_eq!(names(&s.fields), vec!["a"]);
}

#[test]
fn inline_type_is_owned_by_its_field() {
    let inner = node("complexType", None, vec![typed("attribute", "b", "xs:string")]);
    let n = node(
        "complexType",
        Some("FooType"),
        vec![node("sequence", None, vec![node("element", Some("Bar"), vec![inner])])],
    );
    let s = as_struct(gen().complex_type(&n).unwrap());
    assert!(s.subtypes.is_empty());
    assert_eq!(s.fields.len(), 1);
    assert_eq!(s.fields[0].name, "Bar");
    assert_eq!(s.fields[0].type_ref, "BarType");
    assert_eq!(s.fields[0].subtypes.len(), 1);
    match &s.fields[0].subtypes[0] {
        Entity::Struct(b) => {
            assert_eq!(b.name, "BarType");
            assert_eq!(names(&b.fields), vec!["b"]);
        }
        other => panic!("expected a struct, got {:?}", other),
    }
}

#[test]
fn untyped_field_is_text() {
    let n = node(
        "complexType",
        Some("T"),
        vec![node("sequence", None, vec![node("element", Some("x"), vec![])])],
    );
    let s = as_struct(gen().complex_type(&n).unwrap());
    assert_eq!(s.fields[0].type_ref, "String");
    assert!(s.fields[0].subtypes.is_empty());
}

#[test]
fn parse_node_rejects_what_it_does_not_resolve() {
    let schema = node("schema", None, vec![]);
    assert_eq!(
        parse_node(&Node::new("notation"), &schema, &gen()).unwrap_err(),
        ResolveError::UnexpectedNode
    );
    let content = node("complexContent", None, vec![]);
    assert_eq!(
        parse_node(&with_base("restriction", Some("tns:B"), vec![]), &content, &gen()).unwrap_err(),
        ResolveError::UnsupportedRestriction
    );
}

#[test]
fn parse_node_resolves_a_lone_element() {
    let holder = node("sequence", None, vec![]);
    match parse_node(&typed("element", "X", "xs:int"), &holder, &gen()).unwrap() {
        Entity::Field(f) => {
            assert_eq!(f.name, "X");
            assert_eq!(f.type_ref, "i64");
        }
        other => panic!("expected a field, got {:?}", other),
    }
}

#[test]
fn declaration_and_reference_are_told_apart() {
    let schema = node("schema", None, vec![]);
    let declared = node("group", Some("G"), vec![]);
    let mut referring = Node::new("group");
    referring.reference = Some("tns:G".to_string());
    assert!(!declared.is_reference());
    assert!(referring.is_reference());
    assert_eq!(declared.kind(&schema), ElementKind::Group);
    assert_eq!(Node::new("extension").kind(&schema), ElementKind::Unknown);
}

#[test]
fn attribute_group_is_declared_or_referred_to() {
    let schema = node("schema", None, vec![]);
    let declared = node(
        "attributeGroup",
        Some("Common"),
        vec![typed("attribute", "id", "xs:int"), typed("attribute", "lang", "xs:string")],
    );
    let s = as_struct(parse_node(&declared, &schema, &gen()).unwrap());
    assert_eq!(s.name, "Common");
    assert_eq!(names(&s.fields), vec!["id", "lang"]);
    assert_eq!(
        parse_node(&node("attributeGroup", None, vec![]), &schema, &gen()).unwrap_err(),
        ResolveError::MissingName
    );
    let holder = node("complexType", Some("T"), vec![]);
    let mut referring = Node::new("attributeGroup");
    referring.reference = Some("tt:Common".to_string());
    match parse_node(&referring, &holder, &gen()).unwrap() {
        Entity::Alias(a) => {
            assert_eq!(a.name, "tt::Common");
            assert_eq!(a.original, "tt::Common");
        }
        other => panic!("expected an alias, got {:?}", other),
    }
    assert_eq!(
        parse_node(&Node::new("attributeGroup"), &holder, &gen()).unwrap_err(),
        ResolveError::MissingReference
    );
}

#[test]
fn schema_is_resolved_in_document_order() {
    let mut union = Node::new("union");
    union.member_types = Some("xs:int xs:boolean".to_string());
    let schema = node(
        "schema",
        None,
        vec![
            node("annotation", None, vec![]),
            node("simpleType", Some("IntOrBool"), vec![union]),
            typed("element", "root", "tns:T"),
            node("complexType", Some("T"), vec![typed("attribute", "a", "xs:int")]),
            node("notation", None, vec![]),
            node("group", Some("G"), vec![]),
        ],
    );
    let items = gen().resolve_schema(&schema).unwrap();
    assert_eq!(items.len(), 6);
    assert!(matches!(&items[0], SchemaItem::PassedThrough));
    assert!(matches!(&items[1], SchemaItem::Declared(Entity::Enum(e)) if e.name == "IntOrBool"));
    assert!(matches!(&items[2], SchemaItem::PassedThrough));
    assert!(matches!(&items[3], SchemaItem::Declared(Entity::Struct(s)) if s.name == "T"));
    assert!(matches!(&items[4], SchemaItem::PassedThrough));
    assert!(matches!(&items[5], SchemaItem::Declared(Entity::Struct(s)) if s.name == "G"));
}

#[test]
fn extension_keeps_a_choice_as_one_field() {
    let ext = with_base(
        "extension",
        Some("tns:Base"),
        vec![
            typed("attribute", "A", "xs:string"),
            node(
                "choice",
                None,
                vec![typed("element", "circle", "tns:Circle"), typed("element", "square", "xs:int")],
            ),
        ],
    );
    let s = as_struct(complex_content_extension(&ext, &gen()).unwrap());
    assert_eq!(names(&s.fields), vec!["A", "base", "Choice"]);
    assert_eq!(s.fields[1].source, FieldSource::BaseTypeComposition);
    let f = &s.fields[2];
    assert_eq!(f.source, FieldSource::ChoiceGroup);
    assert_eq!(f.type_ref, "Choice");
    assert_eq!(f.subtypes.len(), 1);
    match &f.subtypes[0] {
        Entity::Enum(e) => {
            assert_eq!(e.name, "Choice");
            assert_eq!(e.cases.len(), 2);
            assert_eq!(e.cases[0].name, "Circle");
            assert_eq!(e.cases[1].name, "Square");
        }
        other => panic!("expected an enum, got {:?}", other),
    }
    let n = node("complexType", Some("Shape"), vec![node("complexContent", None, vec![ext])]);
    let d = as_struct(gen().complex_type(&n).unwrap());
    assert_eq!(d.name, "Shape");
    assert_eq!(names(&d.fields), vec!["A", "base", "Choice"]);
}

#[test]
fn extension_keeps_a_group_reference_as_a_field() {
    let mut g = Node::new("group");
    g.reference = Some("tns:Common".to_string());
    let ext = with_base("extension", Some("tns:Base"), vec![g]);
    let s = as_struct(complex_content_extension(&ext, &gen()).unwrap());
    assert_eq!(names(&s.fields), vec!["base", "base"]);
    assert_eq!(s.fields[0].type_ref, "Base");
    assert_eq!(s.fields[1].type_ref, "Common");
    assert_eq!(s.fields[1].source, FieldSource::BaseTypeComposition);
}

#[test]
fn first_failing_declaration_ends_the_run() {
    let schema = node(
        "schema",
        None,
        vec![
            node("complexType", Some("T"), vec![]),
            node("simpleType", Some("Odd"), vec![]),
            node("complexType", None, vec![]),
        ],
    );
    assert_eq!(gen().resolve_schema(&schema).unwrap_err(), ResolveError::UnsupportedSimpleType);
    assert!(gen().resolve_schema(&node("schema", None, vec![])).unwrap().is_empty());
}

#[test]
fn distinct_declarations_stay_distinct() {
    let n = node(
        "complexType",
        Some("T"),
        vec![
            typed("attribute", "fooBar", "xs:string"),
            typed("attribute", "other", "xs:string"),
            node(
                "sequence",
                None,
                vec![typed("element", "item", "xs:int"), typed("element", "Item2", "xs:int")],
            ),
        ],
    );
    let s = as_struct(gen().complex_type(&n).unwrap());
    let written: Vec<String> = s.fields.iter().map(|f| gen().format_name(&f.name)).collect();
    assert_eq!(written, vec!["foo_bar", "other", "item", "item_2"]);
    for i in 0..written.len() {
        for j in 0..i {
            assert_ne!(written[i], written[j]);
        }
    }
}
