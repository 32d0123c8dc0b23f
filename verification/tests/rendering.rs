use xsd_parser::generator::alias::{AliasGenerator, DefaultAliasGen};
use xsd_parser::generator::enumeration::{DefaultEnumGen, EnumGenerator};
use xsd_parser::generator::struct_field::{DefaultStructFieldGen, StructFieldGenerator};
use xsd_parser::generator::structure::{DefaultStructGen, StructGenerator};
use xsd_parser::generator::tuple_struct::{DefaultTupleStructGen, TupleStructGenerator};
use xsd_parser::generator::renderer::{default_renderer, Renderer};
use xsd_parser::generator::Generator;
use xsd_parser::model::{
    Alias, Case, Entity, Enum, EnumSource, Field, FieldSource, Modifiers, Struct, TupleStruct,
};
use xsd_parser::node::Node;
use xsd_parser::text::{is_qualified_by, same_text, to_scope_path, to_single_line};

const NONE: Modifiers = Modifiers { optional: false, repeated: false, suppressed: false };

fn gen() -> Generator {
    Generator::new(Some("tns".to_string()))
}

fn field(name: &str, ty: &str, source: FieldSource, modifiers: Modifiers) -> Field {
    Field {
        name: name.to_string(),
        type_ref: ty.to_string(),
        modifiers,
        source,
        subtypes: vec![],
        comment: None,
    }
}

fn plain_struct(name: &str, fields: Vec<Field>) -> Struct {
    Struct {
        name: name.to_string(),
        fields,
        subtypes: vec![],
        attribute_groups: vec![],
        comment: None,
    }
}

fn outer_with_inline_bar(outer: &str, attribute: &str) -> Node {
    let mut a = Node::new("attribute");
    a.name = Some(attribute.to_string());
    a.type_ref = Some("xs:string".to_string());
    let mut inner = Node::new("complexType");
    inner.children = vec![a];
    let mut el = Node::new("element");
    el.name = Some("Bar".to_string());
    el.children = vec![inner];
    let mut seq = Node::new("sequence");
    seq.children = vec![el];
    let mut n = Node::new("complexType");
    n.name = Some(outer.to_string());
    n.children = vec![seq];
    n
}

#[test]
fn text_helpers() {
    assert!(same_text("abc", "abc"));
    assert!(!same_text("abc", "abd"));
    assert_eq!(to_scope_path("a:b:c"), "a::b::c");
    assert_eq!(to_scope_path(""), "");
    assert_eq!(to_single_line("a\nb\r\nc"), "a b  c");
    assert!(is_qualified_by("tns:Foo", "tns"));
    assert!(!is_qualified_by("tns", "tns"));
    assert!(!is_qualified_by("tnsFoo", "tns"));
    assert!(!is_qualified_by("xs:Foo", "tns"));
    assert!(is_qualified_by(":Foo", ""));
}

#[test]
fn names_are_cased_by_kind() {
    let g = gen();
    assert_eq!(g.format_name("FooBar"), "foo_bar");
    assert_eq!(g.mod_name("FooType"), "foo_type");
    assert_eq!(g.format_type_name("foo_bar"), "FooBar");
    assert_eq!(g.format_type_name("FooType"), "FooType");
    assert_eq!(g.format_type_name("foo_type::bar_type"), "foo_type::BarType");
    assert_eq!(g.format_type_name("i64"), "i64");
    assert_eq!(g.format_type_name("bool"), "bool");
    assert_eq!(g.format_type_name("usize"), "usize");
    assert_eq!(g.format_type_name("f64"), "f64");
    assert_eq!(g.format_type_name("String"), "String");
}

#[test]
fn modifiers_wrap_the_type() {
    let g = gen();
    assert_eq!(g.modify_type("T", &NONE), "T");
    assert_eq!(
        g.modify_type("T", &Modifiers { optional: true, repeated: false, suppressed: false }),
        "Option<T>"
    );
    assert_eq!(
        g.modify_type("T", &Modifiers { optional: false, repeated: true, suppressed: false }),
        "Vec<T>"
    );
    assert_eq!(
        g.modify_type("T", &Modifiers { optional: true, repeated: true, suppressed: false }),
        "Vec<T>"
    );
}

#[test]
fn comments_take_one_line() {
    let g = gen();
    assert_eq!(g.format_comment(&None, "    "), "");
    assert_eq!(g.format_comment(&Some("a\nb".to_string()), "    "), "    // a b\n");
    assert_eq!(g.indent(), "    ");
}

#[test]
fn alias_text_is_exact() {
    let a = Alias {
        name: "MyId".to_string(),
        original: "String".to_string(),
        comment: Some("An id\nof sorts".to_string()),
    };
    assert_eq!(DefaultAliasGen.generate(&a, &gen()), "// An id of sorts\npub type MyId = String;\n");
    assert_eq!(gen().generate(&Entity::Alias(a)), "// An id of sorts\npub type MyId = String;\n");
}

#[test]
fn newtype_text_is_exact() {
    let t = TupleStruct {
        name: "Names".to_string(),
        type_ref: "String".to_string(),
        modifiers: Modifiers { optional: false, repeated: true, suppressed: false },
        subtypes: vec![],
        comment: None,
    };
    let expected = "#[derive(Debug, PartialEq, Clone, Serialize, Deserialize)]\n\
                    #[serde(transparent)]\n\
                    pub struct Names (pub Vec<String>);\n\n\n";
    assert_eq!(DefaultTupleStructGen.generate(&t, "", &gen()), expected);
    assert_eq!(DefaultTupleStructGen.get_type_name(&t, &gen()), "Vec<String>");
    assert_eq!(DefaultTupleStructGen.get_name(&t, &gen()), "Names");
}

#[test]
fn enumeration_text_is_exact() {
    let e = Enum {
        name: "Direction".to_string(),
        type_ref: "String".to_string(),
        cases: vec![
            Case { name: "Up".to_string(), value: "Up".to_string() },
            Case { name: "Down".to_string(), value: "Down".to_string() },
        ],
        subtypes: vec![],
        source: EnumSource::Enumeration,
        comment: None,
    };
    let expected = "#[derive(Debug, PartialEq, Eq, Clone, Serialize, Deserialize)]\n\
                    pub enum Direction {\n    \
                    #[serde(rename = \"Up\")]\n    Up,\n    \
                    #[serde(rename = \"Down\")]\n    Down,\n\
                    }\n\
                    impl Validate for Direction {}\n\n\n\n";
    assert_eq!(DefaultEnumGen.generate(&e, "", &gen()), expected);
    assert_eq!(DefaultEnumGen.get_type_name(&e, &gen()), "String");
}

#[test]
fn union_text_is_untagged_and_ordered() {
    let e = Enum {
        name: "IntOrBool".to_string(),
        type_ref: String::new(),
        cases: vec![
            Case { name: "I64".to_string(), value: "i64".to_string() },
            Case { name: "Bool".to_string(), value: "bool".to_string() },
        ],
        subtypes: vec![],
        source: EnumSource::Union,
        comment: None,
    };
    let text = DefaultEnumGen.generate(&e, "", &gen());
    assert!(text.contains("#[serde(untagged)]\npub enum IntOrBool {\n"));
    assert_eq!(DefaultEnumGen.cases(&e, &gen()), "    I64(i64),\n    Bool(bool),");
    let first = text.find("I64(i64)").unwrap();
    let second = text.find("Bool(bool)").unwrap();
    assert!(first < second);
}

#[test]
fn field_text_by_source() {
    let g = gen();
    let optional = Modifiers { optional: true, repeated: false, suppressed: false };
    let a = field("someId", "String", FieldSource::Attribute, optional);
    assert_eq!(
        DefaultStructFieldGen.generate(&a, "owner", &g),
        "    #[serde(rename = \"@someId\")]\n    pub some_id: Option<String>,"
    );
    let e = field("Bar", "tt::Vector", FieldSource::Element, NONE);
    assert_eq!(
        DefaultStructFieldGen.generate(&e, "owner", &g),
        "    #[serde(rename = \"Bar\")]\n    pub bar: tt::Vector,"
    );
    let c = field("ShapeChoice", "ShapeChoice", FieldSource::ChoiceGroup, NONE);
    assert_eq!(
        DefaultStructFieldGen.generate(&c, "", &g),
        "    #[serde(flatten)]\n    pub shape_choice: ShapeChoice,"
    );
    let b = field("base", "Other", FieldSource::BaseTypeComposition, NONE);
    assert_eq!(DefaultStructFieldGen.generate(&b, "owner", &g), "    pub base: Other,");
    let hidden = field(
        "gone",
        "String",
        FieldSource::Attribute,
        Modifiers { optional: true, repeated: false, suppressed: true },
    );
    assert_eq!(DefaultStructFieldGen.generate(&hidden, "owner", &g), "");
}

#[test]
fn struct_text_is_exact() {
    let s = plain_struct(
        "pair",
        vec![
            field("A", "i64", FieldSource::Attribute, NONE),
            field("X", "String", FieldSource::Element, NONE),
        ],
    );
    let expected = "#[derive(Debug, PartialEq, Eq, Default, Serialize, Deserialize)]\n\
                    #[serde(rename = \"pair\")]\n\
                    pub struct Pair {\n    \
                    #[serde(rename = \"@A\")]\n    pub a: i64,\n\n    \
                    #[serde(rename = \"X\")]\n    pub x: String,\n\
                    }\n\
                    impl Validate for Pair {}\n\n\n\n\n";
    let fields = default_renderer().fields(&s, &gen());
    assert_eq!(DefaultStructGen.generate(&s, &fields, "", "", &gen()), expected);
    assert_eq!(gen().generate(&Entity::Struct(s)), expected);
    let empty = plain_struct("Empty", vec![]);
    assert_eq!(DefaultStructGen.fields(&empty, "", &gen()), "");
    assert_eq!(DefaultStructGen.subtypes(&empty, "", "", &gen()), "\n");
    assert_eq!(DefaultStructGen.mod_name(&empty, &gen()), "empty");
    assert_eq!(DefaultStructGen.macros(&empty, &gen()), "#[derive(Debug, PartialEq, Eq, Default, Serialize, Deserialize)]\n");
}

#[test]
fn fields_are_rendered_in_model_order() {
    let s = plain_struct(
        "T",
        vec![
            field("zeta", "i64", FieldSource::Attribute, NONE),
            field("alpha", "i64", FieldSource::Attribute, NONE),
            field("mid", "i64", FieldSource::Element, NONE),
        ],
    );
    let text = default_renderer().fields(&s, &gen());
    let z = text.find("pub zeta").unwrap();
    let a = text.find("pub alpha").unwrap();
    let m = text.find("pub mid").unwrap();
    assert!(z < a && a < m);
}

#[test]
fn shift_moves_lines_that_are_not_empty() {
    assert_eq!(DefaultStructGen.shift("a\nb", "  "), "  \n  a\n  b");
    assert_eq!(DefaultStructGen.shift("a\n\n\nb\n", "  "), "  \n  a\n  b\n");
    assert_eq!(DefaultStructGen.shift("a\n\nb\n", "  "), "  \n  a\n\n  b\n");
    assert_eq!(DefaultStructGen.shift("", "  "), "  \n");
    assert_eq!(DefaultStructGen.shift("\nx", ">"), ">\n\n>x");
}

#[test]
fn runs_of_three_line_breaks_are_folded_from_the_front() {
    assert_eq!(DefaultStructGen.fold_breaks("a\n\n\nb"), "a\nb");
    assert_eq!(DefaultStructGen.fold_breaks("\n\n\n\n"), "\n\n");
    assert_eq!(DefaultStructGen.fold_breaks("\n\n\n\n\n\n"), "\n\n");
    assert_eq!(DefaultStructGen.fold_breaks("a\n\nb"), "a\n\nb");
    assert_eq!(DefaultStructGen.fold_breaks(""), "");
}

#[test]
fn struct_body_joins_the_fields_with_blank_lines() {
    let s = plain_struct(
        "T",
        vec![
            field("A", "i64", FieldSource::Attribute, NONE),
            field("B", "i64", FieldSource::Attribute, NONE),
            field(
                "gone",
                "i64",
                FieldSource::Attribute,
                Modifiers { optional: false, repeated: false, suppressed: true },
            ),
            field("X", "i64", FieldSource::Element, NONE),
            field("Y", "i64", FieldSource::Element, NONE),
        ],
    );
    let g = gen();
    let each: Vec<String> = [0usize, 1, 3, 4]
        .iter()
        .map(|i| DefaultStructFieldGen.generate(&s.fields[*i], "t", &g))
        .collect();
    let joined = default_renderer().fields(&s, &g);
    assert_eq!(joined, each.join("\n\n"));
    assert_eq!(DefaultStructGen.fields(&s, &joined, &g), format!("\n{}\n", each.join("\n\n")));
}

#[test]
fn nested_types_go_into_the_owner_scope() {
    let g = gen();
    let foo = g.complex_type(&outer_with_inline_bar("FooType", "b")).unwrap();
    let text = g.generate(&foo);
    let expected = [
        "#[derive(Debug, PartialEq, Eq, Default, Serialize, Deserialize)]\n",
        "pub struct FooType {\n",
        "    #[serde(rename = \"Bar\")]\n",
        "    pub bar: foo_type::BarType,\n",
        "}\n",
        "impl Validate for FooType {}\n",
        "\n",
        "\n",
        "pub mod foo_type {\n",
        "    use super::*;\n",
        "    \n",
        "    #[derive(Debug, PartialEq, Eq, Default, Serialize, Deserialize)]\n",
        "    pub struct BarType {\n",
        "        #[serde(rename = \"@b\")]\n",
        "        pub b: Option<String>,\n",
        "    }\n",
        "    impl Validate for BarType {}\n",
        "\n",
        "\n",
        "\n",
        "}\n",
        "\n\n",
    ]
    .concat();
    assert_eq!(text, expected);
}

#[test]
fn sibling_inline_types_of_one_name_are_isolated() {
    let g = gen();
    let foo = g.complex_type(&outer_with_inline_bar("FooType", "b")).unwrap();
    let baz = g.complex_type(&outer_with_inline_bar("BazType", "c")).unwrap();
    let foo_text = g.generate(&foo);
    let baz_text = g.generate(&baz);
    assert!(foo_text.contains("pub bar: foo_type::BarType,"));
    assert!(foo_text.contains("pub mod foo_type {"));
    assert!(foo_text.contains("pub b: Option<String>,"));
    assert!(!foo_text.contains("baz_type"));
    assert!(!foo_text.contains("pub c:"));
    assert!(baz_text.contains("pub bar: baz_type::BarType,"));
    assert!(baz_text.contains("pub mod baz_type {"));
    assert!(baz_text.contains("pub c: Option<String>,"));
    assert!(!baz_text.contains("foo_type"));
    assert!(!baz_text.contains("pub b:"));
    assert_eq!(foo_text.matches("pub struct BarType").count(), 1);
    assert_eq!(baz_text.matches("pub struct BarType").count(), 1);
}

#[test]
fn own_subtypes_come_before_those_of_fields() {
    let mut owner = plain_struct("Owner", vec![field("f", "Inner", FieldSource::Element, NONE)]);
    owner.fields[0].subtypes = vec![Entity::Alias(Alias {
        name: "Inner".to_string(),
        original: "String".to_string(),
        comment: None,
    })];
    owner.subtypes = vec![Entity::Alias(Alias {
        name: "Own".to_string(),
        original: "i64".to_string(),
        comment: None,
    })];
    let g = gen();
    let own = default_renderer().join_subtypes(&owner.subtypes, &g);
    let of_fields = default_renderer().field_subtypes(&owner, &g);
    assert_eq!(
        DefaultStructGen.subtypes(&owner, &own, &of_fields, &g),
        "\npub mod owner {\n    use super::*;pub type Own = i64;\n\n    \n    pub type Inner = String;\n\n}\n"
    );
    assert_eq!(of_fields, "pub type Inner = String;\n");
    assert!(g.generate(&Entity::Struct(plain_struct("Owner", vec![]))).ends_with("impl Validate for Owner {}\n\n\n\n\n"));
    assert_eq!(
        g.join_subtypes(&owner.subtypes),
        "pub type Own = i64;\n"
    );
    assert_eq!(DefaultStructFieldGen.get_type_name(&owner.fields[0], "owner", &g), "owner::Inner");
}

#[test]
fn attribute_groups_are_composed_behind_the_fields() {
    let mut s = plain_struct("T", vec![field("a", "i64", FieldSource::Attribute, NONE)]);
    s.attribute_groups = vec![Alias {
        name: "CommonAttrs".to_string(),
        original: "CommonAttrs".to_string(),
        comment: None,
    }];
    let g = gen();
    assert_eq!(
        DefaultStructGen.attribute_groups(&s, &g),
        "    #[serde(flatten)]\n    pub common_attrs: CommonAttrs,"
    );
    let fields = default_renderer().fields(&s, &g);
    assert_eq!(
        DefaultStructGen.fields(&s, &fields, &g),
        "\n    #[serde(rename = \"@a\")]\n    pub a: i64,\n\n    #[serde(flatten)]\n    pub common_attrs: CommonAttrs,\n"
    );
}

#[test]
fn field_that_owns_a_type_is_always_written_with_its_scope() {
    let mut f = field("Bar", "BarType", FieldSource::Element, NONE);
    f.subtypes = vec![Entity::Alias(Alias {
        name: "BarType".to_string(),
        original: "String".to_string(),
        comment: None,
    })];
    let g = gen();
    assert_eq!(DefaultStructFieldGen.get_type_name(&f, "owner", &g), "owner::BarType");
    assert_eq!(DefaultStructFieldGen.get_type_name(&f, "", &g), "::BarType");
    assert_eq!(
        g.generate(&Entity::Field(f)),
        "    #[serde(rename = \"Bar\")]\n    pub bar: ::BarType,"
    );
}

#[test]
fn renderer_of_default_strategies_renders_like_the_generator() {
    let renderer = Renderer {
        alias: DefaultAliasGen,
        enumeration: DefaultEnumGen,
        structure: DefaultStructGen,
        field: DefaultStructFieldGen,
        tuple_struct: DefaultTupleStructGen,
    };
    let mut owner = plain_struct("Owner", vec![field("f", "i64", FieldSource::Element, NONE)]);
    owner.subtypes = vec![Entity::Alias(Alias {
        name: "Own".to_string(),
        original: "i64".to_string(),
        comment: None,
    })];
    let g = gen();
    let entity = Entity::Struct(owner);
    let text = renderer.render(&entity, &g);
    assert!(text.contains("pub struct Owner {\n    #[serde(rename = \"f\")]\n    pub f: i64,\n}\n"));
    assert!(text.contains("pub mod owner {\n    use super::*;pub type Own = i64;\n\n    \n\n}\n"));
    assert_eq!(text, g.generate(&entity));
}
