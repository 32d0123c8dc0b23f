//! The schema document as the resolver sees it, and the classifier that
//! tells its constructs apart.

use vstd::prelude::*;
use vstd::string::*;
use crate::text::same_text;

verus! {

/// One element of a schema document, with the attributes that resolution
/// reads and its element children in document order.
#[derive(Debug)]
pub struct Node {
    /// The local tag name.
    pub tag: String,
    pub name: Option<String>,
    /// The `type` attribute.
    pub type_ref: Option<String>,
    pub base: Option<String>,
    /// The `ref` attribute.
    pub reference: Option<String>,
    pub min_occurs: Option<String>,
    pub max_occurs: Option<String>,
    /// The `use` attribute.
    pub usage: Option<String>,
    /// The `value` attribute of a facet.
    pub value: Option<String>,
    /// The `itemType` attribute of a list.
    pub item_type: Option<String>,
    /// The `memberTypes` attribute of a union.
    pub member_types: Option<String>,
    /// The text content, read for documentation.
    pub text: Option<String>,
    pub children: Vec<Node>,
}

/// The content that an extension or a restriction stands in.
#[derive(Clone, Copy, Debug, PartialEq, Eq, Structural)]
pub enum ContentKind {
    SimpleContent,
    ComplexContent,
}

/// What a restriction narrows.
#[derive(Clone, Copy, Debug, PartialEq, Eq, Structural)]
pub enum RestrictionKind {
    SimpleContent,
    ComplexContent,
    ValueFacet,
}

/// The schema constructs that resolution tells apart.
#[derive(Clone, Copy, Debug, PartialEq, Eq, Structural)]
pub enum ElementKind {
    Schema,
    ComplexType,
    SimpleType,
    Element,
    Attribute,
    AttributeGroup,
    Group,
    Sequence,
    Choice,
    All,
    SimpleContent,
    ComplexContent,
    Extension(ContentKind),
    Restriction(RestrictionKind),
    Union,
    List,
    Enumeration,
    Annotation,
    Documentation,
    Unknown,
}

/// The kind of a construct, from its tag and the tag of its parent. A tag
/// that is not known, and an extension or restriction in a place where none
/// belongs, is `Unknown`.
pub open spec fn kind_of(tag: Seq<char>, parent: Seq<char>) -> ElementKind {
    if tag == "schema"@ {
        ElementKind::Schema
    } else if tag == "complexType"@ {
        ElementKind::ComplexType
    } else if tag == "simpleType"@ {
        ElementKind::SimpleType
    } else if tag == "element"@ {
        ElementKind::Element
    } else if tag == "attribute"@ {
        ElementKind::Attribute
    } else if tag == "attributeGroup"@ {
        ElementKind::AttributeGroup
    } else if tag == "group"@ {
        ElementKind::Group
    } else if tag == "sequence"@ {
        ElementKind::Sequence
    } else if tag == "choice"@ {
        ElementKind::Choice
    } else if tag == "all"@ {
        ElementKind::All
    } else if tag == "simpleContent"@ {
        ElementKind::SimpleContent
    } else if tag == "complexContent"@ {
        ElementKind::ComplexContent
    } else if tag == "extension"@ {
        if parent == "simpleContent"@ {
            ElementKind::Extension(ContentKind::SimpleContent)
        } else if parent == "complexContent"@ {
            ElementKind::Extension(ContentKind::ComplexContent)
        } else {
            ElementKind::Unknown
        }
    } else if tag == "restriction"@ {
        if parent == "simpleContent"@ {
            ElementKind::Restriction(RestrictionKind::SimpleContent)
        } else if parent == "complexContent"@ {
            ElementKind::Restriction(RestrictionKind::ComplexContent)
        } else if parent == "simpleType"@ {
            ElementKind::Restriction(RestrictionKind::ValueFacet)
        } else {
            ElementKind::Unknown
        }
    } else if tag == "union"@ {
        ElementKind::Union
    } else if tag == "list"@ {
        ElementKind::List
    } else if tag == "enumeration"@ {
        ElementKind::Enumeration
    } else if tag == "annotation"@ {
        ElementKind::Annotation
    } else if tag == "documentation"@ {
        ElementKind::Documentation
    } else {
        ElementKind::Unknown
    }
}

/// Classifies a construct by its tag and the tag of its parent.
pub fn classify(tag: &str, parent: &str) -> (k: ElementKind)
    ensures
        k == kind_of(tag@, parent@),
{
    if same_text(tag, "schema") {
        ElementKind::Schema
    } else if same_text(tag, "complexType") {
        ElementKind::ComplexType
    } else if same_text(tag, "simpleType") {
        ElementKind::SimpleType
    } else if same_text(tag, "element") {
        ElementKind::Element
    } else if same_text(tag, "attribute") {
        ElementKind::Attribute
    } else if same_text(tag, "attributeGroup") {
        ElementKind::AttributeGroup
    } else if same_text(tag, "group") {
        ElementKind::Group
    } else if same_text(tag, "sequence") {
        ElementKind::Sequence
    } else if same_text(tag, "choice") {
        ElementKind::Choice
    } else if same_text(tag, "all") {
        ElementKind::All
    } else if same_text(tag, "simpleContent") {
        ElementKind::SimpleContent
    } else if same_text(tag, "complexContent") {
        ElementKind::ComplexContent
    } else if same_text(tag, "extension") {
        if same_text(parent, "simpleContent") {
            ElementKind::Extension(ContentKind::SimpleContent)
        } else if same_text(parent, "complexContent") {
            ElementKind::Extension(ContentKind::ComplexContent)
        } else {
            ElementKind::Unknown
        }
    } else if same_text(tag, "restriction") {
        if same_text(parent, "simpleContent") {
            ElementKind::Restriction(RestrictionKind::SimpleContent)
        } else if same_text(parent, "complexContent") {
            ElementKind::Restriction(RestrictionKind::ComplexContent)
        } else if same_text(parent, "simpleType") {
            ElementKind::Restriction(RestrictionKind::ValueFacet)
        } else {
            ElementKind::Unknown
        }
    } else if same_text(tag, "union") {
        ElementKind::Union
    } else if same_text(tag, "list") {
        ElementKind::List
    } else if same_text(tag, "enumeration") {
        ElementKind::Enumeration
    } else if same_text(tag, "annotation") {
        ElementKind::Annotation
    } else if same_text(tag, "documentation") {
        ElementKind::Documentation
    } else {
        ElementKind::Unknown
    }
}

/// The sets of kinds that resolution looks for among a construct's children.
#[derive(Clone, Copy, Debug, PartialEq, Eq, Structural)]
pub enum Pick {
    /// Attribute declarations.
    Attributes,
    /// Element declarations and group references, the members of a sequence.
    Members,
    /// References to attribute groups.
    AttributeGroups,
    /// Enumeration facets.
    Facets,
    /// The content of a complex type.
    TypeContent,
    /// The content model of a group.
    ModelContent,
    /// The content model of an extension.
    ExtensionContent,
    /// An inline type declaration.
    InlineType,
    /// Anything but an annotation.
    NotAnnotation,
    /// An annotation.
    Annotations,
    /// The declarations that a schema holds: types, groups and attribute
    /// groups.
    Declarations,
    /// A documentation text.
    Documentations,
}

impl Pick {
    /// Whether a kind belongs to the set.
    pub open spec fn holds(self, k: ElementKind) -> bool {
        match self {
            Pick::Attributes => k == ElementKind::Attribute,
            Pick::Members => k == ElementKind::Element || k == ElementKind::Group,
            Pick::AttributeGroups => k == ElementKind::AttributeGroup,
            Pick::Facets => k == ElementKind::Enumeration,
            Pick::TypeContent => k == ElementKind::Sequence || k == ElementKind::Choice || k
                == ElementKind::All || k == ElementKind::Group || k == ElementKind::SimpleContent
                || k == ElementKind::ComplexContent,
            Pick::ModelContent => k == ElementKind::Sequence || k == ElementKind::Choice || k
                == ElementKind::All,
            Pick::ExtensionContent => k == ElementKind::Sequence || k == ElementKind::Choice || k
                == ElementKind::All || k == ElementKind::Group,
            Pick::InlineType => k == ElementKind::ComplexType || k == ElementKind::SimpleType,
            Pick::NotAnnotation => k != ElementKind::Annotation,
            Pick::Annotations => k == ElementKind::Annotation,
            Pick::Declarations => k == ElementKind::ComplexType || k == ElementKind::SimpleType
                || k == ElementKind::Group || k == ElementKind::AttributeGroup,
            Pick::Documentations => k == ElementKind::Documentation,
        }
    }

    /// Tests whether a kind belongs to the set.
    pub fn test(self, k: ElementKind) -> (r: bool)
        ensures
            r == self.holds(k),
    {
        match self {
            Pick::Attributes => k == ElementKind::Attribute,
            Pick::Members => k == ElementKind::Element || k == ElementKind::Group,
            Pick::AttributeGroups => k == ElementKind::AttributeGroup,
            Pick::Facets => k == ElementKind::Enumeration,
            Pick::TypeContent => k == ElementKind::Sequence || k == ElementKind::Choice || k
                == ElementKind::All || k == ElementKind::Group || k == ElementKind::SimpleContent
                || k == ElementKind::ComplexContent,
            Pick::ModelContent => k == ElementKind::Sequence || k == ElementKind::Choice || k
                == ElementKind::All,
            Pick::ExtensionContent => k == ElementKind::Sequence || k == ElementKind::Choice || k
                == ElementKind::All || k == ElementKind::Group,
            Pick::InlineType => k == ElementKind::ComplexType || k == ElementKind::SimpleType,
            Pick::NotAnnotation => k != ElementKind::Annotation,
            Pick::Annotations => k == ElementKind::Annotation,
            Pick::Declarations => k == ElementKind::ComplexType || k == ElementKind::SimpleType
                || k == ElementKind::Group || k == ElementKind::AttributeGroup,
            Pick::Documentations => k == ElementKind::Documentation,
        }
    }
}

impl Node {
    /// A construct with the given tag, without attributes, text or children.
    pub fn new(tag: &str) -> (n: Node)
        ensures
            n.tag@ == tag@,
            n.name.is_none(),
            n.type_ref.is_none(),
            n.base.is_none(),
            n.reference.is_none(),
            n.min_occurs.is_none(),
            n.max_occurs.is_none(),
            n.usage.is_none(),
            n.value.is_none(),
            n.item_type.is_none(),
            n.member_types.is_none(),
            n.text.is_none(),
            n.children@.len() == 0,
    {
        Node {
            tag: String::from_str(tag),
            name: None,
            type_ref: None,
            base: None,
            reference: None,
            min_occurs: None,
            max_occurs: None,
            usage: None,
            value: None,
            item_type: None,
            member_types: None,
            text: None,
            children: Vec::new(),
        }
    }

    /// Whether the construct points to a declaration elsewhere instead of
    /// declaring something itself.
    pub fn is_reference(&self) -> (r: bool)
        ensures
            r == self.reference.is_some(),
    {
        self.reference.is_some()
    }

    /// Classifies the construct under the given parent.
    pub fn kind(&self, parent: &Node) -> (k: ElementKind)
        ensures
            k == kind_of(self.tag@, parent.tag@),
    {
        classify(self.tag.as_str(), parent.tag.as_str())
    }

    /// The kind of the `i`-th child.
    pub open spec fn child_kind(&self, i: int) -> ElementKind {
        kind_of(self.children@[i].tag@, self.tag@)
    }

    /// The index of the last of the first `n` children whose kind is in the
    /// set, if there is one.
    pub open spec fn last_of(&self, pick: Pick, n: nat) -> Option<int>
        decreases n,
    {
        if n == 0 || n > self.children@.len() {
            None
        } else if pick.holds(self.child_kind(n - 1)) {
            Some(n - 1)
        } else {
            self.last_of(pick, (n - 1) as nat)
        }
    }

    /// The index of the last child whose kind is in the set.
    pub open spec fn last_child(&self, pick: Pick) -> Option<int> {
        self.last_of(pick, self.children@.len())
    }

    /// The documentation of a construct: the text of the last documentation
    /// in its last annotation.
    pub open spec fn documentation(&self) -> Option<Seq<char>> {
        match self.last_child(Pick::Annotations) {
            Some(a) => match self.children@[a].last_child(Pick::Documentations) {
                Some(d) => crate::model::opt_view(self.children@[a].children@[d].text),
                None => None,
            },
            None => None,
        }
    }

    /// The last child of a set, where there is one, is a child, and of the set.
    pub proof fn last_of_is_a_child(&self, pick: Pick, n: nat)
        ensures
            self.last_of(pick, n).is_some() ==> 0 <= self.last_of(pick, n).unwrap() < n
                && self.last_of(pick, n).unwrap() < self.children@.len() && pick.holds(
                self.child_kind(self.last_of(pick, n).unwrap()),
            ),
        decreases n,
    {
        if n == 0 || n > self.children@.len() {
        } else if pick.holds(self.child_kind(n - 1)) {
        } else {
            self.last_of_is_a_child(pick, (n - 1) as nat);
        }
    }

    /// Finds the last child whose kind is in the set.
    pub fn find_last(&self, pick: Pick) -> (r: Option<usize>)
        ensures
            r.is_some() == self.last_child(pick).is_some(),
            r.is_some() ==> r.unwrap() == self.last_child(pick).unwrap() && r.unwrap()
                < self.children@.len() && pick.holds(self.child_kind(r.unwrap() as int)),
    {
        let mut n: usize = self.children.len();
        while n > 0
            invariant
                n <= self.children@.len(),
                self.last_child(pick) == self.last_of(pick, n as nat),
            decreases n,
        {
            let k = classify(self.children[n - 1].tag.as_str(), self.tag.as_str());
            if pick.test(k) {
                return Some(n - 1);
            }
            n = n - 1;
        }
        None
    }

    /// Whether any child has a kind in the set.
    pub fn has_any(&self, pick: Pick) -> (r: bool)
        ensures
            r == self.last_child(pick).is_some(),
    {
        self.find_last(pick).is_some()
    }

    /// Reads the documentation of a construct.
    pub fn get_documentation(&self) -> (r: Option<String>)
        ensures
            crate::model::opt_view(r) == self.documentation(),
    {
        match self.find_last(Pick::Annotations) {
            Some(a) => {
                let ann = &self.children[a];
                match ann.find_last(Pick::Documentations) {
                    Some(d) => crate::text::copy_opt(&ann.children[d].text),
                    None => None,
                }
            },
            None => None,
        }
    }
}

} // verus!
