//! The entity model: the normalised type graph that resolution produces and
//! rendering consumes.

use vstd::prelude::*;

verus! {

/// The modifiers that may decorate a type name.
#[derive(Clone, Copy, Debug, PartialEq, Eq, Structural)]
pub struct Modifiers {
    pub optional: bool,
    pub repeated: bool,
    pub suppressed: bool,
}

/// Where a field of a struct comes from.
#[derive(Clone, Copy, Debug, PartialEq, Eq, Structural)]
pub enum FieldSource {
    Attribute,
    Element,
    ChoiceGroup,
    BaseTypeComposition,
    Unspecified,
}

/// Where the cases of an enum come from.
#[derive(Clone, Copy, Debug, PartialEq, Eq, Structural)]
pub enum EnumSource {
    Enumeration,
    Union,
    Choice,
}

/// The mathematical value of an optional string.
pub open spec fn opt_view(s: Option<String>) -> Option<Seq<char>> {
    match s {
        Some(t) => Some(t@),
        None => None,
    }
}

/// Another name for a type.
#[derive(Debug)]
pub struct Alias {
    pub name: String,
    pub original: String,
    pub comment: Option<String>,
}

/// The value of an alias.
pub struct AliasView {
    pub name: Seq<char>,
    pub original: Seq<char>,
    pub comment: Option<Seq<char>>,
}

/// One case of an enum: its identifier, and the literal or the type it
/// stands for.
#[derive(Debug)]
pub struct Case {
    pub name: String,
    pub value: String,
}

/// The value of a case.
pub struct CaseView {
    pub name: Seq<char>,
    pub value: Seq<char>,
}

/// One field of a struct, with the nested types that it owns.
#[derive(Debug)]
pub struct Field {
    pub name: String,
    pub type_ref: String,
    pub modifiers: Modifiers,
    pub source: FieldSource,
    pub subtypes: Vec<Entity>,
    pub comment: Option<String>,
}

/// The value of a field.
pub struct FieldView {
    pub name: Seq<char>,
    pub type_ref: Seq<char>,
    pub modifiers: Modifiers,
    pub source: FieldSource,
    pub subtypes: Seq<EntityView>,
    pub comment: Option<Seq<char>>,
}

/// A struct: its fields in document order, the nested types it owns, and
/// the attribute groups it composes.
#[derive(Debug)]
pub struct Struct {
    pub name: String,
    pub fields: Vec<Field>,
    pub subtypes: Vec<Entity>,
    pub attribute_groups: Vec<Alias>,
    pub comment: Option<String>,
}

/// The value of a struct.
pub struct StructView {
    pub name: Seq<char>,
    pub fields: Seq<FieldView>,
    pub subtypes: Seq<EntityView>,
    pub attribute_groups: Seq<AliasView>,
    pub comment: Option<Seq<char>>,
}

/// An enum: its cases in declared order.
#[derive(Debug)]
pub struct Enum {
    pub name: String,
    pub type_ref: String,
    pub cases: Vec<Case>,
    pub subtypes: Vec<Entity>,
    pub source: EnumSource,
    pub comment: Option<String>,
}

/// The value of an enum.
pub struct EnumView {
    pub name: Seq<char>,
    pub type_ref: Seq<char>,
    pub cases: Seq<CaseView>,
    pub subtypes: Seq<EntityView>,
    pub source: EnumSource,
    pub comment: Option<Seq<char>>,
}

/// A newtype: one wrapped type under a name of its own.
#[derive(Debug)]
pub struct TupleStruct {
    pub name: String,
    pub type_ref: String,
    pub modifiers: Modifiers,
    pub subtypes: Vec<Entity>,
    pub comment: Option<String>,
}

/// The value of a newtype.
pub struct TupleStructView {
    pub name: Seq<char>,
    pub type_ref: Seq<char>,
    pub modifiers: Modifiers,
    pub subtypes: Seq<EntityView>,
    pub comment: Option<Seq<char>>,
}

/// One resolved declaration.
#[derive(Debug)]
pub enum Entity {
    Struct(Struct),
    Enum(Enum),
    TupleStruct(TupleStruct),
    Alias(Alias),
    Field(Field),
}

/// The value of an entity.
pub enum EntityView {
    Struct(StructView),
    Enum(EnumView),
    TupleStruct(TupleStructView),
    Alias(AliasView),
    Field(FieldView),
}

impl Alias {
    /// The value of the alias.
    pub open spec fn view(&self) -> AliasView {
        AliasView { name: self.name@, original: self.original@, comment: opt_view(self.comment) }
    }
}

impl Case {
    /// The value of the case.
    pub open spec fn view(&self) -> CaseView {
        CaseView { name: self.name@, value: self.value@ }
    }
}

/// The values of a list of aliases, in order.
pub open spec fn aliases_view(v: Vec<Alias>) -> Seq<AliasView> {
    Seq::new(v@.len(), |i: int| v@[i].view())
}

/// The values of a list of cases, in order.
pub open spec fn cases_view(v: Vec<Case>) -> Seq<CaseView> {
    Seq::new(v@.len(), |i: int| v@[i].view())
}

/// The values of a list of entities, in order.
pub open spec fn entities_view(v: Vec<Entity>) -> Seq<EntityView>
    decreases v,
{
    Seq::new(v@.len(), |i: int| if 0 <= i < v@.len() { v@[i].view() } else { arbitrary() })
}

/// The values of a list of fields, in order.
pub open spec fn fields_view(v: Vec<Field>) -> Seq<FieldView>
    decreases v,
{
    Seq::new(v@.len(), |i: int| if 0 <= i < v@.len() { v@[i].view() } else { arbitrary() })
}

impl Field {
    /// The value of the field.
    pub open spec fn view(&self) -> FieldView
        decreases self,
    {
        FieldView {
            name: self.name@,
            type_ref: self.type_ref@,
            modifiers: self.modifiers,
            source: self.source,
            subtypes: entities_view(self.subtypes),
            comment: opt_view(self.comment),
        }
    }
}

impl Struct {
    /// The value of the struct.
    pub open spec fn view(&self) -> StructView
        decreases self,
    {
        StructView {
            name: self.name@,
            fields: fields_view(self.fields),
            subtypes: entities_view(self.subtypes),
            attribute_groups: aliases_view(self.attribute_groups),
            comment: opt_view(self.comment),
        }
    }
}

impl Enum {
    /// The value of the enum.
    pub open spec fn view(&self) -> EnumView
        decreases self,
    {
        EnumView {
            name: self.name@,
            type_ref: self.type_ref@,
            cases: cases_view(self.cases),
            subtypes: entities_view(self.subtypes),
            source: self.source,
            comment: opt_view(self.comment),
        }
    }
}

impl TupleStruct {
    /// The value of the newtype.
    pub open spec fn view(&self) -> TupleStructView
        decreases self,
    {
        TupleStructView {
            name: self.name@,
            type_ref: self.type_ref@,
            modifiers: self.modifiers,
            subtypes: entities_view(self.subtypes),
            comment: opt_view(self.comment),
        }
    }
}

impl Entity {
    /// The value of the entity.
    pub open spec fn view(&self) -> EntityView
        decreases self,
    {
        match self {
            Entity::Struct(s) => EntityView::Struct(s.view()),
            Entity::Enum(e) => EntityView::Enum(e.view()),
            Entity::TupleStruct(t) => EntityView::TupleStruct(t.view()),
            Entity::Alias(a) => EntityView::Alias(a.view()),
            Entity::Field(f) => EntityView::Field(f.view()),
        }
    }
}

/// What one child of a schema gives: the entity that it declares, or the
/// mark that the child declares nothing and is passed through as it stands.
#[derive(Debug)]
pub enum SchemaItem {
    Declared(Entity),
    PassedThrough,
}

/// The value of what one child of a schema gives.
pub enum SchemaItemView {
    Declared(EntityView),
    PassedThrough,
}

impl SchemaItem {
    /// The value of the item.
    pub open spec fn view(&self) -> SchemaItemView {
        match self {
            SchemaItem::Declared(e) => SchemaItemView::Declared(e.view()),
            SchemaItem::PassedThrough => SchemaItemView::PassedThrough,
        }
    }
}

/// The values of a list of items, in order.
pub open spec fn items_view(v: Vec<SchemaItem>) -> Seq<SchemaItemView> {
    Seq::new(v@.len(), |i: int| v@[i].view())
}

impl Enum {
    /// The case that an untagged value resolves to, when `fits` says of each
    /// case whether the value is valid as that case: the cases are tried in
    /// their order, and the first that fits is taken.
    pub fn first_match(&self, fits: &Vec<bool>) -> (r: Option<usize>)
        requires
            fits@.len() == self.cases@.len(),
        ensures
            match r {
                Some(i) => i < fits@.len() && fits@[i as int] && forall|j: int|
                    0 <= j < i ==> !fits@[j],
                None => forall|j: int| 0 <= j < fits@.len() ==> !fits@[j],
            },
    {
        let mut i: usize = 0;
        while i < fits.len()
            invariant
                i <= fits@.len(),
                forall|j: int| 0 <= j < i ==> !fits@[j],
            decreases fits@.len() - i,
        {
            if fits[i] {
                return Some(i);
            }
            i = i + 1;
        }
        None
    }
}

impl Modifiers {
    /// No modifier at all.
    pub fn none() -> (m: Modifiers)
        ensures
            m == (Modifiers { optional: false, repeated: false, suppressed: false }),
    {
        Modifiers { optional: false, repeated: false, suppressed: false }
    }
}

/// An empty list of entities.
pub fn no_entities() -> (v: Vec<Entity>)
    ensures
        entities_view(v) == Seq::<EntityView>::empty(),
{
    let v: Vec<Entity> = Vec::new();
    assert(entities_view(v) =~= Seq::<EntityView>::empty());
    v
}

/// A list that holds one entity.
pub fn one_entity(e: Entity) -> (v: Vec<Entity>)
    ensures
        entities_view(v) == seq![e.view()],
{
    let mut v: Vec<Entity> = Vec::new();
    v.push(e);
    assert(entities_view(v) =~= seq![e.view()]);
    v
}

/// Appends a field to a list of fields.
pub fn push_field(v: &mut Vec<Field>, f: Field)
    ensures
        fields_view(*final(v)) == fields_view(*old(v)).push(f.view()),
{
    v.push(f);
    assert(fields_view(*v) =~= fields_view(*old(v)).push(f.view()));
}

/// One list of fields after another.
pub fn join_fields(a: Vec<Field>, b: Vec<Field>) -> (r: Vec<Field>)
    ensures
        fields_view(r) == fields_view(a) + fields_view(b),
{
    let mut r = a;
    let mut t = b;
    r.append(&mut t);
    assert(fields_view(r) =~= fields_view(a) + fields_view(b));
    r
}

/// One list of aliases after another.
pub fn join_aliases(a: Vec<Alias>, b: Vec<Alias>) -> (r: Vec<Alias>)
    ensures
        aliases_view(r) == aliases_view(a) + aliases_view(b),
{
    let mut r = a;
    let mut t = b;
    r.append(&mut t);
    assert(aliases_view(r) =~= aliases_view(a) + aliases_view(b));
    r
}

} // verus!
