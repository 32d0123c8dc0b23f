//! Rendering of whole entities: one strategy per kind of entity, and the
//! walk over the nested types that hands each strategy its part.

use vstd::prelude::*;
use vstd::string::*;
use crate::generator::alias::{AliasGenerator, DefaultAliasGen};
use crate::generator::enumeration::{DefaultEnumGen, EnumGenerator};
use crate::generator::struct_field::{DefaultStructFieldGen, StructFieldGenerator};
use crate::generator::structure::{DefaultStructGen, StructGenerator};
use crate::generator::tuple_struct::{DefaultTupleStructGen, TupleStructGenerator};
use crate::generator::layout::blocks_joined;
use crate::generator::Generator;
use crate::model::{entities_view, fields_view, Entity, EntityView, FieldView, Struct};
use crate::text::empty_literal;

verus! {

/// The strategies that render the entities, one for each kind. Each can be
/// replaced without the others.
pub struct Renderer<A, E, S, F, T> {
    pub alias: A,
    pub enumeration: E,
    pub structure: S,
    pub field: F,
    pub tuple_struct: T,
}

/// The renderer of the default strategies.
pub open spec fn default_strategies() -> Renderer<
    DefaultAliasGen,
    DefaultEnumGen,
    DefaultStructGen,
    DefaultStructFieldGen,
    DefaultTupleStructGen,
> {
    Renderer {
        alias: DefaultAliasGen,
        enumeration: DefaultEnumGen,
        structure: DefaultStructGen,
        field: DefaultStructFieldGen,
        tuple_struct: DefaultTupleStructGen,
    }
}

/// Builds the renderer of the default strategies.
pub fn default_renderer() -> (r: Renderer<
    DefaultAliasGen,
    DefaultEnumGen,
    DefaultStructGen,
    DefaultStructFieldGen,
    DefaultTupleStructGen,
>)
    ensures
        r == default_strategies(),
{
    Renderer {
        alias: DefaultAliasGen,
        enumeration: DefaultEnumGen,
        structure: DefaultStructGen,
        field: DefaultStructFieldGen,
        tuple_struct: DefaultTupleStructGen,
    }
}

impl<
    A: AliasGenerator,
    E: EnumGenerator,
    S: StructGenerator,
    F: StructFieldGenerator,
    T: TupleStructGenerator,
> Renderer<A, E, S, F, T> {
    /// The text of the first `n` fields in the given scope, in their order:
    /// the texts that are not empty, with a blank line between one and the
    /// next.
    pub open spec fn fields_text(
        &self,
        fields: Seq<FieldView>,
        scope: Seq<char>,
        n: nat,
        gen: &Generator,
    ) -> Seq<char>
        decreases n,
    {
        if n == 0 || n > fields.len() {
            Seq::empty()
        } else {
            blocks_joined(
                self.fields_text(fields, scope, (n - 1) as nat, gen),
                self.field.rendered(fields[n - 1], scope, gen),
            )
        }
    }

    /// The text of the first `n` entities of a list, one after the other.
    pub open spec fn joined_text(&self, es: Seq<EntityView>, n: nat, gen: &Generator) -> Seq<char>
        decreases es, n,
    {
        if n == 0 || n > es.len() {
            Seq::empty()
        } else {
            self.joined_text(es, (n - 1) as nat, gen) + self.entity_text(es[n - 1], gen)
        }
    }

    /// The text of the types nested in the first `n` fields.
    pub open spec fn field_subtypes_text(
        &self,
        fields: Seq<FieldView>,
        n: nat,
        gen: &Generator,
    ) -> Seq<char>
        decreases fields, n,
    {
        if n == 0 || n > fields.len() {
            Seq::empty()
        } else {
            self.field_subtypes_text(fields, (n - 1) as nat, gen) + self.joined_text(
                fields[n - 1].subtypes,
                fields[n - 1].subtypes.len(),
                gen,
            )
        }
    }

    /// The text of an entity: what the strategy of its kind makes of the
    /// entity and of the text of everything nested in it. A struct's fields
    /// are written in the struct's scope, in their order; its own nested
    /// types come before those of its fields. A field on its own has no
    /// scope.
    pub open spec fn entity_text(&self, e: EntityView, gen: &Generator) -> Seq<char>
        decreases e, 0nat,
    {
        match e {
            EntityView::Struct(s) => self.structure.rendered(
                s,
                self.fields_text(s.fields, self.structure.scope(s, gen), s.fields.len(), gen),
                self.joined_text(s.subtypes, s.subtypes.len(), gen),
                self.field_subtypes_text(s.fields, s.fields.len(), gen),
                gen,
            ),
            EntityView::Enum(en) => self.enumeration.rendered(
                en,
                self.joined_text(en.subtypes, en.subtypes.len(), gen),
                gen,
            ),
            EntityView::TupleStruct(t) => self.tuple_struct.rendered(
                t,
                self.joined_text(t.subtypes, t.subtypes.len(), gen),
                gen,
            ),
            EntityView::Alias(a) => self.alias.rendered(a, gen),
            EntityView::Field(f) => self.field.rendered(f, Seq::empty(), gen),
        }
    }

    /// Renders the fields of a struct in the struct's scope, in their order.
    pub fn fields(&self, entity: &Struct, gen: &Generator) -> (r: String)
        ensures
            r@ == self.fields_text(
                entity.view().fields,
                self.structure.scope(entity.view(), gen),
                entity.fields@.len(),
                gen,
            ),
    {
        let scope = self.structure.mod_name(entity, gen);
        let mut out = String::new();
        let mut i: usize = 0;
        while i < entity.fields.len()
            invariant
                i <= entity.fields@.len(),
                scope@ == self.structure.scope(entity.view(), gen),
                out@ == self.fields_text(fields_view(entity.fields), scope@, i as nat, gen),
            decreases entity.fields@.len() - i,
        {
            let f = self.field.generate(&entity.fields[i], scope.as_str(), gen);
            if !f.as_str().is_empty() {
                if !out.as_str().is_empty() {
                    out.append("\n\n");
                }
                out.append(f.as_str());
            }
            i = i + 1;
        }
        out
    }

    /// Renders the types nested in the fields of a struct, in the order of
    /// the fields.
    pub fn field_subtypes(&self, entity: &Struct, gen: &Generator) -> (r: String)
        ensures
            r@ == self.field_subtypes_text(entity.view().fields, entity.fields@.len(), gen),
        decreases entity, 0nat, 0nat,
    {
        let mut out = String::new();
        let mut i: usize = 0;
        while i < entity.fields.len()
            invariant
                i <= entity.fields@.len(),
                out@ == self.field_subtypes_text(fields_view(entity.fields), i as nat, gen),
            decreases entity.fields@.len() - i,
        {
            let t = self.join_subtypes(&entity.fields[i].subtypes, gen);
            out.append(t.as_str());
            i = i + 1;
        }
        out
    }

    /// Renders a list of entities one after the other, in their order.
    pub fn join_subtypes(&self, subtypes: &Vec<Entity>, gen: &Generator) -> (r: String)
        ensures
            r@ == self.joined_text(entities_view(*subtypes), subtypes@.len(), gen),
        decreases subtypes, 0nat, 0nat,
    {
        let mut out = String::new();
        let mut i: usize = 0;
        while i < subtypes.len()
            invariant
                i <= subtypes@.len(),
                out@ == self.joined_text(entities_view(*subtypes), i as nat, gen),
            decreases subtypes@.len() - i,
        {
            let t = self.render(&subtypes[i], gen);
            out.append(t.as_str());
            i = i + 1;
        }
        out
    }

    /// Renders an entity: everything nested in it first, depth first and in
    /// order, then the entity itself by the strategy of its kind.
    pub fn render(&self, entity: &Entity, gen: &Generator) -> (r: String)
        ensures
            r@ == self.entity_text(entity.view(), gen),
        decreases entity, 1nat, 0nat,
    {
        match entity {
            Entity::Struct(s) => {
                let fields = self.fields(s, gen);
                let own = self.join_subtypes(&s.subtypes, gen);
                let of_fields = self.field_subtypes(s, gen);
                self.structure.generate(s, fields.as_str(), own.as_str(), of_fields.as_str(), gen)
            },
            Entity::Enum(e) => {
                let subtypes = self.join_subtypes(&e.subtypes, gen);
                self.enumeration.generate(e, subtypes.as_str(), gen)
            },
            Entity::TupleStruct(t) => {
                let subtypes = self.join_subtypes(&t.subtypes, gen);
                self.tuple_struct.generate(t, subtypes.as_str(), gen)
            },
            Entity::Alias(a) => self.alias.generate(a, gen),
            Entity::Field(f) => {
                proof {
                    empty_literal();
                }
                self.field.generate(f, "", gen)
            },
        }
    }
}

} // verus!
