//! The shared context of resolution and rendering, and the formatter of
//! names that both consult.

use vstd::prelude::*;
use vstd::string::*;
use crate::naming::{pascal_case, pascal_case_of, snake_case, snake_case_of};
use crate::text::{
    after_qualifier, has_qualifier, is_qualified_by, same_text, scope_path,
    single_line, to_scope_path, to_single_line,
};
use crate::generator::renderer::{default_renderer, default_strategies};
use crate::model::{entities_view, opt_view, Entity, Modifiers};

pub mod layout;
pub mod alias;
pub mod struct_field;
pub mod enumeration;
pub mod tuple_struct;
pub mod structure;
pub mod renderer;

verus! {

/// The target type that stands for a built-in schema type, if the name is one.
pub open spec fn built_in(t: Seq<char>) -> Option<Seq<char>> {
    if t == "xs:string"@ || t == "xs:NCName"@ {
        Some("String"@)
    } else if t == "xs:unsignedInt"@ {
        Some("usize"@)
    } else if t == "xs:int"@ {
        Some("i64"@)
    } else if t == "xs:float"@ {
        Some("f64"@)
    } else if t == "xs:boolean"@ {
        Some("bool"@)
    } else {
        None
    }
}

/// The target type name for a schema type name: a built-in maps to its target
/// type; a name qualified by the target namespace loses the qualifier; any
/// other name becomes a scope-qualified path.
pub open spec fn matched_type(ns: Option<Seq<char>>, t: Seq<char>) -> Seq<char> {
    match built_in(t) {
        Some(b) => b,
        None => match ns {
            Some(p) => if has_qualifier(t, p) {
                t.subrange(p.len() as int + 1, t.len() as int)
            } else {
                scope_path(t)
            },
            None => scope_path(t),
        },
    }
}

/// Whether a name is one of the target's own scalar types, which keep their
/// spelling.
pub open spec fn is_scalar(t: Seq<char>) -> bool {
    t == "String"@ || t == "usize"@ || t == "i64"@ || t == "f64"@ || t == "bool"@
}

/// The index just behind the last colon of a name, 0 where it has none.
pub open spec fn local_start(t: Seq<char>) -> int
    decreases t.len(),
{
    if t.len() == 0 {
        0
    } else if t.last() == ':' {
        t.len() as int
    } else {
        local_start(t.drop_last())
    }
}

/// A type name as it is written in the output: a scalar as it stands,
/// otherwise the path in front unchanged and the last segment in Pascal case.
pub open spec fn type_ident(t: Seq<char>) -> Seq<char> {
    if is_scalar(t) {
        t
    } else {
        t.subrange(0, local_start(t)) + pascal_case_of(t.subrange(local_start(t), t.len() as int))
    }
}

/// A type name with its modifiers applied: a repeated type is a list, an
/// optional one an option, and a list is never wrapped in an option.
pub open spec fn modified_type(t: Seq<char>, m: Modifiers) -> Seq<char> {
    if m.repeated {
        "Vec<"@ + t + ">"@
    } else if m.optional {
        "Option<"@ + t + ">"@
    } else {
        t
    }
}

/// A comment as it is written at the given indentation: nothing where there
/// is none, otherwise one line that ends in a line break.
pub open spec fn comment_text(c: Option<Seq<char>>, indent: Seq<char>) -> Seq<char> {
    match c {
        Some(t) => indent + "// "@ + single_line(t) + "\n"@,
        None => Seq::empty(),
    }
}

/// The context shared by resolution and rendering.
pub struct Generator {
    pub target_namespace: Option<String>,
}

impl Generator {
    /// The prefix of the target namespace, as a sequence of characters.
    pub open spec fn ns(&self) -> Option<Seq<char>> {
        opt_view(self.target_namespace)
    }

    /// A context for the schema whose target namespace has the given prefix.
    pub fn new(target_namespace: Option<String>) -> (g: Generator)
        ensures
            g.target_namespace == target_namespace,
    {
        Generator { target_namespace }
    }

    /// Maps a schema type name to the target type name.
    pub fn match_type(&self, t: &str) -> (r: String)
        ensures
            r@ == matched_type(self.ns(), t@),
    {
        if same_text(t, "xs:string") || same_text(t, "xs:NCName") {
            String::from_str("String")
        } else if same_text(t, "xs:unsignedInt") {
            String::from_str("usize")
        } else if same_text(t, "xs:int") {
            String::from_str("i64")
        } else if same_text(t, "xs:float") {
            String::from_str("f64")
        } else if same_text(t, "xs:boolean") {
            String::from_str("bool")
        } else {
            match &self.target_namespace {
                Some(p) => {
                    if is_qualified_by(t, p.as_str()) {
                        after_qualifier(t, p.as_str())
                    } else {
                        to_scope_path(t)
                    }
                },
                None => to_scope_path(t),
            }
        }
    }

    /// One unit of indentation.
    pub fn indent(&self) -> (r: String)
        ensures
            r@ == "    "@,
    {
        String::from_str("    ")
    }

    /// Writes a type name as it stands in the output.
    pub fn format_type_name(&self, t: &str) -> (r: String)
        ensures
            r@ == type_ident(t@),
    {
        if same_text(t, "String") || same_text(t, "usize") || same_text(t, "i64") || same_text(
            t,
            "f64",
        ) || same_text(t, "bool") {
            return String::from_str(t);
        }
        let n = t.unicode_len();
        let mut k: usize = n;
        assert(t@.subrange(0, n as int) == t@);
        while k > 0 && t.get_char(k - 1) != ':'
            invariant
                n == t@.len(),
                k <= n,
                local_start(t@) == local_start(t@.subrange(0, k as int)),
            decreases k,
        {
            proof {
                let cur = t@.subrange(0, k as int);
                assert(cur.drop_last() == t@.subrange(0, k - 1));
            }
            k = k - 1;
        }
        proof {
            let cur = t@.subrange(0, k as int);
            assert(local_start(cur) == k);
        }
        let mut out = String::from_str(t.substring_char(0, k));
        let local = pascal_case(t.substring_char(k, n));
        out.append(local.as_str());
        out
    }

    /// Writes a field name as it stands in the output: in snake case.
    pub fn format_name(&self, name: &str) -> (r: String)
        ensures
            r@ == snake_case_of(name@),
    {
        snake_case(name)
    }

    /// The name of the nested scope that an entity of the given name owns.
    pub fn mod_name(&self, name: &str) -> (r: String)
        ensures
            r@ == snake_case_of(name@),
    {
        snake_case(name)
    }

    /// Applies the modifiers to a type name.
    pub fn modify_type(&self, t: &str, m: &Modifiers) -> (r: String)
        ensures
            r@ == modified_type(t@, *m),
    {
        if m.repeated {
            let mut out = String::from_str("Vec<");
            out.append(t);
            out.append(">");
            out
        } else if m.optional {
            let mut out = String::from_str("Option<");
            out.append(t);
            out.append(">");
            out
        } else {
            String::from_str(t)
        }
    }

    /// Writes a comment at the given indentation.
    pub fn format_comment(&self, comment: &Option<String>, indent: &str) -> (r: String)
        ensures
            r@ == comment_text(opt_view(*comment), indent@),
    {
        match comment {
            Some(t) => {
                let mut out = String::from_str(indent);
                out.append("// ");
                let line = to_single_line(t.as_str());
                out.append(line.as_str());
                out.append("\n");
                out
            },
            None => String::new(),
        }
    }

    /// Renders a list of entities one after the other, in their order, with
    /// the default strategies.
    pub fn join_subtypes(&self, subtypes: &Vec<Entity>) -> (r: String)
        ensures
            r@ == default_strategies().joined_text(
                entities_view(*subtypes),
                subtypes@.len(),
                self,
            ),
    {
        default_renderer().join_subtypes(subtypes, self)
    }

    /// Renders an entity with the default strategy of its kind: its own
    /// text, then the nested scope with every type it owns.
    pub fn generate(&self, entity: &Entity) -> (r: String)
        ensures
            r@ == default_strategies().entity_text(entity.view(), self),
    {
        default_renderer().render(entity, self)
    }
}

} // verus!
