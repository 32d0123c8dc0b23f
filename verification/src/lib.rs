//! Resolves XML-Schema type declarations into an entity model and renders
//! that model as annotated data-model source text.

pub mod model;
pub mod text;
pub mod node;
pub mod naming;
pub mod generator;
pub mod resolver;
pub mod parser;
pub mod laws;
