//! A streaming RDF/XML parser library.
//!
//! XML element events are reinterpreted according to the striped RDF/XML
//! grammar: successive nesting levels alternate between node positions
//! (subjects and objects) and predicate positions, while namespace bindings
//! and `xml:lang` scopes are inherited and shadowed by nesting.  The parser
//! emits RDF triples lazily, in document order.

pub mod errors;
pub mod event;
pub mod factory;
pub mod graph;
pub mod laws;
pub mod machine;
pub mod model;
pub mod ns;
pub mod prefix;
pub mod seqmaps;
pub mod sinks;
pub mod strutil;
pub mod term;
pub mod validate;
pub mod vocab;
pub mod xml;
pub mod xmlsource;
