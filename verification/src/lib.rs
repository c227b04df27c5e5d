//! Verified core of a derive macro that renders a type declaration, and
//! values of that type, as source text.
//!
//! A [`schema::TypeSchema`] describes one declared type. [`driver::impl_macro`]
//! compiles it into templates: literal text with holes. A hole names what a
//! field's own type supplies when text is produced, its type name on the
//! definition side and the text of a field's value on the value side.
//!
//! - [`schema`]: the data model and what makes a schema well formed.
//! - [`extract`]: the parallel projections of a list of fields.
//! - [`docs`]: which documentation a type, a field or a variant keeps.
//! - [`template`]: templates, bindings and how a template becomes text.
//! - [`value`]: the templates of the value side, with their placeholders.
//! - [`definition`]: the templates of the definition side.
//! - [`driver`]: compiling a schema, and producing text from what was
//!   compiled.
//! - [`rendered`]: the rendered text stated directly over a schema, and the
//!   proof that the templates produce it.
//! - [`laws`]: general properties of the compiler.
//! - [`text`]: optional prefixes and decimal numbers.

pub mod definition;
pub mod docs;
pub mod driver;
pub mod extract;
pub mod laws;
pub mod rendered;
pub mod schema;
pub mod template;
pub mod text;
pub mod value;
