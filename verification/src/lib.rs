//! An in-process builder for consumer-driven contract documents.
//!
//! A caller creates a document, adds interactions to it and sets their
//! fields, all through small integer handles that the [`handles`] registry
//! resolves. Values may be written with annotations that declare matching
//! rules and generators; the [`extract`] engine splits them into the plain
//! example and what the annotations declare. Once the mock server of a
//! document has started, the document is frozen: setters still change it in
//! memory, and report that the change will not take effect.
//!
//! Every type has a mathematical model, its view, and every operation says
//! in its contract what it does to the models.
//!
//! - [`handles`]: handles and the registry of documents.
//! - [`model`]: the document and its interactions.
//! - [`interactions`], [`builder`], [`messages`]: the operations on
//!   documents, on HTTP interactions and on messages.
//! - [`extract`], [`xml`]: annotated JSON examples and XML builder
//!   documents.
//! - [`rules`], [`path`]: matching rules and generators, and the structural
//!   paths that they are filed under.
//! - [`bodies`], [`content_type`]: bodies and their canonical form.
//! - [`export`]: what is handed to the writer of contract files.
//! - [`report`]: the report on a compared response.
//! - [`json`], [`dict`], [`values`], [`text`]: JSON values, dictionaries,
//!   lists of values and texts.
pub mod bodies;
pub mod builder;
pub mod content_type;
pub mod dict;
pub mod export;
pub mod extract;
pub mod handles;
pub mod interactions;
pub mod json;
pub mod messages;
pub mod model;
pub mod path;
pub mod report;
pub mod rules;
pub mod text;
pub mod values;
pub mod xml;
