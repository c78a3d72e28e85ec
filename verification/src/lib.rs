//! Discovery of a relational database's structure, normalized into a
//! dialect-independent metadata tree.
//!
//! The catalog of a database is read elsewhere; this library turns what was
//! read into the tree and says, in the contracts of its functions, what the
//! tree holds. `types` maps the type names of an engine to normalized types,
//! `introspection` assembles tables, views, enumerations, schemas and the
//! whole snapshot from the rows of the catalog queries, `metadata` is the tree
//! itself, and `document` writes the tree as a nested key-value document and
//! reads it back. `config` builds connection strings, `manager` summarizes a
//! snapshot for reports, and `prism` and `health` hold what the publishing
//! service computes.

pub mod config;
pub mod document;
pub mod error;
pub mod health;
pub mod introspection;
pub mod manager;
pub mod metadata;
pub mod name_map;
pub mod prism;
pub mod text;
pub mod types;
