//! Bibliographic entries with their parents, a selector language that matches
//! and captures entries in that graph, queries that resolve values and
//! canonical parents across ancestors, and the parts of references in the
//! IEEE style.

pub mod text;
pub mod display;
pub mod kind;
pub mod types;
pub mod entry;
pub mod fields;
pub mod selector;
pub mod traverse;
pub mod relation;
pub mod library;
pub mod load;
pub mod affiliation;
pub mod social;
pub mod urls;
pub mod lang;
pub mod output;
