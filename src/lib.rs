//! Catalog and schema resolution for a graph-relational store: table
//! identifiers, catalog rows, type expressions and the assembly of a typed
//! table description from raw catalog rows.
pub mod ids;
pub mod typing;
pub mod catalog;
pub mod table;
pub mod laws;

