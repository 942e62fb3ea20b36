//! Schema-driven SQL statement synthesis.
//!
//! Given a declarative description of a relational table (column names, which
//! columns form the primary key, an optional table-name override), the crate
//! deterministically produces parameterized SQL statement templates for point
//! lookup, insertion, update, deletion and unfiltered listing, together with
//! the exact, position-matched order of the bound values each template needs.
//! Generation is a pure function of the schema; executing the statements is
//! left to an external store client.

pub mod adapter;
pub mod binder;
pub mod laws;
pub mod plan;
pub mod schema;
pub mod text;
