//! Reusable application components: a Postgres configuration builder,
//! migration naming, and the health and lifecycle rules of long-running
//! components.

pub mod component;
pub mod text;
pub mod postgres;
