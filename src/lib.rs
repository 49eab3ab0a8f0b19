//! A desktop-search provider core that treats a query as an arithmetic
//! expression: the terms of a query are joined into one expression, the
//! expression is remembered as a result id, and the metadata of a result is
//! the value that the expression evaluates to.
pub mod engine;
pub mod error;
pub mod metas;
pub mod registry;
pub mod search;
pub mod text;
