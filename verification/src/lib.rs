//! Lowering of SQL text into the query model of the memless engine.
//!
//! `sqlparser` reads the text; [`bridge`] maps its syntax tree onto the
//! library's own model of it, [`syntax`]; the verified lowering turns that
//! model into the commands of [`query`], or refuses it with a
//! [`refusal::QueryRefusal`] that names the construct outside the subset.

pub mod refusal;
pub mod query;
pub mod syntax;
pub mod screen;
pub mod bridge;
pub mod names;
pub mod literal;
pub mod filter;
pub mod projection;
pub mod order;
pub mod join;
pub mod select;
pub mod write;
pub mod statement;

pub use statement::parse;
pub mod laws;
