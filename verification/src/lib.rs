//! A small typed-RPC backend core: declarative field validation, an error
//! taxonomy with one stable wire shape, a procedure registry and the per-call
//! dispatch pipeline, all with verified contracts.

pub mod digits;
pub mod dispatch;
pub mod errors;
pub mod pattern;
pub mod registry;
pub mod rules;
pub mod user;
pub mod validation;
