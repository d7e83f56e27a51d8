//! Runtime support for SQL scalar functions: the non-null core functions,
//! the generic nullability lifter, and the nullable variants that generated
//! code calls.

pub mod case;
pub mod config;
pub mod dispatch;
pub mod join;
pub mod nullable;
pub mod pattern;
pub mod search;
pub mod text;
pub mod variants;
