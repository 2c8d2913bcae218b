//! Planning of casts between scalar types.
//!
//! The crate keeps a catalog of the casts that are valid between
//! [`scalar::ScalarType`]s, builds the expressions that carry them out, and
//! guesses the type that a group of values can be brought to.
//!
//! - [`scalar`]: scalar types and column types.
//! - [`expr`]: the expressions that casts are written in, and their types.
//! - [`catalog`]: the table of valid casts.
//! - [`cast`]: lookup of a cast and generation of its expression.
//! - [`rescale`]: moving a decimal from one scale to another.
//! - [`common_type`]: the guess at a common type.
//! - [`text`]: how types and casts are written out.
//! - [`laws`]: what holds of all of these together.
//! - [`cast_laws`]: what lookups find, and what the generated expressions compute.
//! - [`guess_laws`]: what the guess makes of its input, member by member.
//! - [`text_laws`]: what the texts of types and casts say.

pub mod cast;
pub mod cast_laws;
pub mod catalog;
pub mod common_type;
pub mod expr;
pub mod guess_laws;
pub mod laws;
pub mod rescale;
pub mod scalar;
pub mod text;
pub mod text_laws;
