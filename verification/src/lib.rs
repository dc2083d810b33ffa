//! Code generation for a configurable `Debug` implementation.
//!
//! A type is described by its name, its shape and its fields, each with the
//! `better_debug` options written on it ([`record`]). The options of a field
//! are read and checked ([`options`]) and resolve to one directive per
//! printed field ([`directive`]); the directives, in declaration order, make
//! up the generated `fmt` routine ([`routine`]), which is written as source
//! text ([`emit`]) and handed back as tokens ([`expand`]).
//!
//! [`output`] says what the routine prints when it runs, and [`laws`] holds
//! what is proved of all this. Only [`host`] is not verified: it asks `syn`
//! and `proc_macro2` for what only they can say.

pub mod directive;
pub mod emit;
pub mod expand;
pub mod host;
pub mod laws;
pub mod options;
pub mod output;
pub mod record;
pub mod routine;

pub use expand::expand;
