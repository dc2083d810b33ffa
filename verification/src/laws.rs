//! What holds of every field and of every type description, stated over
//! the models of the other modules and proved from them.

pub mod entries;
pub mod fields;
pub mod types;
