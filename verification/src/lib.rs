//! Small records with exact textual renderings: a named-field user record,
//! a positional point and a field-less marker, together with the lines that
//! a short walk through them prints.

pub mod demo;
pub mod point;
pub mod quote;
pub mod text;
pub mod user;
