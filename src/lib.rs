//! Attributes: optional modifiers on functions, their parameters and their
//! return values, and the places on a function where they are attached.

pub mod attributes;

pub use attributes::{Attribute, AttributeKind, AttributeLoc, AttributeView, TypeRef};
